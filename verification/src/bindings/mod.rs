//! The calls this crate makes into other crates. Each item here states a
//! contract that the verifier takes on trust; the doc comment of each says
//! what is claimed of the code behind it.

pub mod clock;
pub mod digest;
pub mod ident;
pub mod json;
pub mod jwt;
