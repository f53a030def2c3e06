//! Session credentials for player accounts: password login, token refresh and
//! the forced password-change flow, with the token policy stated as contracts.

pub mod bindings;
pub mod error;
pub mod grpc;
pub mod models;
pub mod services;
