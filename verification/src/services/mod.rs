pub mod credential_store;
pub mod guarantees;
pub mod password_hasher;
pub mod player_service;
pub mod punishment_service;
pub mod report_service;
pub mod token_codec;
pub mod token_policy;

pub use credential_store::CredentialStore;
pub use password_hasher::PasswordHasher;
pub use player_service::PlayerService;
pub use punishment_service::PunishmentService;
pub use report_service::ReportService;
pub use token_codec::{Claims, ClaimsView, CodecError, TokenCodec};
pub use token_policy::{Operation, TokenPolicy, TokenType};
