pub mod authentication;
pub mod punishment;
pub mod report;
pub mod transport;

pub use authentication::GrpcAuthenticationService;
pub use punishment::GrpcPunishmentService;
pub use report::GrpcReportService;
pub use transport::{Authorization, Code, Status};
