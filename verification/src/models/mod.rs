pub mod player;

pub use player::{
    EnhancedLoginResponse, LoginRequest, PasswordChangeRequest, Player, PlayerView, RefreshRequest,
    RefreshResponse,
};
