pub mod auth;
pub mod clock;
pub mod random;
pub mod text;
