pub mod credentials;
pub mod error_response;
pub mod login;
pub mod permission;
