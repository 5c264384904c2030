//! Authentication and session core: registration, login, logout, session
//! validation and profile-image resizing, written as a verified state machine
//! whose outside work (storage, credentials, files) is carried out by a driver.
pub mod flow;
pub mod laws;
pub mod model;
pub mod picture;
pub mod service;

pub use service::AuthService;
