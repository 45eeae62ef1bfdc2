pub mod audio;
pub mod catalog;
pub mod error;
pub mod host;
pub mod request;
pub mod session;
