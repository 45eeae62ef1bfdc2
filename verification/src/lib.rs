pub mod download;
pub mod platform;
pub mod proxy;
pub mod recording;
pub mod retention;
pub mod settings;
pub mod startup;
pub mod stt;
pub mod text;
