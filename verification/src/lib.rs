pub mod download;
pub mod jlink;
pub mod text;
pub mod platform;
