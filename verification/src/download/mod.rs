pub mod types;
pub mod installer;
