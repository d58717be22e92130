pub mod scripts;
pub mod runner;
pub mod nickname;
pub mod detect;
