pub mod config;
pub mod digest;
pub mod foxess;
pub mod fritz;
pub mod power;
pub mod rows;
pub mod scheduler;
pub mod session;
pub mod text;
pub mod weather;
