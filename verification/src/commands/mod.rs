pub mod config;
pub mod workflows;
pub mod health;
pub mod recommendations;
