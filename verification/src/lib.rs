pub mod config;
pub mod handler;
pub mod json;
pub mod logfmt;
pub mod route;
