pub mod config;
pub mod date;
pub mod http;
pub mod jobs;
pub mod model;
pub mod text;
