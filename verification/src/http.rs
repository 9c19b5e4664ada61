//! What the web front end decides, apart from serving requests.
pub mod api;
pub mod error;
pub mod response;
