//! The records the library stores and reads back.
pub mod channel;
pub mod chapter;
pub mod playlist;
pub mod playstate;
pub mod video;
