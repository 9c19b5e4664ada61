//! Background jobs that keep the library in step with the files on disk.
pub mod playlist;
pub mod scan;
pub mod chapters;
