//! What `ffprobe -print_format json -show_chapters` reports.
use vstd::prelude::*;

verus! {

/// The report: the chapters of the file.
pub struct Info {
    pub chapters: Vec<Chapter>,
}

/// A chapter: where it starts, in milliseconds, and its tags.
pub struct Chapter {
    pub start: u64,
    pub tags: Tags,
}

/// The tags of a chapter.
pub struct Tags {
    pub title: String,
}

} // verus!
