//! Channels that videos are published on.
use vstd::prelude::*;

verus! {

/// A channel, found by its id.
#[derive(Debug)]
pub struct Channel {
    pub id: String,
    pub title: String,
}

} // verus!
