//! The JSON API.
use vstd::prelude::*;
use crate::model::playlist::Playlist;
use crate::model::video::Video;

verus! {

/// The videos of a playlist, in its order: the videos of its entries, or
/// none where the playlist does not exist.
pub fn playlist_videos(playlist: Option<Playlist>) -> (res: Vec<Video>)
    ensures
        match playlist {
            Some(p) => res@.len() == p.items@.len() && forall|i: int|
                0 <= i < res@.len() ==> #[trigger] res@[i] == p.items@[i].video,
            None => res@.len() == 0,
        },
{
    match playlist {
        Some(p) => {
            let ghost items = p.items@;
            let mut rest = p.items;
            let n = rest.len();
            let mut videos: Vec<Video> = Vec::new();
            let mut i: usize = 0;
            while rest.len() > 0
                invariant
                    n == items.len(),
                    i + rest.len() == n,
                    rest@ == items.skip(i as int),
                    videos@.len() == i,
                    forall|j: int| 0 <= j < i ==> #[trigger] videos@[j] == items[j].video,
                decreases rest.len(),
            {
                let item = rest.remove(0);
                videos.push(item.video);
                proof {
                    assert(rest@ =~= items.skip(i + 1));
                }
                i = i + 1;
            }
            videos
        },
        None => Vec::new(),
    }
}

} // verus!
