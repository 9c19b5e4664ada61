//! The full-text index of videos.
use vstd::prelude::*;
use crate::model::video::Video;
use crate::text::{join, join_with_space, str_trim, trim};

verus! {

/// The text a video is found by: its own fields, its channel's title and its
/// tags.
pub struct UpsertVideoIndex {
    pub id: String,
    pub title: String,
    pub description: String,
    pub channel_title: String,
    pub tags: Vec<String>,
}

/// The term a search runs with: `term` without leading and trailing
/// whitespace, or `None` where nothing else is left, and no search is run.
pub fn search_term(term: &str) -> (res: Option<String>)
    ensures
        match res {
            Some(t) => t@ == trim(term@) && t@.len() > 0,
            None => trim(term@).len() == 0,
        },
{
    let trimmed = str_trim(term);
    if trimmed.unicode_len() == 0 {
        None
    } else {
        Some(String::from_str(trimmed))
    }
}

/// The videos that a search found, in the order the index ranked them,
/// leaving out the entries whose video could not be read.
pub open spec fn found_videos(found: Seq<Option<Video>>) -> Seq<Video>
    decreases found.len(),
{
    if found.len() == 0 {
        Seq::empty()
    } else {
        let rest = found_videos(found.drop_last());
        match found.last() {
            Some(v) => rest.push(v),
            None => rest,
        }
    }
}

/// The videos of a search, from what each ranked index entry read back.
pub fn matched_videos(found: Vec<Option<Video>>) -> (res: Vec<Video>)
    ensures
        res@ == found_videos(found@),
{
    let ghost all = found@;
    let mut found = found;
    let mut rest: Vec<Option<Video>> = Vec::new();
    std::mem::swap(&mut rest, &mut found);
    let mut videos: Vec<Video> = Vec::new();
    let mut i: usize = 0;
    let n = rest.len();
    while rest.len() > 0
        invariant
            n == all.len(),
            i + rest.len() == n,
            rest@ == all.skip(i as int),
            videos@ == found_videos(all.take(i as int)),
        decreases rest.len(),
    {
        let entry = rest.remove(0);
        proof {
            assert(all.take(i + 1).drop_last() =~= all.take(i as int));
            assert(entry == all[i as int]);
            assert(all.take(i + 1).last() == all[i as int]);
        }
        match entry {
            Some(video) => videos.push(video),
            None => {},
        }
        proof {
            assert(rest@ =~= all.skip(i + 1));
        }
        i = i + 1;
    }
    proof {
        assert(all.take(n as int) =~= all);
    }
    videos
}

/// The videos of a search are built entry by entry: no entries give no
/// videos, an entry whose video was read adds that video at the end, and an
/// entry whose video could not be read adds nothing.
pub proof fn lemma_found_videos_entry_by_entry(found: Seq<Option<Video>>, v: Video)
    ensures
        found_videos(Seq::empty()) == Seq::<Video>::empty(),
        found_videos(found.push(Some(v))) == found_videos(found).push(v),
        found_videos(found.push(None)) == found_videos(found),
        found_videos(seq![Some(v)]) == seq![v],
{
    assert(found.push(Some(v)).drop_last() =~= found);
    assert(found.push(None).drop_last() =~= found);
    assert(seq![Some(v)].drop_last() =~= Seq::<Option<Video>>::empty());
    assert(Seq::<Video>::empty().push(v) =~= seq![v]);
}

/// A search finds no more videos than it has entries, and as many as it
/// has entries where every entry's video was read; the video of each entry
/// comes after those of the entries before it.
pub proof fn lemma_found_videos_counts(found: Seq<Option<Video>>)
    ensures
        found_videos(found).len() <= found.len(),
        (forall|i: int| 0 <= i < found.len() ==> #[trigger] found[i] is Some) ==> (found_videos(found).len()
            == found.len() && forall|i: int|
            0 <= i < found.len() ==> Some(#[trigger] found_videos(found)[i]) == found[i]),
    decreases found.len(),
{
    if found.len() > 0 {
        let rest = found.drop_last();
        lemma_found_videos_counts(rest);
        if forall|i: int| 0 <= i < found.len() ==> #[trigger] found[i] is Some {
            assert forall|i: int| 0 <= i < rest.len() implies #[trigger] rest[i] is Some by {
                assert(rest[i] == found[i]);
            }
            assert forall|i: int| 0 <= i < found.len() implies Some(
                #[trigger] found_videos(found)[i],
            ) == found[i] by {
                if i < rest.len() {
                    assert(rest[i] == found[i]);
                } else {
                    assert(found[i] is Some);
                }
            }
        }
    }
}

impl UpsertVideoIndex {
    /// The index entry of a video with its tags.
    pub fn from_video(video: Video, tags: Vec<String>) -> (res: UpsertVideoIndex)
        ensures
            res == (UpsertVideoIndex {
                id: video.id,
                title: video.title,
                description: video.description,
                channel_title: video.channel.title,
                tags,
            }),
    {
        UpsertVideoIndex {
            id: video.id,
            title: video.title,
            description: video.description,
            channel_title: video.channel.title,
            tags,
        }
    }

    /// The tags as the index stores them: joined with single spaces.
    pub fn joined_tags(&self) -> (res: String)
        ensures
            res@ == join(self.tags@.map_values(|t: String| t@), seq![' ']),
    {
        join_with_space(&self.tags)
    }
}

} // verus!
