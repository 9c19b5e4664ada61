//! Chapters read from the video files with `ffprobe`.
pub mod ffprobe;

use vstd::prelude::*;
use crate::jobs::chapters::ffprobe::Info;
use crate::model::chapter::UpsertChapter;

verus! {

/// The chapters to store for what `ffprobe` reported: each chapter's title,
/// and its start in whole seconds, the milliseconds rounded down.
pub fn upsert_chapters_of(info: Info) -> (res: Vec<UpsertChapter>)
    ensures
        res@.len() == info.chapters@.len(),
        forall|i: int|
            #![trigger res@[i]]
            0 <= i < res@.len() ==> {
                &&& res@[i].title == info.chapters@[i].tags.title
                &&& res@[i].start_time == info.chapters@[i].start / 1000
            },
{
    let ghost all = info.chapters@;
    let mut rest = info.chapters;
    let n = rest.len();
    let mut chapters: Vec<UpsertChapter> = Vec::new();
    let mut i: usize = 0;
    while rest.len() > 0
        invariant
            n == all.len(),
            i + rest.len() == n,
            rest@ == all.skip(i as int),
            chapters@.len() == i,
            forall|j: int|
                #![trigger chapters@[j]]
                0 <= j < i ==> {
                    &&& chapters@[j].title == all[j].tags.title
                    &&& chapters@[j].start_time == all[j].start / 1000
                },
        decreases rest.len(),
    {
        let chapter = rest.remove(0);
        chapters.push(UpsertChapter { title: chapter.tags.title, start_time: (chapter.start / 1000) as i64 });
        proof {
            assert(rest@ =~= all.skip(i + 1));
        }
        i = i + 1;
    }
    chapters
}

} // verus!
