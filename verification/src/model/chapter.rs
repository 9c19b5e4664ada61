//! Chapters within a video.
use vstd::prelude::*;
use crate::text::{format_02, push_02, string_push};

verus! {

/// A chapter of a video, starting `start_time` seconds in.
#[derive(Debug)]
pub struct Chapter {
    pub video_id: String,
    pub title: String,
    pub start_time: i64,
}

/// A chapter to store for a video.
#[derive(Debug)]
pub struct UpsertChapter {
    pub title: String,
    pub start_time: i64,
}

/// `a / b` rounded toward zero, as Rust's `/` on integers computes it.
pub open spec fn trunc_div(a: int, b: int) -> int {
    if a >= 0 {
        a / b
    } else {
        -((-a) / b)
    }
}

/// The remainder of `a / b` rounded toward zero, as Rust's `%` on integers
/// computes it: it has the sign of `a`.
pub open spec fn trunc_rem(a: int, b: int) -> int {
    a - b * trunc_div(a, b)
}

/// How a chapter's start time is shown: whole minutes, a colon and the
/// remaining seconds, each zero-padded to two characters.
pub open spec fn format_minutes_seconds(start_time: int) -> Seq<char> {
    format_02(trunc_div(start_time, 60)) + seq![':'] + format_02(trunc_rem(start_time, 60))
}

/// A start time is shown as its whole minutes and remaining seconds: from a
/// start at or after 0, the minutes are `t / 60` however many they are and
/// the seconds `t % 60`; before 0, both are those of `-t`, negated.  The
/// minutes and seconds shown always make up the start time again.
pub proof fn lemma_format_time_whole_minutes(t: int)
    ensures
        t >= 0 ==> format_minutes_seconds(t) == format_02(t / 60) + seq![':'] + format_02(t % 60),
        t < 0 ==> format_minutes_seconds(t) == format_02(-((-t) / 60)) + seq![':'] + format_02(
            -((-t) % 60),
        ),
        trunc_div(t, 60) * 60 + trunc_rem(t, 60) == t,
        -60 < trunc_rem(t, 60) < 60,
        t >= 0 ==> trunc_rem(t, 60) >= 0,
        t <= 0 ==> trunc_rem(t, 60) <= 0,
{
    if t < 0 {
        assert((-t) == ((-t) / 60) * 60 + (-t) % 60);
    }
}

impl Chapter {
    /// The start time as `MM:SS`, as `format!("{:02}:{:02}", minutes, seconds)`
    /// writes it.
    pub fn format_time(&self) -> (res: String)
        ensures
            res@ == format_minutes_seconds(self.start_time as int),
    {
        let t = self.start_time;
        let negative = t < 0;
        let mag: u64 = if negative {
            ((-(t + 1)) as u64) + 1
        } else {
            t as u64
        };
        let q = mag / 60;
        let r = mag % 60;
        proof {
            let ti = t as int;
            assert(mag as int == if ti < 0 { -ti } else { ti });
            assert(trunc_div(ti, 60) == if negative { -(q as int) } else { q as int });
            assert(trunc_rem(ti, 60) == if negative { -(r as int) } else { r as int });
        }
        let mut s = String::new();
        push_02(&mut s, negative && q > 0, q);
        string_push(&mut s, ':');
        push_02(&mut s, negative && r > 0, r);
        proof {
            assert(s@ =~= format_minutes_seconds(t as int));
        }
        s
    }
}

} // verus!
