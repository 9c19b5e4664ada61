//! Videos.
pub mod index;

use vstd::prelude::*;
use crate::date::{
    Date, date_of_julian_day, julian_day_in_range, julian_day_of_timestamp, midnight_timestamp,
    timestamp_in_range, lemma_date_midnight_roundtrip, lemma_date_of_julian_day,
    lemma_midnight_in_range,
};
use crate::model::channel::Channel;
use crate::model::playstate::{Playstate, PlaystateFromQuery, playstate_of_row};

verus! {

/// A video to store.
#[derive(Debug)]
pub struct UpsertVideo {
    pub id: String,
    pub title: String,
    pub description: String,
    pub path: String,
    pub published_at: Date,
    pub duration: u32,
    pub channel_id: String,
}

/// A stored video with its channel and, if it has been played, its playstate.
#[derive(Debug)]
pub struct Video {
    pub id: String,
    pub title: String,
    pub description: String,
    pub path: String,
    pub published_at: Date,
    pub duration: u32,
    pub channel: Channel,
    pub playstate: Option<Playstate>,
}

/// A video as a database row holds it, joined with its channel's title and
/// with the columns of its playstate where it has one.
#[derive(Debug)]
pub struct VideoFromQuery {
    pub id: String,
    pub title: String,
    pub description: String,
    pub path: String,
    pub published_at: i64,
    pub duration: i64,
    pub channel_id: String,
    pub channel_title: String,
    pub playstate_id: Option<String>,
    pub playstate_position: Option<i64>,
    pub playstate_modified_at: Option<i64>,
}

/// The values a video is stored as: its publication date as the Unix
/// timestamp of that day's midnight UTC and its duration as a signed integer.
#[derive(Debug)]
pub struct VideoRow {
    pub id: String,
    pub title: String,
    pub description: String,
    pub path: String,
    pub published_at: i64,
    pub channel_id: String,
    pub duration: i64,
}

/// The row a video is stored as.
pub open spec fn row_of_video(video: UpsertVideo) -> VideoRow {
    VideoRow {
        id: video.id,
        title: video.title,
        description: video.description,
        path: video.path,
        published_at: midnight_timestamp(video.published_at@) as i64,
        channel_id: video.channel_id,
        duration: video.duration as i64,
    }
}

/// Whether `into_video` accepts the row: its timestamps are in range and a
/// row with a playstate id has the playstate's other columns.
pub open spec fn video_row_is_complete(row: VideoFromQuery) -> bool {
    &&& timestamp_in_range(row.published_at as int)
    &&& row.playstate_id is Some ==> {
        &&& row.playstate_position is Some
        &&& row.playstate_modified_at is Some
        &&& timestamp_in_range(row.playstate_modified_at.unwrap() as int)
    }
}

/// The playstate that the playstate columns of a video row describe.
pub open spec fn playstate_of_video_row(row: VideoFromQuery) -> Option<Playstate> {
    match row.playstate_id {
        Some(id) => Some(
            playstate_of_row(
                PlaystateFromQuery {
                    id,
                    position: row.playstate_position.unwrap(),
                    modified_at: row.playstate_modified_at.unwrap(),
                },
            ),
        ),
        None => None,
    }
}

/// The video that a row describes: its date is the UTC date of the stored
/// timestamp and its duration the low 32 bits of the stored integer.
pub open spec fn video_of_row(row: VideoFromQuery) -> Video {
    Video {
        id: row.id,
        title: row.title,
        description: row.description,
        path: row.path,
        published_at: date_of_julian_day(julian_day_of_timestamp(row.published_at as int)),
        duration: row.duration as u32,
        channel: Channel { id: row.channel_id, title: row.channel_title },
        playstate: playstate_of_video_row(row),
    }
}

/// How much of a video has been watched, in whole percent, rounded down.
pub open spec fn percentage_watched_of(video: Video) -> int {
    match video.playstate {
        Some(p) => (p.position * 100) / (video.duration as int),
        None => 0,
    }
}

impl Video {
    /// How much of the video has been watched, in whole percent rounded down;
    /// 0 for a video never played.  A played video must have a nonzero
    /// duration and a position below `u32::MAX / 100`.
    pub fn percentage_watched(&self) -> (res: u32)
        requires
            self.playstate matches Some(p) ==> p.position * 100 <= u32::MAX && self.duration > 0,
        ensures
            res == percentage_watched_of(*self),
            self.playstate matches Some(p) && p.position <= self.duration ==> res <= 100,
    {
        match &self.playstate {
            Some(playstate) => {
                let res = playstate.position * 100 / self.duration;
                proof {
                    let p = playstate.position as int;
                    let d = self.duration as int;
                    if p <= d {
                        assert(p * 100 <= d * 100);
                        assert((p * 100) / d <= (d * 100) / d) by (nonlinear_arith)
                            requires
                                p * 100 <= d * 100,
                                d > 0,
                        ;
                        assert((d * 100) / d == 100) by (nonlinear_arith)
                            requires
                                d > 0,
                        ;
                    }
                }
                res
            },
            None => 0,
        }
    }
}

/// The percentage watched is the position in hundredths of the duration,
/// rounded down: it is the whole number `r` with
/// `r * duration <= position * 100 < (r + 1) * duration`.  A video never
/// played has 0 percent watched.
pub proof fn lemma_percentage_watched_rounds_down(video: Video)
    ensures
        video.playstate is Some && video.duration > 0 ==> {
            let r = percentage_watched_of(video);
            let position = video.playstate.unwrap().position;
            &&& r * video.duration <= position * 100
            &&& position * 100 < (r + 1) * video.duration
        },
        video.playstate is None ==> percentage_watched_of(video) == 0,
{
    match video.playstate {
        Some(p) => {
            if video.duration > 0 {
                let d = video.duration as int;
                let x = p.position * 100;
                let r = x / d;
                assert(r * d <= x && x < (r + 1) * d) by (nonlinear_arith)
                    requires
                        d > 0,
                        r == x / d,
                ;
            }
        },
        None => {},
    }
}

impl UpsertVideo {
    /// The row this video is stored as.
    pub fn into_row(self) -> (res: VideoRow)
        ensures
            res == row_of_video(self),
            timestamp_in_range(res.published_at as int),
    {
        let published_at = self.published_at.midnight_unix_timestamp();
        VideoRow {
            id: self.id,
            title: self.title,
            description: self.description,
            path: self.path,
            published_at,
            channel_id: self.channel_id,
            duration: self.duration as i64,
        }
    }
}

impl VideoFromQuery {
    /// The video this row describes.  The row must be complete: its
    /// timestamps in range, and the playstate's position and time present
    /// where its id is.
    pub fn into_video(self) -> (res: Video)
        requires
            video_row_is_complete(self),
        ensures
            res == video_of_row(self),
            res.published_at@ == julian_day_of_timestamp(self.published_at as int),
    {
        let playstate = match self.playstate_id {
            Some(id) => {
                let position = self.playstate_position.unwrap();
                let modified_at = self.playstate_modified_at.unwrap();
                Some(PlaystateFromQuery { id, position, modified_at }.into_playstate())
            },
            None => None,
        };
        let published_at = Date::from_unix_timestamp(self.published_at).unwrap();
        proof {
            lemma_date_of_julian_day(published_at);
        }
        Video {
            id: self.id,
            title: self.title,
            description: self.description,
            path: self.path,
            published_at,
            duration: self.duration as u32,
            channel: Channel { id: self.channel_id, title: self.channel_title },
            playstate,
        }
    }
}

/// What a read gives back of a write: a video stored as its row and read back
/// with its channel's title and its playstate's columns, if any, is the video
/// that was stored, on that channel, with that playstate.
pub proof fn lemma_video_roundtrip(
    video: UpsertVideo,
    channel_title: String,
    playstate: Option<PlaystateFromQuery>,
)
    requires
        julian_day_in_range(video.published_at@),
    ensures
        ({
            let row = row_of_video(video);
            let read = VideoFromQuery {
                id: row.id,
                title: row.title,
                description: row.description,
                path: row.path,
                published_at: row.published_at,
                duration: row.duration,
                channel_id: row.channel_id,
                channel_title,
                playstate_id: match playstate {
                    Some(p) => Some(p.id),
                    None => None,
                },
                playstate_position: match playstate {
                    Some(p) => Some(p.position),
                    None => None,
                },
                playstate_modified_at: match playstate {
                    Some(p) => Some(p.modified_at),
                    None => None,
                },
            };
            video_of_row(read) == Video {
                id: video.id,
                title: video.title,
                description: video.description,
                path: video.path,
                published_at: video.published_at,
                duration: video.duration,
                channel: Channel { id: video.channel_id, title: channel_title },
                playstate: match playstate {
                    Some(p) => Some(playstate_of_row(p)),
                    None => None,
                },
            }
        }),
{
    let jd = video.published_at@;
    lemma_midnight_in_range(jd);
    lemma_date_midnight_roundtrip(jd);
    lemma_date_of_julian_day(video.published_at);
    let d = video.duration;
    assert((d as i64) as u32 == d) by (bit_vector);
}

} // verus!
