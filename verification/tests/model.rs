use rustube::date::{Date, Timestamp};
use rustube::model::channel::Channel;
use rustube::model::playlist::{
    PlaylistFromQuery, PlaylistItemFromQuery, UpsertPlaylist, UpsertPlaylistItem,
};
use rustube::model::playstate::{Playstate, PlaystateFromQuery, UpsertPlaystate};
use rustube::model::video::{UpsertVideo, Video, VideoFromQuery};

fn video_row(playstate: Option<(i64, i64)>) -> VideoFromQuery {
    VideoFromQuery {
        id: "abc".to_string(),
        title: "A title".to_string(),
        description: "Some words".to_string(),
        path: "/videos/abc.mp4".to_string(),
        published_at: 1_546_300_800 + 3600,
        duration: 120,
        channel_id: "chan".to_string(),
        channel_title: "Channel".to_string(),
        playstate_id: playstate.map(|_| "abc".to_string()),
        playstate_position: playstate.map(|p| p.0),
        playstate_modified_at: playstate.map(|p| p.1),
    }
}

fn video(position: Option<u32>, duration: u32) -> Video {
    Video {
        id: "v".to_string(),
        title: "t".to_string(),
        description: "d".to_string(),
        path: "p".to_string(),
        published_at: Date::from_julian_day(2_458_485).unwrap(),
        duration,
        channel: Channel { id: "c".to_string(), title: "C".to_string() },
        playstate: position.map(|position| Playstate {
            id: "v".to_string(),
            position,
            modified_at: Timestamp::from_unix_timestamp(0).unwrap(),
        }),
    }
}

#[test]
fn into_video_without_playstate() {
    let v = video_row(None).into_video();
    assert_eq!(v.id, "abc");
    assert_eq!(v.title, "A title");
    assert_eq!(v.description, "Some words");
    assert_eq!(v.path, "/videos/abc.mp4");
    assert_eq!(v.published_at.julian_day(), 2_458_485);
    assert_eq!(v.duration, 120);
    assert_eq!(v.channel.id, "chan");
    assert_eq!(v.channel.title, "Channel");
    assert!(v.playstate.is_none());
}

#[test]
fn into_video_with_playstate() {
    let v = video_row(Some((30, 1_600_000_000))).into_video();
    let p = v.playstate.unwrap();
    assert_eq!(p.id, "abc");
    assert_eq!(p.position, 30);
    assert_eq!(p.modified_at.unix_timestamp(), 1_600_000_000);
}

#[test]
fn into_video_truncates_duration() {
    let mut row = video_row(None);
    row.duration = (1i64 << 32) + 7;
    assert_eq!(row.into_video().duration, 7);
}

#[test]
fn percentage_watched_rounds_down() {
    assert_eq!(video(None, 120).percentage_watched(), 0);
    assert_eq!(video(Some(30), 120).percentage_watched(), 25);
    assert_eq!(video(Some(1), 3).percentage_watched(), 33);
    assert_eq!(video(Some(120), 120).percentage_watched(), 100);
    assert_eq!(video(Some(0), 120).percentage_watched(), 0);
}

#[test]
fn percentage_watched_at_most_hundred() {
    for duration in 1..50u32 {
        for position in 0..=duration {
            assert!(video(Some(position), duration).percentage_watched() <= 100);
        }
    }
}

#[test]
fn upsert_video_row() {
    let v = UpsertVideo {
        id: "abc".to_string(),
        title: "T".to_string(),
        description: "D".to_string(),
        path: "/p.mp4".to_string(),
        published_at: Date::from_julian_day(2_458_485).unwrap(),
        duration: u32::MAX,
        channel_id: "chan".to_string(),
    };
    let row = v.into_row();
    assert_eq!(row.published_at, 1_546_300_800);
    assert_eq!(row.duration, u32::MAX as i64);
    assert_eq!(row.id, "abc");
    assert_eq!(row.channel_id, "chan");
}

#[test]
fn video_written_reads_back() {
    let date = Date::from_julian_day(2_451_604).unwrap();
    let v = UpsertVideo {
        id: "id1".to_string(),
        title: "T".to_string(),
        description: "D".to_string(),
        path: "/p.mp4".to_string(),
        published_at: date,
        duration: 4000,
        channel_id: "chan".to_string(),
    };
    let row = v.into_row();
    let read = VideoFromQuery {
        id: row.id,
        title: row.title,
        description: row.description,
        path: row.path,
        published_at: row.published_at,
        duration: row.duration,
        channel_id: row.channel_id,
        channel_title: "Chan".to_string(),
        playstate_id: None,
        playstate_position: None,
        playstate_modified_at: None,
    }
    .into_video();
    assert_eq!(read.id, "id1");
    assert_eq!(read.published_at, date);
    assert_eq!(read.duration, 4000);
    assert_eq!(read.channel.id, "chan");
}

#[test]
fn playstate_row() {
    let p = PlaystateFromQuery { id: "x".to_string(), position: 90, modified_at: 1_700_000_000 }
        .into_playstate();
    assert_eq!(p.id, "x");
    assert_eq!(p.position, 90);
    assert_eq!(p.modified_at.unix_timestamp(), 1_700_000_000);
    let q = PlaystateFromQuery { id: "y".to_string(), position: (1i64 << 32) + 1, modified_at: 0 }
        .into_playstate();
    assert_eq!(q.position, 1);
}

#[test]
fn playstate_written_reads_back() {
    let upsert = UpsertPlaystate { id: "z".to_string(), position: u32::MAX };
    let read = PlaystateFromQuery { id: upsert.id.clone(), position: upsert.position as i64, modified_at: 5 }
        .into_playstate();
    assert_eq!(read.position, u32::MAX);
    assert_eq!(read.id, "z");
}

#[test]
fn playlist_from_rows() {
    let item = PlaylistItemFromQuery {
        video_id: "v1".to_string(),
        video_title: "T".to_string(),
        video_description: "D".to_string(),
        video_path: "/v1.mp4".to_string(),
        video_published_at: 0,
        video_duration: 60,
        channel_id: "c".to_string(),
        channel_title: "C".to_string(),
        playstate_id: None,
        playstate_position: None,
        playstate_modified_at: None,
    }
    .into_playlist_item();
    assert_eq!(item.id, "v1");
    assert_eq!(item.video.id, "v1");
    assert_eq!(item.video.duration, 60);
    let playlist = PlaylistFromQuery { id: 3, title: "Best".to_string(), slug: "best".to_string() }
        .into_playlist(vec![item]);
    assert_eq!(playlist.title, "Best");
    assert_eq!(playlist.slug, "best");
    assert_eq!(playlist.items.len(), 1);
    assert_eq!(playlist.items[0].id, "v1");
}

#[test]
fn playlist_item_rows_in_order() {
    let p = UpsertPlaylist {
        title: "t".to_string(),
        slug: "s".to_string(),
        items: vec![
            UpsertPlaylistItem { id: "b".to_string() },
            UpsertPlaylistItem { id: "a".to_string() },
            UpsertPlaylistItem { id: "b".to_string() },
        ],
    };
    assert_eq!(
        p.item_rows(),
        vec![("b".to_string(), 0), ("a".to_string(), 1), ("b".to_string(), 2)]
    );
    let empty = UpsertPlaylist { title: "t".to_string(), slug: "s".to_string(), items: vec![] };
    assert!(empty.item_rows().is_empty());
}
