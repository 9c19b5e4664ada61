//! Playlists: named, ordered lists of videos.
use vstd::prelude::*;
use crate::model::video::{Video, VideoFromQuery, video_of_row, video_row_is_complete};

verus! {

/// A playlist's title and slug, without its items.
#[derive(Debug)]
pub struct SimplePlaylist {
    pub title: String,
    pub slug: String,
}

/// A playlist with its items in order.
#[derive(Debug)]
pub struct Playlist {
    pub title: String,
    pub slug: String,
    pub items: Vec<PlaylistItem>,
}

/// An entry of a playlist: the id of its video and the video.
#[derive(Debug)]
pub struct PlaylistItem {
    pub id: String,
    pub video: Video,
}

/// A playlist to store, found by its slug.
#[derive(Debug)]
pub struct UpsertPlaylist {
    pub title: String,
    pub slug: String,
    pub items: Vec<UpsertPlaylistItem>,
}

/// An entry of a playlist to store: the id of its video.
#[derive(Debug)]
pub struct UpsertPlaylistItem {
    pub id: String,
}

/// A playlist as its database row holds it.
pub struct PlaylistFromQuery {
    pub id: i64,
    pub title: String,
    pub slug: String,
}

/// A playlist entry as a database row holds it, joined with its video, the
/// video's channel and the video's playstate columns.
pub struct PlaylistItemFromQuery {
    pub video_id: String,
    pub video_title: String,
    pub video_description: String,
    pub video_path: String,
    pub video_published_at: i64,
    pub video_duration: i64,
    pub channel_id: String,
    pub channel_title: String,
    pub playstate_id: Option<String>,
    pub playstate_position: Option<i64>,
    pub playstate_modified_at: Option<i64>,
}

/// The video row held in a playlist entry row.
pub open spec fn video_row_of_item_row(row: PlaylistItemFromQuery) -> VideoFromQuery {
    VideoFromQuery {
        id: row.video_id,
        title: row.video_title,
        description: row.video_description,
        path: row.video_path,
        published_at: row.video_published_at,
        duration: row.video_duration,
        channel_id: row.channel_id,
        channel_title: row.channel_title,
        playstate_id: row.playstate_id,
        playstate_position: row.playstate_position,
        playstate_modified_at: row.playstate_modified_at,
    }
}

impl PlaylistFromQuery {
    /// The playlist with this row's title and slug and the given items.
    pub fn into_playlist(self, items: Vec<PlaylistItem>) -> (res: Playlist)
        ensures
            res == (Playlist { title: self.title, slug: self.slug, items }),
    {
        Playlist { title: self.title, slug: self.slug, items }
    }
}

impl PlaylistItemFromQuery {
    /// The playlist entry this row describes: the video's id and the video.
    /// The video columns must be complete, as for `into_video`.
    pub fn into_playlist_item(self) -> (res: PlaylistItem)
        requires
            video_row_is_complete(video_row_of_item_row(self)),
        ensures
            res.id == self.video_id,
            res.video == video_of_row(video_row_of_item_row(self)),
    {
        let id = self.video_id.clone();
        let video = VideoFromQuery {
            channel_id: self.channel_id,
            channel_title: self.channel_title,
            description: self.video_description,
            duration: self.video_duration,
            id: self.video_id,
            path: self.video_path,
            playstate_id: self.playstate_id,
            playstate_modified_at: self.playstate_modified_at,
            playstate_position: self.playstate_position,
            published_at: self.video_published_at,
            title: self.video_title,
        };
        let video = video.into_video();
        PlaylistItem { id, video }
    }
}

impl UpsertPlaylist {
    /// The rows a playlist's entries are stored as: each entry's video id and
    /// its position in the playlist, counted from 0.  Reading the rows back
    /// ordered by position gives the entries in their order.
    pub fn item_rows(&self) -> (res: Vec<(String, i64)>)
        ensures
            res@.len() == self.items@.len(),
            forall|i: int|
                0 <= i < res@.len() ==> #[trigger] res@[i] == (self.items@[i].id, i as i64),
    {
        let mut rows: Vec<(String, i64)> = Vec::new();
        let mut i: usize = 0;
        while i < self.items.len()
            invariant
                i <= self.items@.len(),
                rows@.len() == i,
                forall|j: int|
                    0 <= j < i ==> #[trigger] rows@[j] == (self.items@[j].id, j as i64),
            decreases self.items@.len() - i,
        {
            rows.push((self.items[i].id.clone(), i as i64));
            i = i + 1;
        }
        rows
    }
}

} // verus!
