//! The metadata files that a downloader writes beside each video.
use vstd::prelude::*;
use crate::date::{Date, ymd_date_parse};
use crate::model::channel::Channel;
use crate::model::video::UpsertVideo;

verus! {

/// The metadata of a downloaded video.  `duration` is in whole seconds.
/// `upload_date` is written `YYYYMMDD`.
#[derive(Debug)]
pub struct YtVideo {
    pub id: String,
    pub title: String,
    pub description: String,
    pub channel_id: Option<String>,
    pub channel: Option<String>,
    pub uploader_id: String,
    pub uploader: String,
    pub duration: u32,
    pub upload_date: String,
    pub tags: Option<Vec<String>>,
}

/// The id of the channel a video belongs to: its channel id where it has one,
/// its uploader's id otherwise.
pub open spec fn channel_id_of(video: YtVideo) -> String {
    match video.channel_id {
        Some(id) => id,
        None => video.uploader_id,
    }
}

/// The title of the channel a video belongs to: its channel name where it
/// has one, its uploader's name otherwise.
pub open spec fn channel_title_of(video: YtVideo) -> String {
    match video.channel {
        Some(title) => title,
        None => video.uploader,
    }
}

/// Whether the upload date is one that `time` reads as `YYYYMMDD`.
pub open spec fn has_upload_date(video: YtVideo) -> bool {
    ymd_date_parse(video.upload_date@) is Some
}

impl YtVideo {
    /// The channel the video belongs to.
    pub fn to_channel(&self) -> (res: Channel)
        ensures
            res == (Channel { id: channel_id_of(*self), title: channel_title_of(*self) }),
    {
        let id = match &self.channel_id {
            Some(id) => id.clone(),
            None => self.uploader_id.clone(),
        };
        let title = match &self.channel {
            Some(title) => title.clone(),
            None => self.uploader.clone(),
        };
        Channel { id, title }
    }

    /// The video to store for the file at `path`.  The upload date must be
    /// readable.
    pub fn to_upsert_video(&self, path: &str) -> (res: UpsertVideo)
        requires
            has_upload_date(*self),
        ensures
            res.id == self.id,
            res.description == self.description,
            res.duration == self.duration,
            res.path@ == path@,
            res.title == self.title,
            ymd_date_parse(self.upload_date@) == Some(res.published_at@),
            res.channel_id == channel_id_of(*self),
    {
        let channel_id = match &self.channel_id {
            Some(id) => id.clone(),
            None => self.uploader_id.clone(),
        };
        UpsertVideo {
            id: self.id.clone(),
            description: self.description.clone(),
            duration: self.duration,
            path: String::from_str(path),
            title: self.title.clone(),
            published_at: self.upload_date(),
            channel_id,
        }
    }

    /// The video to store for the file at `path`, or `None` where the upload
    /// date cannot be read.
    pub fn try_to_upsert_video(&self, path: &str) -> (res: Option<UpsertVideo>)
        ensures
            res is Some <==> has_upload_date(*self),
            res matches Some(v) ==> {
                &&& v.id == self.id
                &&& v.description == self.description
                &&& v.duration == self.duration
                &&& v.path@ == path@
                &&& v.title == self.title
                &&& ymd_date_parse(self.upload_date@) == Some(v.published_at@)
                &&& v.channel_id == channel_id_of(*self)
            },
    {
        match Date::parse_ymd(self.upload_date.as_str()) {
            Some(_) => Some(self.to_upsert_video(path)),
            None => None,
        }
    }

    /// The upload date.  It must be readable as `YYYYMMDD`.
    pub fn upload_date(&self) -> (res: Date)
        requires
            has_upload_date(*self),
        ensures
            ymd_date_parse(self.upload_date@) == Some(res@),
    {
        Date::parse_ymd(self.upload_date.as_str()).unwrap()
    }
}

} // verus!
