use rustube::config::{Config, DEFAULT_PORT};
use rustube::date::Date;
use rustube::http::api::playlist_videos;
use rustube::http::error::HttpError;
use rustube::http::response::{css_content_type, js_content_type, Css, Js};
use rustube::model::channel::Channel;
use rustube::model::playlist::{Playlist, PlaylistItem};
use rustube::model::video::Video;

fn video(id: &str) -> Video {
    Video {
        id: id.to_string(),
        title: "t".to_string(),
        description: "d".to_string(),
        path: "p".to_string(),
        published_at: Date::from_julian_day(1).unwrap(),
        duration: 1,
        channel: Channel { id: "c".to_string(), title: "C".to_string() },
        playstate: None,
    }
}

#[test]
fn status_codes() {
    assert_eq!(HttpError::NotFound.status_code(), 404);
    assert_eq!(HttpError::Io("disk".to_string()).status_code(), 500);
    assert_eq!(HttpError::Anyhow("x".to_string()).status_code(), 500);
    assert_eq!(HttpError::Sql("db".to_string()).status_code(), 500);
    assert_eq!(HttpError::Askama("tpl".to_string()).status_code(), 500);
}

#[test]
fn error_messages() {
    assert_eq!(HttpError::NotFound.message(), "Not Found");
    assert_eq!(HttpError::Sql("no such table".to_string()).message(), "no such table");
}

#[test]
fn videos_of_playlist() {
    let playlist = Playlist {
        title: "P".to_string(),
        slug: "p".to_string(),
        items: vec![
            PlaylistItem { id: "b".to_string(), video: video("b") },
            PlaylistItem { id: "a".to_string(), video: video("a") },
        ],
    };
    let ids: Vec<String> = playlist_videos(Some(playlist)).into_iter().map(|v| v.id).collect();
    assert_eq!(ids, vec!["b".to_string(), "a".to_string()]);
    assert!(playlist_videos(None).is_empty());
}

#[test]
fn typed_bodies() {
    let css: Css<&str> = Css::from("body {}");
    assert_eq!(css.0, "body {}");
    let js: Js<String> = "x()".to_string().into();
    assert_eq!(js.0, "x()");
    assert_eq!(css_content_type(), "text/css");
    assert_eq!(js_content_type(), "application/javascript");
}

#[test]
fn config_fields() {
    let c = Config {
        database_url: "sqlite://db.sqlite".to_string(),
        port: DEFAULT_PORT,
        video_root: std::path::PathBuf::from("/videos"),
    };
    assert_eq!(c.port, 3000);
    assert_eq!(c.video_root, std::path::PathBuf::from("/videos"));
}
