use rustube::date::Date;
use rustube::model::channel::Channel;
use rustube::model::video::index::{matched_videos, search_term, UpsertVideoIndex};
use rustube::model::video::Video;

fn video(id: &str) -> Video {
    Video {
        id: id.to_string(),
        title: format!("title {}", id),
        description: "d".to_string(),
        path: "p".to_string(),
        published_at: Date::from_julian_day(0).unwrap(),
        duration: 1,
        channel: Channel { id: "c".to_string(), title: "Chan".to_string() },
        playstate: None,
    }
}

#[test]
fn search_term_is_trimmed() {
    assert_eq!(search_term("cats"), Some("cats".to_string()));
    assert_eq!(search_term("  cats and dogs \n"), Some("cats and dogs".to_string()));
    assert_eq!(search_term("\u{3000}x\t"), Some("x".to_string()));
}

#[test]
fn blank_search_runs_no_query() {
    assert_eq!(search_term(""), None);
    assert_eq!(search_term("   \t\n"), None);
    assert_eq!(search_term("\u{2003}\u{a0}"), None);
}

#[test]
fn matched_videos_skip_missing() {
    let found = vec![Some(video("a")), None, Some(video("b")), None];
    let ids: Vec<String> = matched_videos(found).into_iter().map(|v| v.id).collect();
    assert_eq!(ids, vec!["a".to_string(), "b".to_string()]);
    assert!(matched_videos(vec![None, None]).is_empty());
    assert!(matched_videos(vec![]).is_empty());
}

#[test]
fn index_entry_of_video() {
    let entry = UpsertVideoIndex::from_video(video("z"), vec!["one".to_string(), "two".to_string()]);
    assert_eq!(entry.id, "z");
    assert_eq!(entry.title, "title z");
    assert_eq!(entry.channel_title, "Chan");
    assert_eq!(entry.joined_tags(), "one two");
    let bare = UpsertVideoIndex::from_video(video("y"), vec![]);
    assert_eq!(bare.joined_tags(), "");
}
