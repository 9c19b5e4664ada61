use rustube::model::chapter::Chapter;

fn chapter_at(start_time: i64) -> Chapter {
    Chapter { video_id: "v".to_string(), title: "t".to_string(), start_time }
}

#[test]
fn format_time_pads_minutes_and_seconds() {
    assert_eq!(chapter_at(0).format_time(), "00:00");
    assert_eq!(chapter_at(65).format_time(), "01:05");
    assert_eq!(chapter_at(600).format_time(), "10:00");
    assert_eq!(chapter_at(3599).format_time(), "59:59");
    assert_eq!(chapter_at(6000).format_time(), "100:00");
}

#[test]
fn format_time_of_negative_start() {
    assert_eq!(chapter_at(-5).format_time(), format!("{:02}:{:02}", -5i64 / 60, -5i64 % 60));
    assert_eq!(chapter_at(-65).format_time(), "-1:-5");
    assert_eq!(chapter_at(i64::MIN).format_time(), format!("{:02}:{:02}", i64::MIN / 60, i64::MIN % 60));
}
