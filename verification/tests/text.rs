use rustube::text::{join_with_space, push_02, push_decimal};

#[test]
fn decimal_digits() {
    let mut s = String::from("x");
    push_decimal(&mut s, 0);
    push_decimal(&mut s, 1234567890);
    push_decimal(&mut s, u64::MAX);
    assert_eq!(s, format!("x01234567890{}", u64::MAX));
}

#[test]
fn two_wide_numbers() {
    let cases: [(bool, u64, &str); 6] = [
        (false, 0, "00"),
        (false, 7, "07"),
        (false, 42, "42"),
        (false, 123, "123"),
        (true, 3, "-3"),
        (true, 45, "-45"),
    ];
    for (negative, mag, expected) in cases {
        let mut s = String::new();
        push_02(&mut s, negative, mag);
        assert_eq!(s, expected);
        let value: i64 = if negative { -(mag as i64) } else { mag as i64 };
        assert_eq!(s, format!("{:02}", value));
    }
}

#[test]
fn join_tags_with_spaces() {
    assert_eq!(join_with_space(&vec![]), "");
    assert_eq!(join_with_space(&vec!["rust".to_string()]), "rust");
    let tags = vec!["rust".to_string(), "".to_string(), "video game".to_string()];
    assert_eq!(join_with_space(&tags), tags.join(" "));
    assert_eq!(join_with_space(&tags), "rust  video game");
}
