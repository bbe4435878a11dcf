use nano::content::Data;

#[test]
fn test_content_from_str() {
    let content = Data::from("Hello, world!");
    assert_eq!(content.display(), "Hello, world!");
    assert_eq!(content.len(), 13);
}

#[test]
fn test_content_display() {
    let content = Data::from("Hello, world!");
    assert_eq!(content.display(), "Hello, world!");
}

#[test]
fn test_content_display_range() {
    let content = Data::from("Hello, world!");
    assert_eq!(content.display_range(0, 5), "Hello");
}

#[test]
fn test_content_len() {
    let content = Data::from("Hello, world!");
    assert_eq!(content.len(), 13);
}

#[test]
fn test_content_is_empty() {
    let content = Data::from("Hello, world!");
    assert!(!content.is_empty());
}

#[test]
fn test_content_new() {
    let content = Data::new(String::from("Hello, world!"));
    assert_eq!(content.display(), "Hello, world!");
    assert_eq!(content.len(), 13);
}

#[test]
fn graphemes_test() {
    let content = Data::from("Hello, world!");
    assert_eq!(content.display(), "Hello, world!");
    assert_eq!(content.len(), 13);
}

#[test]
fn test_display_range() {
    let content = Data::from("日本語");
    assert_eq!(content.display_range(1, 3), "本語");
}

#[test]
fn test_len_with_emoji() {
    let content = Data::from("😀😃😄😁");
    assert_eq!(content.display().len(), 16);
    assert_eq!(content.len(), 4);
}

#[test]
fn test_is_empty() {
    let content = Data::new("".into());
    assert!(content.is_empty());
}

#[test]
fn test_display_with_emoji() {
    let content = Data::from("😀");
    assert_eq!(content.display(), "😀");
    assert_eq!(content.display().len(), 4);
    assert_eq!(content.len(), 1);
}

#[test]
fn test_display_range_with_emoji() {
    let content = Data::from("😀😃😄😁");
    assert_eq!(content.display_range(1, 3), "😃😄");
}

#[test]
fn length_counts_clusters_not_bytes_or_code_points() {
    // "e" with a combining acute accent, then a flag of two regional indicators.
    let content = Data::from("e\u{301}🇷🇺");
    assert_eq!(content.display().len(), 11);
    assert_eq!(content.display().chars().count(), 4);
    assert_eq!(content.len(), 2);
    assert_eq!(content.display_range(0, 1), "e\u{301}");
    assert_eq!(content.display_range(1, 2), "🇷🇺");
}

#[test]
fn carriage_return_and_line_feed_are_one_cluster() {
    let content = Data::from("a\r\nb");
    assert_eq!(content.len(), 3);
    assert_eq!(content.display_range(1, 2), "\r\n");
}

#[test]
fn display_range_with_end_before_start_is_empty() {
    let content = Data::from("Hello, world!");
    assert_eq!(content.display_range(5, 2), "");
    assert_eq!(content.display_range(3, 3), "");
}

#[test]
fn display_range_starting_past_the_end_is_empty() {
    let content = Data::from("Hello");
    assert_eq!(content.display_range(5, 9), "");
    assert_eq!(content.display_range(6, 9), "");
    assert_eq!(content.display_range(usize::MAX, usize::MAX), "");
}

#[test]
fn display_range_stops_at_the_end_of_the_row() {
    let content = Data::from("Hello");
    assert_eq!(content.display_range(3, 100), "lo");
    assert_eq!(content.display_range(0, usize::MAX), "Hello");
}

#[test]
fn display_range_is_a_slice_of_display() {
    let content = Data::from("a😀e\u{301}z");
    let whole = content.display();
    for start in 0..6 {
        for end in 0..6 {
            let piece = content.display_range(start, end);
            assert!(whole.contains(&piece));
            let clusters = Data::from(piece.as_str()).len();
            let most = end.min(content.len()).saturating_sub(start);
            assert_eq!(clusters, most);
        }
    }
}

#[test]
fn empty_row_has_no_cluster() {
    let content = Data::from("");
    assert_eq!(content.len(), 0);
    assert!(content.is_empty());
    assert_eq!(content.display_range(0, 1), "");
    assert_eq!(Data::default().len(), 0);
}

#[test]
fn rows_are_equal_where_their_texts_are() {
    assert_eq!(Data::from("abc"), Data::new(String::from("abc")));
    assert_ne!(Data::from("abc"), Data::from("abd"));
    let row = Data::from("😀x");
    assert_eq!(row.clone(), row);
}

#[test]
fn a_string_slice_converts_into_a_row() {
    let row: Data = "e\u{301}x".into();
    assert_eq!(row.len(), 2);
    assert_eq!(row, Data::from("e\u{301}x"));
}

#[test]
fn the_whole_range_is_the_whole_row() {
    for text in ["", "abc", "😀e\u{301}z", "a\r\nb"] {
        let row = Data::from(text);
        assert_eq!(row.display_range(0, row.len()), row.display());
        assert_eq!(row.display_range(0, usize::MAX), text);
    }
}
