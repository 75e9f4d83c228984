use redeemer::cache::{Cache, CACHE_LIMIT};

fn numbered(n: usize) -> String {
    format!("CODE{:08}", n)
}

fn entries(cache: &Cache) -> Vec<String> {
    let text = cache.write();
    if text.is_empty() {
        Vec::new()
    } else {
        text.split('\n').map(|line| line.to_string()).collect()
    }
}

#[test]
fn new_cache_is_empty() {
    let cache = Cache::new();
    assert_eq!(cache.len(), 0);
    assert_eq!(cache.write(), "");
    assert!(!cache.contains("ABCD12345678"));
}

#[test]
fn limit_is_fifty() {
    assert_eq!(CACHE_LIMIT, 50);
}

#[test]
fn contains_after_push() {
    let mut cache = Cache::new();
    cache.push("ABCD12345678".to_string());
    assert!(cache.contains("ABCD12345678"));
}

#[test]
fn contains_is_exact() {
    let mut cache = Cache::new();
    cache.push("ABCD12345678".to_string());
    assert!(!cache.contains("ABCD12345679"));
    assert!(!cache.contains("abcd12345678"));
    assert!(!cache.contains("ABCD1234567"));
    assert!(!cache.contains("ABCD123456788"));
    assert!(!cache.contains("ABCD-1234-5678"));
    assert!(!cache.contains(""));
}

#[test]
fn push_keeps_insertion_order() {
    let mut cache = Cache::new();
    cache.push("first".to_string());
    cache.push("second".to_string());
    cache.push("third".to_string());
    assert_eq!(cache.write(), "first\nsecond\nthird");
    assert_eq!(cache.len(), 3);
}

#[test]
fn push_keeps_duplicates() {
    let mut cache = Cache::new();
    cache.push("twice".to_string());
    cache.push("twice".to_string());
    assert_eq!(cache.write(), "twice\ntwice");
}

#[test]
fn fifty_pushes_fill_the_cache() {
    let mut cache = Cache::new();
    for n in 0..50 {
        cache.push(numbered(n));
    }
    assert_eq!(cache.len(), 50);
    assert!(cache.contains(&numbered(0)));
    assert!(cache.contains(&numbered(49)));
}

#[test]
fn the_oldest_leaves_first() {
    let mut cache = Cache::new();
    for n in 0..51 {
        cache.push(numbered(n));
    }
    assert_eq!(cache.len(), 50);
    assert!(!cache.contains(&numbered(0)));
    assert!(cache.contains(&numbered(1)));
    assert!(cache.contains(&numbered(50)));
}

#[test]
fn the_fifty_most_recent_stay_in_order() {
    let mut cache = Cache::new();
    for n in 0..137 {
        cache.push(numbered(n));
    }
    let expected: Vec<String> = (87..137).map(numbered).collect();
    assert_eq!(entries(&cache), expected);
}

#[test]
fn bust_clears_the_cache() {
    let mut cache = Cache::new();
    cache.push("ABCD12345678".to_string());
    cache.push("WXYZ98765432".to_string());
    cache.bust();
    assert_eq!(cache.len(), 0);
    assert!(!cache.contains("ABCD12345678"));
    assert_eq!(cache.write(), "");
}

#[test]
fn bust_save_load_is_empty() {
    let mut cache = Cache::new();
    cache.push("ABCD12345678".to_string());
    cache.bust();
    let saved = cache.write();
    let loaded = Cache::from_file(&saved);
    assert_eq!(loaded.len(), 0);
    assert_eq!(loaded.write(), "");
}

#[test]
fn a_busted_cache_takes_codes_again() {
    let mut cache = Cache::new();
    cache.push("ABCD12345678".to_string());
    cache.bust();
    cache.push("WXYZ98765432".to_string());
    assert_eq!(cache.write(), "WXYZ98765432");
}

#[test]
fn from_file_reads_one_code_per_line() {
    let cache = Cache::from_file("ABCD12345678\nWXYZ98765432\n");
    assert_eq!(cache.len(), 2);
    assert!(cache.contains("ABCD12345678"));
    assert!(cache.contains("WXYZ98765432"));
    assert_eq!(cache.write(), "ABCD12345678\nWXYZ98765432");
}

#[test]
fn from_file_takes_a_last_line_without_line_feed() {
    let cache = Cache::from_file("ABCD12345678\nWXYZ98765432");
    assert_eq!(entries(&cache), vec!["ABCD12345678", "WXYZ98765432"]);
}

#[test]
fn from_file_of_nothing_is_empty() {
    assert_eq!(Cache::from_file("").len(), 0);
}

#[test]
fn from_file_keeps_empty_lines() {
    let cache = Cache::from_file("a\n\nb\n");
    assert_eq!(cache.len(), 3);
    assert!(cache.contains(""));
    assert_eq!(cache.write(), "a\n\nb");
}

#[test]
fn from_file_of_one_line_feed_is_one_empty_line() {
    let cache = Cache::from_file("\n");
    assert_eq!(cache.len(), 1);
    assert!(cache.contains(""));
}

#[test]
fn from_file_drops_the_carriage_return_before_a_line_feed() {
    let cache = Cache::from_file("ABCD12345678\r\nWXYZ98765432\r\n");
    assert!(cache.contains("ABCD12345678"));
    assert!(cache.contains("WXYZ98765432"));
    assert!(!cache.contains("ABCD12345678\r"));
}

#[test]
fn from_file_drops_only_one_carriage_return() {
    let cache = Cache::from_file("a\r\r\nb");
    assert!(cache.contains("a\r"));
    assert!(cache.contains("b"));
    assert_eq!(cache.len(), 2);
}

#[test]
fn from_file_keeps_a_carriage_return_inside_a_line() {
    let cache = Cache::from_file("a\rb\n");
    assert!(cache.contains("a\rb"));
    assert_eq!(cache.len(), 1);
}

#[test]
fn from_file_keeps_a_carriage_return_at_the_very_end() {
    let cache = Cache::from_file("a\nb\r");
    assert!(cache.contains("b\r"));
    assert_eq!(cache.len(), 2);
}

#[test]
fn from_file_agrees_with_lines_of_std() {
    let texts = [
        "",
        "\n",
        "\r",
        "\r\n",
        "a",
        "a\n",
        "a\r\n",
        "a\n\n",
        "\n\na",
        "a\r\r\n\rb\n\r",
        "one\ntwo\r\nthree",
        "é\nü\r\n",
    ];
    for text in texts {
        let expected: Vec<String> = text.lines().map(|line| line.to_string()).collect();
        let cache = Cache::from_file(text);
        assert_eq!(cache.len(), expected.len(), "{:?}", text);
        for line in &expected {
            assert!(cache.contains(line), "{:?}", text);
        }
    }
}

#[test]
fn from_file_keeps_the_fifty_last_lines() {
    let mut text = String::new();
    for n in 0..60 {
        text.push_str(&numbered(n));
        text.push('\n');
    }
    let cache = Cache::from_file(&text);
    let expected: Vec<String> = (10..60).map(numbered).collect();
    assert_eq!(entries(&cache), expected);
}

#[test]
fn write_then_from_file_gives_the_same_cache() {
    let mut cache = Cache::new();
    for n in 0..50 {
        cache.push(numbered(n));
    }
    let loaded = Cache::from_file(&cache.write());
    assert_eq!(loaded.write(), cache.write());
    assert_eq!(loaded.len(), 50);
}

#[test]
fn write_puts_no_line_feed_after_the_last_entry() {
    let mut cache = Cache::new();
    cache.push("only".to_string());
    assert_eq!(cache.write(), "only");
}
