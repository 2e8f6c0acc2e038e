use every_discord_bot::music::source::{
    format_clock, is_url, search_query, song_from_output, YtDlpOutput,
};

#[test]
fn test_is_url_detection() {
    assert!(is_url("http://example.com"));
    assert!(is_url("https://youtube.com/watch?v=abc"));
    assert!(!is_url("my search query"));
    assert!(!is_url("lofi hip hop"));
    assert!(!is_url("ftp://example.com"));
}

#[test]
fn is_url_edge_cases() {
    assert!(is_url("http://"));
    assert!(is_url("https://"));
    assert!(!is_url(""));
    assert!(!is_url("http:/"));
    assert!(!is_url("HTTP://example.com"));
    assert!(!is_url(" http://example.com"));
}

#[test]
fn search_query_keeps_urls_and_prefixes_words() {
    assert_eq!(search_query("https://youtu.be/x"), "https://youtu.be/x");
    assert_eq!(search_query("lofi hip hop"), "ytsearch1:lofi hip hop");
    assert_eq!(search_query(""), "ytsearch1:");
}

#[test]
fn test_parse_full_output() {
    let song = song_from_output(YtDlpOutput {
        title: Some("Test Song".to_string()),
        duration: Some(185),
        webpage_url: Some("https://youtube.com/watch?v=abc".to_string()),
        original_url: Some("https://youtube.com/watch?v=abc".to_string()),
    });
    assert_eq!(song.title, "Test Song");
    assert_eq!(song.url, "https://youtube.com/watch?v=abc");
    assert_eq!(song.duration, Some("3:05".to_string()));
    assert_eq!(song.requester, "");
}

#[test]
fn test_parse_missing_title() {
    let song = song_from_output(YtDlpOutput {
        title: None,
        duration: Some(60),
        webpage_url: Some("https://example.com".to_string()),
        original_url: None,
    });
    assert_eq!(song.title, "알 수 없음");
}

#[test]
fn test_parse_missing_duration() {
    let song = song_from_output(YtDlpOutput {
        title: Some("No Duration".to_string()),
        duration: None,
        webpage_url: Some("https://example.com".to_string()),
        original_url: None,
    });
    assert!(song.duration.is_none());
}

#[test]
fn test_parse_duration_formatting() {
    let cases = [(0u64, "0:00"), (59, "0:59"), (60, "1:00"), (3661, "61:01")];
    for (secs, expected) in cases {
        let song = song_from_output(YtDlpOutput {
            title: None,
            duration: Some(secs),
            webpage_url: Some("https://example.com".to_string()),
            original_url: None,
        });
        assert_eq!(song.duration.as_deref(), Some(expected), "failed for {secs} seconds");
    }
}

#[test]
fn test_parse_webpage_url_fallback() {
    let song = song_from_output(YtDlpOutput {
        title: Some("Fallback".to_string()),
        duration: None,
        webpage_url: None,
        original_url: Some("https://original.example.com".to_string()),
    });
    assert_eq!(song.url, "https://original.example.com");
}

#[test]
fn test_parse_no_urls() {
    let song = song_from_output(YtDlpOutput {
        title: Some("No URL".to_string()),
        duration: None,
        webpage_url: None,
        original_url: None,
    });
    assert_eq!(song.url, "");
}

#[test]
fn format_clock_values() {
    assert_eq!(format_clock(0), "0:00");
    assert_eq!(format_clock(9), "0:09");
    assert_eq!(format_clock(185), "3:05");
    assert_eq!(format_clock(600), "10:00");
    assert_eq!(format_clock(u64::MAX), "307445734561825860:15");
}
