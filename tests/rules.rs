use dtv_media::rules::{
    backoff_secs, build_platform_room_output_dir, default_output_root, force_https, is_active_status, is_flv_stream,
    is_room_offline_error, normalize_platform, normalize_quality, normalize_segment_minutes,
    resolve_output_root, sanitize_token, segment_file_name,
};
use dtv_media::text::trim;

#[test]
fn segment_minutes_zero_becomes_default() {
    assert_eq!(normalize_segment_minutes(Some(0)), 30);
}

#[test]
fn segment_minutes_above_a_day_is_clamped() {
    assert_eq!(normalize_segment_minutes(Some(1441)), 1440);
    assert_eq!(normalize_segment_minutes(Some(1440)), 1440);
    assert_eq!(normalize_segment_minutes(Some(1)), 1);
    assert_eq!(normalize_segment_minutes(None), 30);
}

#[test]
fn platform_is_trimmed_and_upper_cased() {
    assert_eq!(normalize_platform(" huya "), Some("HUYA"));
    assert_eq!(normalize_platform("Bilibili"), Some("BILIBILI"));
    assert_eq!(normalize_platform("douyu"), Some("DOUYU"));
    assert_eq!(normalize_platform("DouYin"), Some("DOUYIN"));
    assert_eq!(normalize_platform("twitch"), None);
    assert_eq!(normalize_platform(""), None);
}

#[test]
fn quality_falls_back_to_original() {
    assert_eq!(normalize_quality(None), "原画");
    assert_eq!(normalize_quality(Some(" 高清 ")), "高清");
    assert_eq!(normalize_quality(Some("标清")), "标清");
    assert_eq!(normalize_quality(Some("4K")), "原画");
}

#[test]
fn sanitize_replaces_and_trims() {
    assert_eq!(sanitize_token("abc/def"), "abc_def");
    assert_eq!(sanitize_token("__a b__"), "a_b");
    assert_eq!(sanitize_token("房间"), "unknown");
    assert_eq!(sanitize_token(""), "unknown");
    assert_eq!(sanitize_token("room-42_x"), "room-42_x");
}

#[test]
fn sanitize_twice_is_sanitize_once() {
    for s in ["a/b/c", "__x__", "", "房间123", "ok-1", "_ _"] {
        let once = sanitize_token(s);
        assert_eq!(sanitize_token(&once), once);
    }
}

#[test]
fn force_https_rewrites_http_only() {
    assert_eq!(force_https("http://a.com/x.flv"), "https://a.com/x.flv");
    assert_eq!(force_https("https://a.com/x.flv"), "https://a.com/x.flv");
    assert_eq!(force_https("rtmp://a.com/x"), "rtmp://a.com/x");
}

#[test]
fn force_https_twice_is_force_https_once() {
    for u in ["http://a/b", "https://a/b", "ftp://x", "http://", ""] {
        let once = force_https(u);
        assert_eq!(force_https(&once), once);
    }
}

#[test]
fn flv_detection_is_case_insensitive() {
    assert!(is_flv_stream("https://x/live.FLV?a=1"));
    assert!(is_flv_stream("https://x/stream_flv?x"));
    assert!(!is_flv_stream("https://x/index.m3u8"));
}

#[test]
fn offline_messages_are_recognised() {
    assert!(is_room_offline_error("Huya streamer is offline"));
    assert!(is_room_offline_error("主播未开播"));
    assert!(is_room_offline_error("房间不存在"));
    assert!(is_room_offline_error("stream_ended_or_offline"));
    assert!(is_room_offline_error("OFFLINE"));
    assert!(!is_room_offline_error("timeout"));
}

#[test]
fn active_statuses() {
    assert!(is_active_status("starting"));
    assert!(is_active_status("recording"));
    assert!(is_active_status("reconnecting"));
    assert!(!is_active_status("stopped"));
    assert!(!is_active_status("failed"));
}

#[test]
fn backoff_schedule() {
    assert_eq!(backoff_secs(0), 2);
    assert_eq!(backoff_secs(1), 2);
    assert_eq!(backoff_secs(2), 5);
    assert_eq!(backoff_secs(3), 10);
    assert_eq!(backoff_secs(4), 30);
    assert_eq!(backoff_secs(100), 30);
}

#[test]
fn output_paths() {
    assert_eq!(resolve_output_root(Some("  /data/rec "), "/home/v/DTV"), "/data/rec");
    assert_eq!(resolve_output_root(Some("   "), "/home/v/DTV"), "/home/v/DTV");
    assert_eq!(resolve_output_root(None, "/home/v/DTV"), "/home/v/DTV");
    assert_eq!(build_platform_room_output_dir("/data", "HUYA", "12 3"), "/data/HUYA/12_3");
    assert_eq!(build_platform_room_output_dir("/data/", "HUYA", "123"), "/data/HUYA/123");
}

#[test]
fn segment_names_are_padded() {
    assert_eq!(
        segment_file_name("HUYA", "123", "20240101_120000", 1),
        "huya_123_20240101_120000_part001.flv"
    );
    assert_eq!(segment_file_name("DOUYU", "9", "t", 42), "douyu_9_t_part042.flv");
    assert_eq!(segment_file_name("DOUYU", "9", "t", 1234), "douyu_9_t_part1234.flv");
}

#[test]
fn trim_removes_unicode_whitespace() {
    assert_eq!(trim("\u{3000} a b \t\n"), "a b");
    assert_eq!(trim("   "), "");
}

#[test]
fn default_root_fallbacks() {
    assert_eq!(default_output_root(Some("/home/u/Videos"), Some("/w")), "/home/u/Videos/DTV");
    assert_eq!(default_output_root(None, Some("/w")), "/w/recordings");
    assert_eq!(default_output_root(None, None), "./recordings");
}
