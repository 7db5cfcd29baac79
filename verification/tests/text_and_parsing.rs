use termtunes::auth::{
    auth_poll_outcome, auth_url, build_plex_headers, build_token_headers, parse_server_choice, server_selection,
    AuthPoll, ServerChoiceError, ServerSelection, AUTH_POLL_LIMIT,
};
use termtunes::audio_setup::{
    asoundrc_action, asoundrc_contents, audio_open_error, is_wsl_kernel, pulse_latency, AsoundrcAction,
    LatencySource,
};
use termtunes::text::{
    decimal_string, format_duration, parse_unsigned_text, str_contains, strip_trailing_char, trim_text,
    truncate_for_display,
};

#[test]
fn format_duration_pads_minutes_and_seconds() {
    assert_eq!(format_duration(0), "00:00");
    assert_eq!(format_duration(65), "01:05");
    assert_eq!(format_duration(599), "09:59");
    assert_eq!(format_duration(6000), "100:00");
}

#[test]
fn decimal_string_renders_numbers() {
    assert_eq!(decimal_string(0), "0");
    assert_eq!(decimal_string(1234567), "1234567");
    assert_eq!(decimal_string(u64::MAX), "18446744073709551615");
}

#[test]
fn truncate_keeps_fitting_text() {
    assert_eq!(truncate_for_display("hello", 5), "hello");
    assert_eq!(truncate_for_display("hello", 10), "hello");
}

#[test]
fn truncate_adds_ellipsis() {
    assert_eq!(truncate_for_display("hello world", 8), "hello...");
    assert_eq!(truncate_for_display("hello world", 4), "h...");
}

#[test]
fn truncate_small_widths_have_no_ellipsis() {
    assert_eq!(truncate_for_display("hello", 3), "hel");
    assert_eq!(truncate_for_display("hello", 0), "");
}

#[test]
fn truncate_counts_characters_not_bytes() {
    assert_eq!(truncate_for_display("héllo wörld", 7), "héll...");
    assert_eq!(truncate_for_display("日本語のタイトル", 2), "日本");
}

#[test]
fn contains_finds_substrings() {
    assert!(str_contains("Linux version 5.15.0-microsoft-standard-WSL2", "microsoft"));
    assert!(str_contains("abc", ""));
    assert!(!str_contains("abc", "abcd"));
    assert!(!str_contains("server,client", "servers"));
}

#[test]
fn strip_trailing_removes_only_the_tail() {
    assert_eq!(strip_trailing_char("http://host:32400///", '/'), "http://host:32400");
    assert_eq!(strip_trailing_char("/a/b", '/'), "/a/b");
    assert_eq!(strip_trailing_char("///", '/'), "");
}

#[test]
fn trim_removes_unicode_white_space() {
    assert_eq!(trim_text("  42\n"), "42");
    assert_eq!(trim_text("\u{a0}\tx y\u{3000}"), "x y");
    assert_eq!(trim_text("   "), "");
}

#[test]
fn parse_unsigned_follows_std() {
    assert_eq!(parse_unsigned_text("42", 100), Some(42));
    assert_eq!(parse_unsigned_text("+7", 100), Some(7));
    assert_eq!(parse_unsigned_text("007", 100), Some(7));
    assert_eq!(parse_unsigned_text("101", 100), None);
    assert_eq!(parse_unsigned_text("-1", 100), None);
    assert_eq!(parse_unsigned_text("+", 100), None);
    assert_eq!(parse_unsigned_text("", 100), None);
    assert_eq!(parse_unsigned_text("1 2", 100), None);
    assert_eq!(parse_unsigned_text("4294967295", u32::MAX as u64), Some(4294967295));
    assert_eq!(parse_unsigned_text("4294967296", u32::MAX as u64), None);
    assert_eq!(parse_unsigned_text("99999999999999999999999x", u64::MAX), None);
}

#[test]
fn server_choice_is_one_based() {
    assert_eq!(parse_server_choice("1\n", 3), Ok(0));
    assert_eq!(parse_server_choice(" 3 ", 3), Ok(2));
    assert_eq!(parse_server_choice("4", 3), Err(ServerChoiceError::OutOfRange(4)));
    assert_eq!(parse_server_choice("0", 3), Err(ServerChoiceError::OutOfRange(0)));
    assert_eq!(parse_server_choice("two", 3), Err(ServerChoiceError::Invalid));
    assert_eq!(parse_server_choice("", 3), Err(ServerChoiceError::Invalid));
}

#[test]
fn auth_url_carries_client_and_code() {
    assert_eq!(
        auth_url("abc-123", "XYZ9"),
        "https://app.plex.tv/auth#?clientID=abc-123&code=XYZ9&context%5Bdevice%5D%5Bproduct%5D=TermTunes"
    );
}

#[test]
fn plex_headers_name_the_product_and_client() {
    let h = build_plex_headers("client-1");
    assert_eq!(h.len(), 3);
    assert_eq!(h[0], ("X-Plex-Product".to_string(), "TermTunes".to_string()));
    assert_eq!(h[1], ("X-Plex-Client-Identifier".to_string(), "client-1".to_string()));
    assert_eq!(h[2], ("Accept".to_string(), "application/json".to_string()));
    let t = build_token_headers("client-1", "tok");
    assert_eq!(t.len(), 4);
    assert_eq!(t[3], ("X-Plex-Token".to_string(), "tok".to_string()));
}

#[test]
fn auth_polling_times_out_after_the_limit() {
    assert!(matches!(auth_poll_outcome(1, None), AuthPoll::Waiting));
    assert!(matches!(auth_poll_outcome(AUTH_POLL_LIMIT - 1, None), AuthPoll::Waiting));
    assert!(matches!(auth_poll_outcome(AUTH_POLL_LIMIT, None), AuthPoll::TimedOut));
    match auth_poll_outcome(AUTH_POLL_LIMIT, Some("tok".to_string())) {
        AuthPoll::Authorized(t) => assert_eq!(t, "tok"),
        _ => panic!("token expected"),
    }
}

#[test]
fn wsl_is_detected_from_kernel_version() {
    assert!(is_wsl_kernel("Linux version 5.15.153.1-microsoft-standard-WSL2"));
    assert!(is_wsl_kernel("Linux version 4.4.0-19041-Microsoft (WSL)"));
    assert!(!is_wsl_kernel("Linux version 6.8.0-45-generic (buildd@lcy02)"));
}

#[test]
fn pulse_latency_precedence_and_clamping() {
    let c = pulse_latency(Some(" 300 "), Some(80));
    assert_eq!((c.requested, c.latency_msec, c.source), (300, 300, LatencySource::Env));
    let c = pulse_latency(Some("fast"), Some(80));
    assert_eq!((c.requested, c.latency_msec, c.source), (80, 80, LatencySource::Config));
    let c = pulse_latency(None, None);
    assert_eq!((c.requested, c.latency_msec, c.source), (150, 150, LatencySource::Default));
    let c = pulse_latency(Some("10"), None);
    assert_eq!((c.requested, c.latency_msec), (10, 50));
    let c = pulse_latency(None, Some(5000));
    assert_eq!((c.requested, c.latency_msec), (5000, 2000));
}

#[test]
fn asoundrc_is_written_once() {
    assert_eq!(asoundrc_action(None), AsoundrcAction::Write);
    assert_eq!(asoundrc_action(Some("pcm.!default { type hw }")), AsoundrcAction::KeepUserConfig);
    assert_eq!(asoundrc_action(Some("")), AsoundrcAction::KeepUserConfig);
    assert_eq!(
        asoundrc_action(Some("# Auto-generated by TermTunes for WSL2\n# termtunes-asoundrc-v2\n")),
        AsoundrcAction::Write
    );
    let text = asoundrc_contents();
    assert!(text.starts_with("# Auto-generated by TermTunes for WSL2 audio support.\n# termtunes-asoundrc-v3\n"));
    assert!(text.contains("pcm.!default {\n    type pulse\n"));
    assert!(text.ends_with("ctl.!default {\n    type pulse\n}\n"));
    assert_eq!(asoundrc_action(Some(&text)), AsoundrcAction::AlreadyCurrent);
}

#[test]
fn one_server_is_taken_without_asking() {
    assert_eq!(server_selection(0), ServerSelection::NoneFound);
    assert_eq!(server_selection(1), ServerSelection::Only);
    assert_eq!(server_selection(4), ServerSelection::Ask);
}

#[test]
fn audio_errors_advise_on_wsl() {
    assert_eq!(audio_open_error("no device", false, false, false), "Failed to open audio output: no device");
    assert_eq!(
        audio_open_error("x", true, false, false),
        "Failed to open audio output: x\n\nWSL2 audio requires the ALSA PulseAudio plugin.\n\
         Install it with: sudo apt-get install -y libasound2-plugins\nThen restart the application."
    );
    assert!(audio_open_error("x", true, true, false).contains("/mnt/wslg/PulseServer"));
    assert_eq!(audio_open_error("x", true, true, true), "Failed to open audio output: x");
}
