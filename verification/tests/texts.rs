use container_agent_dev::json::json_text;
use container_agent_dev::settings::{
    bootstrap_path, container_name, engine_binary, loopback_port, owning_service,
    resolve_device_id, writable_root, DEFAULT_BOOTSTRAP_PATH,
};
use container_agent_dev::span::Span;
use container_agent_dev::text::{
    contains_char, contains_text, decimal_text, is_white_space, join_path, last_position,
    parse_u16, same_text, split, trim,
};

#[test]
fn white_space_is_unicode_white_space() {
    let mut code: u32 = 0;
    while code <= 0x10ffff {
        if let Some(c) = char::from_u32(code) {
            assert_eq!(is_white_space(c), c.is_whitespace(), "U+{code:04X}");
        }
        code += 1;
    }
}

#[test]
fn trimming_is_std_trimming() {
    for s in [
        "", " ", "\t\n ", "a", " a ", "a b", "\u{a0}x y\u{3000}", "\u{200b}x\u{200b}", "é\n",
    ] {
        assert_eq!(trim(s), s.trim(), "{s:?}");
    }
}

#[test]
fn ports_parse_like_std() {
    for s in [
        "", "+", "-", "0", "+7", "++7", "007", "65535", "65536", "99999999999999999999", "-1",
        "1 2", "１", "0x10", "15151",
    ] {
        assert_eq!(parse_u16(s), s.parse::<u16>().ok(), "{s:?}");
    }
}

#[test]
fn numbers_are_written_in_decimal() {
    for n in [0, 7, 10, 4096, u64::MAX] {
        assert_eq!(decimal_text(n), n.to_string());
    }
}

#[test]
fn searching_is_std_searching() {
    for (hay, needle) in [
        ("podman", "podman"),
        ("/usr/bin/podman-remote", "podman"),
        ("podma", "podman"),
        ("ppodman", "podman"),
        ("docker", ""),
        ("", ""),
        ("aab", "ab"),
    ] {
        assert_eq!(contains_text(hay, needle), hay.contains(needle), "{hay} {needle}");
    }
    assert!(contains_char("a/b", '/'));
    assert!(!contains_char("ab", '/'));
    assert_eq!(last_position("a:b:c", ':'), Some(3));
    assert_eq!(last_position("é:x", ':'), Some(1));
    assert_eq!(last_position("abc", ':'), None);
    assert!(same_text("GET", "GET"));
    assert!(!same_text("GET", "get"));
    assert!(!same_text("GET", "GETS"));
}

#[test]
fn splitting_is_std_splitting() {
    for s in ["", ":", "a", "a:b", ":a::b:"] {
        let want: Vec<String> = s.split(':').map(|p| p.to_string()).collect();
        assert_eq!(split(s, ':'), want, "{s:?}");
    }
}

#[test]
fn joining_puts_one_slash_between() {
    assert_eq!(join_path("/a", "b"), "/a/b");
    assert_eq!(join_path("/a/", "b"), "/a/b");
    assert_eq!(join_path("", "b"), "b");
}

#[test]
fn json_strings_are_those_of_serde_json() {
    let mut all = String::new();
    for code in 0..0x180 {
        if let Some(c) = char::from_u32(code) {
            all.push(c);
        }
    }
    all.push_str("\u{2028}\u{1f600}");
    assert_eq!(json_text(&all), serde_json::to_string(&all).unwrap());
    let back: String = serde_json::from_str(&json_text(&all)).unwrap();
    assert_eq!(back, all);
    assert_eq!(json_text("a\"\\\n\u{8}\u{c}\r\t\u{1}"), "\"a\\\"\\\\\\n\\b\\f\\r\\t\\u0001\"");
}

#[test]
fn settings_fall_back_to_their_defaults() {
    assert_eq!(bootstrap_path(None), DEFAULT_BOOTSTRAP_PATH);
    assert_eq!(bootstrap_path(Some(" x ")), " x ");
    assert_eq!(writable_root(None), "/var/lib/avocado/container-dev");
    assert_eq!(writable_root(Some("/x")), "/x");
    assert_eq!(loopback_port(None), 15151);
    assert_eq!(loopback_port(Some(" 80 ")), 80);
    assert_eq!(loopback_port(Some("eighty")), 15151);
    assert_eq!(container_name(None), "avocado-dev");
    assert_eq!(container_name(Some(" c ")), "c");
    assert_eq!(container_name(Some("\t")), "avocado-dev");
    assert_eq!(engine_binary(None), "docker");
    assert_eq!(engine_binary(Some("podman")), "podman");
    assert_eq!(owning_service(None), None);
    assert_eq!(owning_service(Some(" ")), None);
    assert_eq!(owning_service(Some(" u ")), Some("u".to_string()));
}

#[test]
fn the_device_id_is_the_configured_one_then_the_host_name_then_unknown() {
    assert_eq!(resolve_device_id(Some(" dev-01\n"), Some("host")), "dev-01");
    assert_eq!(resolve_device_id(Some("  "), Some("host\n")), "host");
    assert_eq!(resolve_device_id(None, Some("host")), "host");
    assert_eq!(resolve_device_id(None, Some(" \n")), "unknown");
    assert_eq!(resolve_device_id(None, None), "unknown");
}

#[test]
fn spans_count_nanoseconds() {
    assert_eq!(Span::from_secs(2).nanos, 2_000_000_000);
    assert_eq!(Span::from_millis(5).nanos, 5_000_000);
    let span = Span { nanos: 3_000_000_007 };
    assert_eq!(span.as_secs(), 3);
    assert_eq!(span.subsec_nanos(), 7);
    assert_eq!(Span::from_secs(u64::MAX).as_secs(), u64::MAX);
}
