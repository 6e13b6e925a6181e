use vtbox::config::{
    apply_setting, parse_u32, parse_u32_or, proxy_of, setting_dialog_strings, Config, Socks5, UI,
};
use vtbox::dialog::parse_remove_payload;

#[test]
fn test_defaults() {
    let c = Config::default();
    assert_eq!(c.config_path, "");
    assert_eq!(c.db_path, "");
    assert_eq!(c.cache_dir, "");
    let ui = UI::default();
    assert_eq!(ui.font_size, 18);
    assert_eq!(ui.font_family, "SourceHanSerifCN");
    assert_eq!(ui.win_width, 600);
    assert_eq!(ui.win_height, 800);
    assert_eq!(ui.language, "cn");
    let s = Socks5::default();
    assert!(!s.enabled);
    assert_eq!(s.url, "127.0.0.1");
    assert_eq!(s.port, 1080);
}

#[test]
fn test_parse_u32() {
    assert_eq!(parse_u32("0"), Some(0));
    assert_eq!(parse_u32("123"), Some(123));
    assert_eq!(parse_u32("4294967295"), Some(u32::MAX));
    assert_eq!(parse_u32("4294967296"), None);
    assert_eq!(parse_u32(""), None);
    assert_eq!(parse_u32("12a"), None);
    assert_eq!(parse_u32("-1"), None);
    assert_eq!(parse_u32_or("18", 7), 18);
    assert_eq!(parse_u32_or("x", 7), 7);
}

#[test]
fn test_proxy_of() {
    let conf = Socks5 { enabled: true, url: "10.0.0.1".to_string(), port: 9050 };
    assert_eq!(proxy_of(&conf), Some(("10.0.0.1".to_string(), 9050)));
    let off = Socks5 { enabled: false, ..conf };
    assert_eq!(proxy_of(&off), None);
}

#[test]
fn test_apply_setting() {
    let (ui, socks5) = apply_setting(
        "20",
        "Serif",
        "1000",
        "700",
        "en",
        true,
        "10.1.1.1",
        "9050",
    );
    assert_eq!(ui.font_size, 20);
    assert_eq!(ui.font_family, "Serif");
    assert_eq!(ui.win_width, 1000);
    assert_eq!(ui.win_height, 700);
    assert_eq!(ui.language, "en");
    assert!(socks5.enabled);
    assert_eq!(socks5.url, "10.1.1.1");
    assert_eq!(socks5.port, 9050);

    // unparsable fields fall back to their defaults; the window is clamped
    let (ui, socks5) = apply_setting("big", "F", "10", "what", "cn", false, "h", "port");
    assert_eq!(ui.font_size, 18);
    assert_eq!(ui.win_width, 800);
    assert_eq!(ui.win_height, 600);
    assert_eq!(socks5.port, 1080);
}

#[test]
fn test_parse_remove_payload() {
    let (ix, uuid) = parse_remove_payload("0,123e4567-e89b-12d3-a456-426614174000").unwrap();
    assert_eq!(ix, 0);
    assert_eq!(uuid, "123e4567-e89b-12d3-a456-426614174000");
    assert_eq!(parse_remove_payload("1,"), Some((1, "".to_string())));
    assert_eq!(parse_remove_payload("no separator"), None);
    assert_eq!(parse_remove_payload("x,abc"), None);
}

#[test]
fn test_setting_dialog_strings() {
    let ui = UI::default();
    let socks5 = Socks5::default();
    let d = setting_dialog_strings(&ui, &socks5);
    assert_eq!(d.font_size, "18");
    assert_eq!(d.font_family, "SourceHanSerifCN");
    // the default window of 600 by 800 is clamped up to the minimum width
    assert_eq!(d.win_width, "800");
    assert_eq!(d.win_height, "800");
    assert_eq!(d.language, "cn");
    assert!(!d.proxy_enabled);
    assert_eq!(d.proxy_url, "127.0.0.1");
    assert_eq!(d.proxy_port, "1080");
}
