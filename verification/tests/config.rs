use deskvolt::config::{load_tray_hidden, save_tray_hidden, Config, Position};

#[test]
fn defaults_when_file_missing() {
    let c = Config::load(None);
    assert_eq!(c.position, Position { x: -1, y: -1 });
    assert_eq!(c.poll_interval_secs, 2);
    assert!(!c.tray_hidden);
    assert_eq!(Config::default(), c);
}

#[test]
fn readme_example_file() {
    let c = Config::parse("# DeskVolt Configuration\nposition_x=1620\nposition_y=980\npoll_interval=2\n");
    assert_eq!(c.position, Position { x: 1620, y: 980 });
    assert_eq!(c.poll_interval_secs, 2);
    assert!(!c.tray_hidden);
}

#[test]
fn save_writes_every_setting() {
    let c = Config { position: Position { x: -5, y: 30 }, poll_interval_secs: 10, tray_hidden: true };
    assert_eq!(
        c.save(),
        "# DeskVolt Configuration\nposition_x=-5\nposition_y=30\npoll_interval=10\ntray_hidden=true\n"
    );
}

#[test]
fn saved_config_loads_back() {
    for c in [
        Config { position: Position { x: i32::MIN, y: i32::MAX }, poll_interval_secs: u64::MAX, tray_hidden: true },
        Config { position: Position { x: 0, y: -1 }, poll_interval_secs: 0, tray_hidden: false },
        Config::default(),
    ] {
        assert_eq!(Config::parse(&c.save()), c);
    }
}

#[test]
fn whitespace_comments_and_crlf() {
    let c = Config::parse("  ; comment\r\n# position_x=5\r\n\tposition_x = 12 \r\n position_y=\u{a0}-7\u{3000}\r\ntray_hidden = 1\r\nunknown=3\n\n");
    assert_eq!(c.position, Position { x: 12, y: -7 });
    assert!(c.tray_hidden);
    assert_eq!(c.poll_interval_secs, 2);
}

#[test]
fn later_lines_override_earlier_ones() {
    let c = Config::parse("poll_interval=5\npoll_interval=30\ntray_hidden=true\ntray_hidden=yes\n");
    assert_eq!(c.poll_interval_secs, 30);
    assert!(!c.tray_hidden);
}

#[test]
fn bad_numbers_are_ignored() {
    let c = Config::parse("position_x=12a\nposition_y=2147483648\npoll_interval=-1\n");
    assert_eq!(c, Config::default());
    let c = Config::parse("position_x=+42\nposition_y=-2147483648\npoll_interval=+7\n");
    assert_eq!(c.position, Position { x: 42, y: i32::MIN });
    assert_eq!(c.poll_interval_secs, 7);
    let c = Config::parse("position_x=+\nposition_y=-\npoll_interval=18446744073709551616\n");
    assert_eq!(c, Config::default());
}

#[test]
fn value_keeps_text_after_first_equals() {
    let c = Config::parse("tray_hidden==true\nposition_x=1=2\n");
    assert!(!c.tray_hidden);
    assert_eq!(c.position.x, -1);
}

#[test]
fn line_without_equals_is_ignored() {
    let c = Config::parse("position_x 5\npoll_interval\n");
    assert_eq!(c, Config::default());
}

#[test]
fn tray_hidden_roundtrip() {
    let original = "position_x=100\nposition_y=200\npoll_interval=30\n";
    let saved = save_tray_hidden(Some(original), true);
    assert!(load_tray_hidden(Some(&saved)));
    let reloaded = Config::parse(&saved);
    assert_eq!(reloaded.position, Position { x: 100, y: 200 });
    assert_eq!(reloaded.poll_interval_secs, 30);
    let saved = save_tray_hidden(Some(&saved), false);
    assert!(!load_tray_hidden(Some(&saved)));
    assert!(!load_tray_hidden(None));
    assert_eq!(
        save_tray_hidden(None, true),
        "# DeskVolt Configuration\nposition_x=-1\nposition_y=-1\npoll_interval=2\ntray_hidden=true\n"
    );
}
