use speed_reader::config::{HotkeyConfig, SpeedConfig};

#[test]
fn default_speed() {
    let speed = SpeedConfig::default();
    assert_eq!(speed.start_wpm, 300);
    assert_eq!(speed.target_wpm, 400);
    assert_eq!(speed.warmup_words, 10);
    assert!(speed.is_usable());
}

#[test]
fn default_hotkeys() {
    let keys = HotkeyConfig::default();
    assert_eq!(keys.start_reading, vec!["cmd", "shift", "r"]);
    assert_eq!(keys.pause_resume, vec!["space"]);
    assert_eq!(keys.speed_up, vec!["up"]);
    assert_eq!(keys.speed_down, vec!["down"]);
    assert_eq!(keys.quit, vec!["escape"]);
}

#[test]
fn a_speed_of_zero_is_not_usable() {
    let no_start = SpeedConfig { start_wpm: 0, target_wpm: 400, warmup_words: 10 };
    assert!(!no_start.is_usable());
    let no_target = SpeedConfig { start_wpm: 300, target_wpm: 0, warmup_words: 10 };
    assert!(!no_target.is_usable());
    let no_warmup = SpeedConfig { start_wpm: 300, target_wpm: 400, warmup_words: 0 };
    assert!(no_warmup.is_usable());
}
