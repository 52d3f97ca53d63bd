use speed_reader::rsvp_engine::RSVPEngine;

const SECOND: u128 = 1_000_000_000;
const HOUR: u128 = 3_600 * SECOND;

fn numbered(count: usize) -> String {
    (0..count).map(|i| format!("w{}", i)).collect::<Vec<_>>().join(" ")
}

/// Polls at ever later clock readings, far enough apart for every word to
/// have had its time, and returns the texts handed out.
fn read_on(engine: &mut RSVPEngine, polls: usize, from: u128) -> Vec<String> {
    let mut seen = Vec::new();
    for k in 1..=polls {
        if let Some(word) = engine.update_at(from + k as u128 * HOUR) {
            seen.push(word.text.clone());
        }
    }
    seen
}

#[test]
fn scenario_five_words() {
    let mut engine = RSVPEngine::new("Hello, world. This is RSVP.", 300, 300, 0);
    assert_eq!(engine.word_count(), 5);
    assert_eq!(engine.get_current_index(), 0);
    assert!(!engine.is_finished());
    assert_eq!(engine.get_progress(), (0, 5));
    assert_eq!(engine.get_current_wpm(), 300);

    let seen = read_on(&mut engine, 5, 0);
    assert_eq!(seen, vec!["Hello,", "world.", "This", "is", "RSVP."]);
    assert!(engine.is_finished());
    assert_eq!(engine.get_current_index(), 5);
    assert_eq!(engine.get_progress(), (5, 5));
    assert!(engine.get_current_word().is_none());
    assert!(engine.update_at(100 * HOUR).is_none());
}

#[test]
fn new_engine_times_words_for_the_start_speed() {
    let engine = RSVPEngine::new("Hello, world.", 300, 600, 10);
    let first = engine.get_current_word().unwrap();
    assert_eq!(first.text, "Hello,");
    assert_eq!(first.orp_index, 2);
    assert_eq!(first.display_time, 236_900_000);
    assert!(!engine.is_paused());
    assert_eq!(engine.get_current_wpm(), 300);
    assert_eq!(engine.get_target_wpm(), 600);
}

#[test]
fn empty_text_is_finished_at_once() {
    for text in ["", "   ", "\n\t \r\n"] {
        let mut engine = RSVPEngine::new(text, 300, 400, 10);
        assert_eq!(engine.word_count(), 0);
        assert!(engine.is_finished());
        assert_eq!(engine.get_progress(), (0, 1));
        assert!(engine.get_current_word().is_none());
        assert!(engine.update_at(HOUR).is_none());
        assert!(engine.update().is_none());
        assert_eq!(engine.get_current_index(), 0);
        engine.seek_at(3, 0);
        assert_eq!(engine.get_current_index(), 0);
        engine.seek_at(-3, 0);
        assert_eq!(engine.get_current_index(), 0);
        engine.seek_to_at(9, 0);
        assert_eq!(engine.get_current_index(), 0);
        engine.seek(1);
        engine.seek_to(1);
        assert_eq!(engine.get_current_index(), 0);
        assert!(engine.is_finished());
    }
}

#[test]
fn update_keeps_the_word_until_its_time_is_up() {
    // "is" at 300 words per minute is shown for 182 ms.
    let mut engine = RSVPEngine::new("is it", 300, 300, 0);
    let word = engine.update_at(0).unwrap();
    assert_eq!(word.text, "is");
    assert_eq!(word.display_time, 182_000_000);
    assert_eq!(engine.get_current_index(), 0);

    assert_eq!(engine.update_at(181_999_999).unwrap().text, "is");
    assert_eq!(engine.get_current_index(), 0);

    // At the very end of its time the word is handed out once more and
    // the cursor moves on.
    assert_eq!(engine.update_at(182_000_000).unwrap().text, "is");
    assert_eq!(engine.get_current_index(), 1);

    // The next window opened at 182 ms.
    assert_eq!(engine.update_at(182_000_000 + 181_999_999).unwrap().text, "it");
    assert_eq!(engine.get_current_index(), 1);
    assert_eq!(engine.update_at(2 * 182_000_000).unwrap().text, "it");
    assert_eq!(engine.get_current_index(), 2);
    assert!(engine.is_finished());
}

#[test]
fn update_with_a_clock_that_runs_backwards_counts_no_time() {
    let mut engine = RSVPEngine::new("one two", 300, 300, 0);
    engine.resume_at(10 * SECOND);
    assert_eq!(engine.update_at(SECOND).unwrap().text, "one");
    assert_eq!(engine.get_current_index(), 0);
    assert_eq!(engine.update_at(0).unwrap().text, "one");
    assert_eq!(engine.get_current_index(), 0);
}

#[test]
fn update_times_the_word_for_the_speed_in_force() {
    let mut engine = RSVPEngine::new("is it so", 300, 600, 2);
    // Word 0 at 300: due after 182 ms.
    assert_eq!(engine.update_at(181_999_999).unwrap().text, "is");
    assert_eq!(engine.get_current_index(), 0);
    assert_eq!(engine.get_current_wpm(), 300);
    let t1 = 182_000_000;
    assert_eq!(engine.update_at(t1).unwrap().text, "is");
    assert_eq!(engine.get_current_index(), 1);
    // Word 1 at 450: due after 60e9 * 91 * 100 / (450 * 10_000) = 121_333_333.33
    assert_eq!(engine.update_at(t1 + 121_333_332).unwrap().text, "it");
    assert_eq!(engine.get_current_index(), 1);
    assert_eq!(engine.get_current_wpm(), 450);
    let t2 = t1 + 121_333_333;
    assert_eq!(engine.update_at(t2).unwrap().text, "it");
    assert_eq!(engine.get_current_index(), 2);
    // Word 2 at 600: due after 91 ms.
    assert_eq!(engine.update_at(t2 + 90_999_999).unwrap().text, "so");
    assert_eq!(engine.get_current_index(), 2);
    assert_eq!(engine.get_current_wpm(), 600);
    assert_eq!(engine.update_at(t2 + 91_000_000).unwrap().text, "so");
    assert!(engine.is_finished());
}

#[test]
fn update_leaves_the_stored_times_alone() {
    // Every word keeps the time of the speed it was made for, 300, whatever
    // speed the ramp has reached when it is handed out.
    let mut engine = RSVPEngine::new("is it so", 300, 600, 2);
    for k in 1..=3u128 {
        let word = engine.update_at(k * HOUR).unwrap();
        assert_eq!(word.display_time, 182_000_000);
        assert_eq!(word.orp_index, 0);
    }
    assert_eq!(engine.get_current_wpm(), 600);
    engine.reset_at(4 * HOUR);
    assert_eq!(engine.get_current_word().unwrap().display_time, 182_000_000);
    engine.seek_to_at(2, 4 * HOUR);
    assert_eq!(engine.get_current_word().unwrap().display_time, 182_000_000);
}

#[test]
fn a_poll_that_is_not_due_changes_nothing_but_the_speed() {
    let mut engine = RSVPEngine::new("a b c", 300, 400, 10);
    engine.seek_to_at(1, 50);
    assert_eq!(engine.get_current_word().unwrap().display_time, 176_000_000);
    engine.adjust_speed(0);
    assert_eq!(engine.get_current_wpm(), 400);
    // A poll at the reading at which the window opened is not due.
    let word = engine.update_at(50).unwrap();
    assert_eq!(word.text, "b");
    assert_eq!(word.orp_index, 0);
    assert_eq!(word.display_time, 176_000_000);
    assert_eq!(engine.get_current_index(), 1);
    assert_eq!(engine.get_current_wpm(), 310);
    assert_eq!(engine.get_target_wpm(), 400);
    assert!(!engine.is_paused());
    assert_eq!(engine.word_count(), 3);
    assert_eq!(engine.get_current_word().unwrap().display_time, 176_000_000);
    // The window still opens at 50: at 310 words per minute the word is due
    // after 60e9 * 88 * 100 / (310 * 10_000) = 170_322_580.6 ns.
    engine.update_at(50 + 170_322_579);
    assert_eq!(engine.get_current_index(), 1);
    engine.update_at(50 + 170_322_580);
    assert_eq!(engine.get_current_index(), 2);
}

#[test]
fn ramp_completion() {
    let mut engine = RSVPEngine::new(&numbered(12), 300, 400, 10);
    assert_eq!(engine.get_current_wpm(), 300);
    for index in 0..12usize {
        assert_eq!(engine.get_current_index(), index);
        let word = engine.update_at(index as u128 * HOUR + HOUR).unwrap().text.clone();
        assert_eq!(word, format!("w{}", index));
        let expected = if index < 10 { 300 + 10 * index as u32 } else { 400 };
        assert_eq!(engine.get_current_wpm(), expected, "at word {}", index);
    }
    assert!(engine.is_finished());
    assert_eq!(engine.get_current_wpm(), 400);
}

#[test]
fn ramp_midpoint_is_350() {
    let mut engine = RSVPEngine::new(&numbered(12), 300, 400, 10);
    engine.seek_to_at(5, 0);
    engine.update_at(0);
    assert_eq!(engine.get_current_index(), 5);
    assert_eq!(engine.get_current_wpm(), 350);
    engine.seek_to_at(10, 0);
    engine.update_at(0);
    assert_eq!(engine.get_current_wpm(), 400);
}

#[test]
fn ramp_can_go_down() {
    let mut engine = RSVPEngine::new(&numbered(6), 400, 300, 4);
    let mut speeds = Vec::new();
    for k in 1..=6u128 {
        engine.update_at(k * HOUR);
        speeds.push(engine.get_current_wpm());
    }
    assert_eq!(speeds, vec![400, 375, 350, 325, 300, 300]);
}

#[test]
fn finished_engine_stays_finished() {
    let mut engine = RSVPEngine::new("one two three", 300, 400, 2);
    read_on(&mut engine, 3, 0);
    assert!(engine.is_finished());
    let wpm = engine.get_current_wpm();
    for k in 0..50u128 {
        assert!(engine.update_at(k * HOUR).is_none());
        assert!(engine.update().is_none());
        assert_eq!(engine.get_current_index(), 3);
        assert!(engine.is_finished());
        assert_eq!(engine.get_current_wpm(), wpm);
        assert_eq!(engine.get_progress(), (3, 3));
    }
}

#[test]
fn paused_engine_does_not_move() {
    let mut engine = RSVPEngine::new("one two three", 300, 400, 2);
    engine.pause();
    assert!(engine.is_paused());
    engine.pause();
    assert!(engine.is_paused());
    for k in 0..10u128 {
        assert!(engine.update_at(k * HOUR).is_none());
        assert!(engine.update().is_none());
    }
    assert_eq!(engine.get_current_index(), 0);
    assert_eq!(engine.get_current_wpm(), 300);
    assert_eq!(engine.get_current_word().unwrap().text, "one");
}

#[test]
fn resumed_word_gets_a_fresh_window() {
    let mut engine = RSVPEngine::new("one two three", 300, 300, 0);
    engine.update_at(0);
    engine.pause();
    // A long break, far beyond the word's time on screen.
    engine.resume_at(5 * HOUR);
    assert!(!engine.is_paused());
    assert_eq!(engine.update_at(5 * HOUR).unwrap().text, "one");
    assert_eq!(engine.get_current_index(), 0);
    // 188 ms for a word of three letters; one nanosecond short of it.
    assert_eq!(engine.update_at(5 * HOUR + 187_999_999).unwrap().text, "one");
    assert_eq!(engine.get_current_index(), 0);
    engine.update_at(5 * HOUR + 188_000_000);
    assert_eq!(engine.get_current_index(), 1);
}

#[test]
fn resume_then_update_on_the_real_clock_does_not_advance() {
    // At one word per minute a word stays for most of a minute.
    let mut engine = RSVPEngine::new("one two three", 1, 1, 0);
    engine.pause();
    engine.resume();
    assert_eq!(engine.update().unwrap().text, "one");
    assert_eq!(engine.get_current_index(), 0);
}

#[test]
fn unpaused_without_resume_the_word_has_expired() {
    // Without the fresh window of a resumption the time of the break counts.
    let mut engine = RSVPEngine::new("one two", 300, 300, 0);
    engine.update_at(0);
    engine.update_at(5 * HOUR);
    assert_eq!(engine.get_current_index(), 1);
}

#[test]
fn toggle_pause_flips() {
    let mut engine = RSVPEngine::new("one two", 300, 300, 0);
    engine.toggle_pause_at(7);
    assert!(engine.is_paused());
    engine.toggle_pause_at(HOUR);
    assert!(!engine.is_paused());
    // The resumption opened a window at one hour.
    engine.update_at(HOUR + 1);
    assert_eq!(engine.get_current_index(), 0);
    engine.toggle_pause();
    assert!(engine.is_paused());
    engine.toggle_pause();
    assert!(!engine.is_paused());
}

#[test]
fn reset_goes_back_to_the_start() {
    let mut engine = RSVPEngine::new(&numbered(8), 300, 400, 4);
    read_on(&mut engine, 6, 0);
    assert_eq!(engine.get_current_index(), 6);
    assert_eq!(engine.get_current_wpm(), 400);
    engine.reset_at(10 * HOUR);
    assert_eq!(engine.get_current_index(), 0);
    assert_eq!(engine.get_current_wpm(), 300);
    assert_eq!(engine.get_target_wpm(), 400);
    assert_eq!(engine.word_count(), 8);
    // The first word has a fresh window.
    assert_eq!(engine.update_at(10 * HOUR).unwrap().text, "w0");
    assert_eq!(engine.get_current_index(), 0);
}

#[test]
fn reset_brings_a_finished_engine_back() {
    let mut engine = RSVPEngine::new("one two", 300, 300, 0);
    read_on(&mut engine, 2, 0);
    assert!(engine.is_finished());
    engine.reset();
    assert!(!engine.is_finished());
    assert_eq!(engine.get_current_word().unwrap().text, "one");
}

#[test]
fn reset_keeps_a_pause() {
    let mut engine = RSVPEngine::new("one two", 300, 300, 0);
    engine.pause();
    engine.reset_at(0);
    assert!(engine.is_paused());
}

#[test]
fn adjust_speed_sets_target_and_current() {
    let mut engine = RSVPEngine::new(&numbered(20), 300, 400, 10);
    engine.adjust_speed(25);
    assert_eq!(engine.get_target_wpm(), 425);
    assert_eq!(engine.get_current_wpm(), 425);
    engine.adjust_speed(-50);
    assert_eq!(engine.get_target_wpm(), 375);
    assert_eq!(engine.get_current_wpm(), 375);
    engine.adjust_speed(0);
    assert_eq!(engine.get_target_wpm(), 375);
}

#[test]
fn adjust_speed_is_clamped() {
    let deltas = [i32::MIN, -1_000_000, -1201, -301, -300, -299, 0, 799, 800, 801, 1_000_000, i32::MAX];
    for delta in deltas {
        let mut engine = RSVPEngine::new("one two", 300, 400, 10);
        engine.adjust_speed(delta);
        let expected = (400i64 + delta as i64).clamp(100, 1200) as u32;
        assert_eq!(engine.get_target_wpm(), expected, "delta {}", delta);
        assert_eq!(engine.get_current_wpm(), expected, "delta {}", delta);
        assert!((100..=1200).contains(&engine.get_target_wpm()));
    }
}

#[test]
fn adjust_speed_from_outside_the_bounds() {
    let mut slow = RSVPEngine::new("one two", 20, 50, 0);
    slow.adjust_speed(10);
    assert_eq!(slow.get_target_wpm(), 100);
    let mut fast = RSVPEngine::new("one two", u32::MAX, u32::MAX, 0);
    fast.adjust_speed(i32::MAX);
    assert_eq!(fast.get_target_wpm(), 1200);
    fast.adjust_speed(i32::MIN);
    assert_eq!(fast.get_current_wpm(), 100);
}

#[test]
fn adjusted_speed_lasts_until_the_ramp_takes_over() {
    let mut engine = RSVPEngine::new(&numbered(20), 300, 400, 10);
    engine.adjust_speed(100);
    assert_eq!(engine.get_current_wpm(), 500);
    // The next poll puts the speed back on the ramp, which now ends at 500.
    engine.update_at(0);
    assert_eq!(engine.get_current_wpm(), 300);
    engine.seek_to_at(5, 0);
    engine.update_at(0);
    assert_eq!(engine.get_current_wpm(), 400);
}

#[test]
fn seek_moves_and_clamps() {
    let mut engine = RSVPEngine::new(&numbered(5), 300, 300, 0);
    engine.seek_at(2, 0);
    assert_eq!(engine.get_current_index(), 2);
    engine.seek_at(-1, 0);
    assert_eq!(engine.get_current_index(), 1);
    engine.seek_at(-5, 0);
    assert_eq!(engine.get_current_index(), 0);
    engine.seek_at(4, 0);
    assert_eq!(engine.get_current_index(), 4);
    engine.seek_at(1, 0);
    assert_eq!(engine.get_current_index(), 4);
    engine.seek_at(i32::MAX, 0);
    assert_eq!(engine.get_current_index(), 4);
    engine.seek_at(i32::MIN, 0);
    assert_eq!(engine.get_current_index(), 0);
    engine.seek(3);
    assert_eq!(engine.get_current_index(), 3);
    engine.seek(-9);
    assert_eq!(engine.get_current_index(), 0);
}

#[test]
fn seek_never_leaves_the_words() {
    for count in [1usize, 2, 7] {
        for from in 0..count {
            for delta in [i32::MIN, -8, -1, 0, 1, 8, i32::MAX] {
                let mut engine = RSVPEngine::new(&numbered(count), 300, 300, 0);
                engine.seek_to_at(from, 0);
                engine.seek_at(delta, 0);
                let expected = (from as i64 + delta as i64).clamp(0, count as i64 - 1) as usize;
                assert_eq!(engine.get_current_index(), expected);
            }
        }
    }
}

#[test]
fn seek_from_the_end_lands_on_the_last_word() {
    let mut engine = RSVPEngine::new("one two three", 300, 300, 0);
    read_on(&mut engine, 3, 0);
    assert!(engine.is_finished());
    engine.seek_at(0, 0);
    assert_eq!(engine.get_current_index(), 2);
    assert!(!engine.is_finished());
}

#[test]
fn seek_opens_a_fresh_window() {
    let mut engine = RSVPEngine::new("one two three", 300, 300, 0);
    engine.seek_at(1, 9 * HOUR);
    assert_eq!(engine.update_at(9 * HOUR + 1).unwrap().text, "two");
    assert_eq!(engine.get_current_index(), 1);
    engine.seek_to_at(2, 20 * HOUR);
    assert_eq!(engine.update_at(20 * HOUR + 1).unwrap().text, "three");
    assert_eq!(engine.get_current_index(), 2);
}

#[test]
fn seek_to_clamps() {
    let mut engine = RSVPEngine::new(&numbered(5), 300, 300, 0);
    engine.seek_to_at(3, 0);
    assert_eq!(engine.get_current_index(), 3);
    engine.seek_to_at(4, 0);
    assert_eq!(engine.get_current_index(), 4);
    engine.seek_to_at(5, 0);
    assert_eq!(engine.get_current_index(), 4);
    engine.seek_to_at(usize::MAX, 0);
    assert_eq!(engine.get_current_index(), 4);
    engine.seek_to_at(0, 0);
    assert_eq!(engine.get_current_index(), 0);
    engine.seek_to(2);
    assert_eq!(engine.get_current_index(), 2);
}

#[test]
fn progress_is_index_over_count() {
    let mut engine = RSVPEngine::new(&numbered(4), 300, 300, 0);
    for k in 0..=4usize {
        let (num, den) = engine.get_progress();
        assert_eq!((num, den), (k, 4));
        assert!(num <= den);
        assert_eq!(num as f64 / den as f64, k as f64 / 4.0);
        engine.update_at(k as u128 * HOUR + HOUR);
    }
    let (num, den) = engine.get_progress();
    assert_eq!(num as f64 / den as f64, 1.0);
}

#[test]
fn progress_of_no_words_is_zero() {
    let engine = RSVPEngine::new("", 300, 300, 0);
    let (num, den) = engine.get_progress();
    assert_eq!(num as f64 / den as f64, 0.0);
}

#[test]
fn current_word_follows_the_cursor() {
    let mut engine = RSVPEngine::new("Hello, world.", 300, 300, 0);
    assert_eq!(engine.get_current_word().unwrap().text, "Hello,");
    engine.seek_at(1, 0);
    assert_eq!(engine.get_current_word().unwrap().text, "world.");
    engine.update_at(HOUR);
    assert!(engine.get_current_word().is_none());
}

#[test]
fn update_leaves_texts_and_order_alone() {
    let text = "The engine never reorders, drops or rewrites its words.";
    let mut engine = RSVPEngine::new(text, 250, 700, 4);
    let seen = read_on(&mut engine, 20, 0);
    let expected: Vec<String> = text.split_whitespace().map(|w| w.to_string()).collect();
    assert_eq!(seen, expected);
    assert_eq!(engine.word_count(), expected.len());
}

#[test]
fn the_clock_of_an_engine_does_not_run_backwards() {
    let engine = RSVPEngine::new("one", 300, 300, 0);
    let first = engine.now();
    let second = engine.now();
    assert!(second >= first);
}

#[test]
fn polling_on_the_real_clock_shows_the_first_word() {
    let mut engine = RSVPEngine::new("one two", 1, 1, 0);
    assert_eq!(engine.update().unwrap().text, "one");
    assert_eq!(engine.get_current_index(), 0);
}
