//! The settings that a host keeps for the engine and for its own keys.

use vstd::prelude::*;

verus! {

/// The speed ramp of a reading session.
#[derive(Debug, Clone)]
pub struct SpeedConfig {
    /// Words per minute at the first word.
    pub start_wpm: u32,
    /// Words per minute once the ramp is over.
    pub target_wpm: u32,
    /// Number of words over which the speed goes from the one to the other.
    pub warmup_words: u32,
}

/// The key chords of the host, each one a list of key names.
#[derive(Debug, Clone)]
pub struct HotkeyConfig {
    /// Starts a reading session.
    pub start_reading: Vec<String>,
    /// Pauses the session and takes it up again.
    pub pause_resume: Vec<String>,
    /// Raises the speed.
    pub speed_up: Vec<String>,
    /// Lowers the speed.
    pub speed_down: Vec<String>,
    /// Ends the session.
    pub quit: Vec<String>,
}

/// The key names of `chord`, in order.
pub open spec fn key_names(chord: Seq<String>) -> Seq<Seq<char>> {
    Seq::new(chord.len(), |i: int| chord[i]@)
}

impl SpeedConfig {
    /// Whether an engine can be made with these settings: both speeds are
    /// positive.
    pub open spec fn usable(&self) -> bool {
        self.start_wpm > 0 && self.target_wpm > 0
    }

    /// Tells whether an engine can be made with these settings.
    pub fn is_usable(&self) -> (usable: bool)
        ensures
            usable == self.usable(),
    {
        self.start_wpm > 0 && self.target_wpm > 0
    }
}

impl Default for SpeedConfig {
    /// From 300 to 400 words per minute over the first ten words.
    fn default() -> (config: SpeedConfig)
        ensures
            config.start_wpm == 300,
            config.target_wpm == 400,
            config.warmup_words == 10,
            config.usable(),
    {
        SpeedConfig { start_wpm: 300, target_wpm: 400, warmup_words: 10 }
    }
}

impl Default for HotkeyConfig {
    /// Cmd+Shift+R starts a session, the space bar pauses it, the up and
    /// down arrows change the speed, and Escape ends it.
    fn default() -> (config: HotkeyConfig)
        ensures
            key_names(config.start_reading@) == seq!["cmd"@, "shift"@, "r"@],
            key_names(config.pause_resume@) == seq!["space"@],
            key_names(config.speed_up@) == seq!["up"@],
            key_names(config.speed_down@) == seq!["down"@],
            key_names(config.quit@) == seq!["escape"@],
    {
        let mut start_reading: Vec<String> = Vec::new();
        start_reading.push("cmd".to_owned());
        start_reading.push("shift".to_owned());
        start_reading.push("r".to_owned());
        let pause_resume = single_key("space");
        let speed_up = single_key("up");
        let speed_down = single_key("down");
        let quit = single_key("escape");
        assert(key_names(start_reading@) =~= seq!["cmd"@, "shift"@, "r"@]);
        HotkeyConfig { start_reading, pause_resume, speed_up, speed_down, quit }
    }
}

/// The chord that is the one key `name`.
fn single_key(name: &str) -> (chord: Vec<String>)
    ensures
        key_names(chord@) == seq![name@],
{
    let mut chord: Vec<String> = Vec::new();
    chord.push(name.to_owned());
    assert(key_names(chord@) =~= seq![name@]);
    chord
}

} // verus!
