//! One reader at one window: which text is being read, what the keys of a
//! frame ask for, and what each frame has to show.
//!
//! The host owns the window, the clipboard and the hotkey. Once per frame
//! it tells the session whether the window has the focus and which keys were
//! pressed, and gets back what to do with the window and what to draw.

use vstd::prelude::*;
use crate::config::SpeedConfig;
use crate::pacing::clamp;
use crate::rsvp_engine::{nanos_between, EngineState, RSVPEngine};

verus! {

/// Words per minute that one press of an arrow key adds or takes away.
pub const SPEED_STEP: i32 = 25;

/// Nanoseconds for which the progress bar stays up after the cursor was moved.
pub const BAR_NANOS: u128 = 1_000_000_000;

/// A key that the reader reacts to.
#[derive(Clone, Copy, Debug, PartialEq, Eq, Structural)]
pub enum Key {
    /// Pauses and resumes.
    Space,
    /// Ends the session.
    Escape,
    /// Starts the text over.
    R,
    /// Reads faster.
    ArrowUp,
    /// Reads slower.
    ArrowDown,
    /// Goes back one word.
    ArrowLeft,
    /// Goes on one word.
    ArrowRight,
}

/// What the keys pressed during one frame ask for, taken together.
#[derive(Clone, Copy, Debug)]
pub struct Controls {
    /// Pause or resume.
    pub toggle_pause: bool,
    /// End the session.
    pub stop: bool,
    /// Start the text over.
    pub restart: bool,
    /// Change of speed, in words per minute.
    pub speed_delta: i32,
    /// Number of words to move the cursor by.
    pub seek_delta: i32,
}

/// `value` held to the range of `i32`.
pub open spec fn saturated(value: int) -> int {
    clamp(value, i32::MIN as int, i32::MAX as int)
}

impl Controls {
    /// What these controls ask for once `key` has been pressed as well.
    /// Sums stop at the ends of the range of `i32`.
    pub open spec fn pressed(self, key: Key) -> Controls {
        match key {
            Key::Space => Controls { toggle_pause: true, ..self },
            Key::Escape => Controls { stop: true, ..self },
            Key::R => Controls { restart: true, ..self },
            Key::ArrowUp => Controls {
                speed_delta: saturated(self.speed_delta + SPEED_STEP) as i32,
                ..self
            },
            Key::ArrowDown => Controls {
                speed_delta: saturated(self.speed_delta - SPEED_STEP) as i32,
                ..self
            },
            Key::ArrowLeft => Controls { seek_delta: saturated(self.seek_delta - 1) as i32, ..self },
            Key::ArrowRight => Controls {
                seek_delta: saturated(self.seek_delta + 1) as i32,
                ..self
            },
        }
    }

    /// What no key at all asks for.
    pub open spec fn none() -> Controls {
        Controls { toggle_pause: false, stop: false, restart: false, speed_delta: 0, seek_delta: 0 }
    }

    /// The controls of a frame in which no key has been pressed yet.
    pub fn new() -> (controls: Controls)
        ensures
            controls == Controls::none(),
    {
        Controls { toggle_pause: false, stop: false, restart: false, speed_delta: 0, seek_delta: 0 }
    }

    /// Takes note of one key press.
    pub fn press(&mut self, key: Key)
        ensures
            *final(self) == old(self).pressed(key),
    {
        match key {
            Key::Space => {
                self.toggle_pause = true;
            },
            Key::Escape => {
                self.stop = true;
            },
            Key::R => {
                self.restart = true;
            },
            Key::ArrowUp => {
                self.speed_delta = step(self.speed_delta, SPEED_STEP);
            },
            Key::ArrowDown => {
                self.speed_delta = step(self.speed_delta, -SPEED_STEP);
            },
            Key::ArrowLeft => {
                self.seek_delta = step(self.seek_delta, -1);
            },
            Key::ArrowRight => {
                self.seek_delta = step(self.seek_delta, 1);
            },
        }
    }
}

/// `sum + by`, stopped at the ends of the range of `i32`.
fn step(sum: i32, by: i32) -> (next: i32)
    ensures
        next == saturated(sum + by),
{
    let exact: i64 = sum as i64 + by as i64;
    if exact < i32::MIN as i64 {
        i32::MIN
    } else if exact > i32::MAX as i64 {
        i32::MAX
    } else {
        exact as i32
    }
}

/// What the host does with a frame.
#[derive(Debug)]
pub enum Frame {
    /// Nothing is being read. The window is to be hidden if `hide` is set,
    /// and the next frame is due in a tenth of a second.
    Idle {
        /// Whether the window is still up and has to go.
        hide: bool,
    },
    /// The session ended in this frame, by the Escape key or with the last
    /// word. Nothing is drawn.
    Ended {
        /// Whether the window had to be put up before the session ended.
        show: bool,
        /// The target speed to store in the settings, if it was changed.
        save_speed: Option<u32>,
    },
    /// A word is on screen, and the next frame is due at once.
    Draw {
        /// Whether the window has to be put up, centred and focused.
        show: bool,
        /// The target speed to store in the settings, if it was changed.
        save_speed: Option<u32>,
        /// The word to draw, in its three parts; none before the first word.
        word: Option<(String, char, String)>,
        /// How far the reading has come: numerator and denominator.
        progress: (usize, usize),
        /// The reading speed in force.
        wpm: u32,
        /// Whether the progress bar is drawn.
        show_bar: bool,
    },
}

/// A frame as the contracts see it.
pub enum FrameView {
    /// Nothing is being read.
    Idle { hide: bool },
    /// The session ended in this frame.
    Ended { show: bool, save_speed: Option<u32> },
    /// A word is on screen.
    Draw {
        show: bool,
        save_speed: Option<u32>,
        word: Option<(Seq<char>, char, Seq<char>)>,
        progress: (nat, nat),
        wpm: nat,
        show_bar: bool,
    },
}

/// The parts of a word as the contracts see them.
pub open spec fn parts_view(parts: Option<(String, char, String)>) -> Option<
    (Seq<char>, char, Seq<char>),
> {
    match parts {
        Some(p) => Some((p.0@, p.1, p.2@)),
        None => None,
    }
}

impl View for Frame {
    type V = FrameView;

    open spec fn view(&self) -> FrameView {
        match *self {
            Frame::Idle { hide } => FrameView::Idle { hide },
            Frame::Ended { show, save_speed } => FrameView::Ended { show, save_speed },
            Frame::Draw { show, save_speed, word, progress, wpm, show_bar } => FrameView::Draw {
                show,
                save_speed,
                word: parts_view(word),
                progress: (progress.0 as nat, progress.1 as nat),
                wpm: wpm as nat,
                show_bar,
            },
        }
    }
}

/// A session as the contracts see it.
pub struct SessionState {
    /// The engine of the text being read; none while nothing is read.
    pub engine: Option<EngineState>,
    /// The speed ramp for the next text.
    pub speed: SpeedConfig,
    /// Whether the reader has paused.
    pub paused: bool,
    /// Whether the window has had the focus since the text was started.
    pub had_focus: bool,
    /// Whether the window is up.
    pub window_visible: bool,
    /// The parts of the word drawn last.
    pub last_word: Option<(Seq<char>, char, Seq<char>)>,
    /// The clock reading at which the cursor was last moved by hand, while
    /// the progress bar is up on that account.
    pub bar_shown_at: Option<nat>,
    /// The text read last.
    pub last_text: Option<Seq<char>>,
    /// The position at which the last reading of that text stopped.
    pub last_position: nat,
}

impl SessionState {
    /// What holds of every session: its engine, if it has one, is valid,
    /// and an engine can be made with its speed settings.
    pub open spec fn valid(self) -> bool {
        &&& self.speed.usable()
        &&& self.engine matches Some(engine) ==> engine.valid()
        &&& self.last_position <= usize::MAX
        &&& self.bar_shown_at matches Some(at) ==> at <= u128::MAX
    }

    /// The session of a host that has just come up: nothing is read, and
    /// the window counts as visible until the first frame hides it.
    pub open spec fn initial(speed: SpeedConfig) -> SessionState {
        SessionState {
            engine: None,
            speed,
            paused: false,
            had_focus: false,
            window_visible: true,
            last_word: None,
            bar_shown_at: None,
            last_text: None,
            last_position: 0,
        }
    }

    /// Whether a text is being read.
    pub open spec fn reading(self) -> bool {
        self.engine.is_some()
    }

    /// Whether `text` is taken up where its last reading stopped: it is the
    /// text read last, and that reading had left the first word.
    pub open spec fn resumes(self, text: Seq<char>) -> bool {
        self.last_text == Some(text) && self.last_position > 0
    }

    /// The session once `text` has come in to be read, with `now` the
    /// reading of the new engine's clock. An empty text changes nothing. Any
    /// other text gets a new engine in place of the old one; a text that is
    /// taken up again starts at the remembered position, any other at its
    /// first word, and is remembered in its turn.
    pub open spec fn started(self, text: Seq<char>, now: nat) -> SessionState {
        if text.len() == 0 {
            self
        } else {
            let fresh = EngineState::initial(
                text,
                self.speed.start_wpm as nat,
                self.speed.target_wpm as nat,
                self.speed.warmup_words as nat,
            );
            if self.resumes(text) {
                SessionState {
                    engine: Some(fresh.moved_to(self.last_position as int, now)),
                    had_focus: false,
                    ..self
                }
            } else {
                SessionState {
                    engine: Some(fresh),
                    had_focus: false,
                    last_text: Some(text),
                    last_position: 0,
                    ..self
                }
            }
        }
    }

    /// The session with its reading ended: the engine is gone, and the
    /// position of its cursor is remembered.
    pub open spec fn stopped(self) -> SessionState {
        SessionState {
            engine: None,
            paused: false,
            last_word: None,
            bar_shown_at: None,
            last_position: match self.engine {
                Some(engine) => engine.current_index,
                None => self.last_position,
            },
            ..self
        }
    }

    /// The session once it has learnt whether the window has the focus. A
    /// reading ends when the window loses the focus that it once had.
    pub open spec fn focused(self, has_focus: bool) -> SessionState {
        let seen = SessionState { had_focus: self.had_focus || has_focus, ..self };
        if seen.reading() && seen.had_focus && !has_focus {
            seen.stopped()
        } else {
            seen
        }
    }

    /// Whether the progress bar is up at `now`: during a pause, and for
    /// `BAR_NANOS` after the cursor was moved by hand.
    pub open spec fn bar_visible(self, now: nat) -> bool {
        self.paused || match self.bar_shown_at {
            Some(at) => nanos_between(at, now) < BAR_NANOS,
            None => false,
        }
    }

    /// A reading session after the arrow keys of a frame moved the cursor
    /// by `delta` words: the word that the cursor lands on is drawn, and the
    /// progress bar goes up.
    pub open spec fn sought(self, delta: int, now: nat) -> SessionState
        recommends
            self.reading(),
    {
        if delta == 0 {
            self
        } else {
            let engine = self.engine.unwrap().moved_by(delta, now);
            SessionState {
                engine: Some(engine),
                last_word: if engine.finished() {
                    self.last_word
                } else {
                    Some(engine.words[engine.current_index as int].parts())
                },
                bar_shown_at: Some(now),
                ..self
            }
        }
    }

    /// A reading session after the arrow keys of a frame changed the speed
    /// by `delta`: the new target speed goes into the settings.
    pub open spec fn sped(self, delta: int) -> SessionState
        recommends
            self.reading(),
    {
        if delta == 0 {
            self
        } else {
            let engine = self.engine.unwrap().with_speed_changed(delta);
            SessionState {
                engine: Some(engine),
                speed: SpeedConfig { target_wpm: engine.target_wpm as u32, ..self.speed },
                ..self
            }
        }
    }

    /// A reading session after its engine was polled at `now`: the word
    /// that the poll hands out, if any, is the word drawn.
    pub open spec fn polled(self, now: nat) -> SessionState
        recommends
            self.reading(),
    {
        let engine = self.engine.unwrap();
        SessionState {
            engine: Some(engine.updated(now)),
            last_word: match engine.shown() {
                Some(word) => Some(word.parts()),
                None => self.last_word,
            },
            ..self
        }
    }

    /// A reading session after the R key, if `restart` is set: the text
    /// starts over and nothing is remembered of the word drawn last.
    pub open spec fn restarted(self, restart: bool, now: nat) -> SessionState
        recommends
            self.reading(),
    {
        if restart {
            SessionState {
                engine: Some(self.engine.unwrap().restarted(now)),
                last_position: 0,
                last_word: None,
                ..self
            }
        } else {
            self
        }
    }

    /// A reading session after the space bar, if `toggle` is set: a pause
    /// begins or ends. When it ends the progress bar goes down.
    pub open spec fn toggled(self, toggle: bool, now: nat) -> SessionState
        recommends
            self.reading(),
    {
        if !toggle {
            self
        } else if self.paused {
            SessionState {
                engine: Some(self.engine.unwrap().resumed(now)),
                paused: false,
                bar_shown_at: None,
                ..self
            }
        } else {
            SessionState { engine: Some(self.engine.unwrap().paused()), paused: true, ..self }
        }
    }

    /// The target speed to store after the keys `keys`: the new one, if the
    /// speed was changed.
    pub open spec fn speed_to_save(self, keys: Controls) -> Option<u32>
        recommends
            self.reading(),
    {
        if keys.speed_delta == 0 {
            None
        } else {
            Some(self.sped(keys.speed_delta as int).speed.target_wpm)
        }
    }

    /// The session after one frame in which the window has the focus or
    /// not, the keys `keys` were pressed and the engine's clock reads `now`.
    ///
    /// The focus is looked at first. If then nothing is read, the window
    /// goes down. Otherwise the window goes up, the cursor and the speed
    /// follow the arrow keys, and a reading that has shown its last word
    /// ends. One that goes on polls its engine, then ends on Escape, or else
    /// starts over on R and pauses or resumes on the space bar.
    pub open spec fn framed(self, has_focus: bool, keys: Controls, now: nat) -> SessionState {
        let seen = self.focused(has_focus);
        if !seen.reading() {
            SessionState { window_visible: false, ..seen }
        } else {
            let up = SessionState { window_visible: true, ..seen };
            let moved = up.sought(keys.seek_delta as int, now).sped(keys.speed_delta as int);
            if moved.engine.unwrap().finished() {
                moved.stopped()
            } else if keys.stop {
                moved.polled(now).stopped()
            } else {
                moved.polled(now).restarted(keys.restart, now).toggled(keys.toggle_pause, now)
            }
        }
    }

    /// What the host gets back from that frame.
    pub open spec fn frame_shown(self, has_focus: bool, keys: Controls, now: nat) -> FrameView {
        let seen = self.focused(has_focus);
        if !seen.reading() {
            FrameView::Idle { hide: seen.window_visible }
        } else {
            let show = !seen.window_visible;
            let moved = seen.sought(keys.seek_delta as int, now).sped(keys.speed_delta as int);
            let save_speed = seen.sought(keys.seek_delta as int, now).speed_to_save(keys);
            if moved.engine.unwrap().finished() || keys.stop {
                FrameView::Ended { show, save_speed }
            } else {
                let polled = moved.polled(now);
                let engine = polled.engine.unwrap();
                FrameView::Draw {
                    show,
                    save_speed,
                    word: polled.last_word,
                    progress: (engine.current_index, engine.words.len()),
                    wpm: engine.current_wpm,
                    show_bar: self.framed(has_focus, keys, now).bar_visible(now),
                }
            }
        }
    }
}

/// A reading session: the engine of the text being read, if any, and what
/// the host remembers from frame to frame and from text to text.
pub struct ReadingSession {
    engine: Option<RSVPEngine>,
    speed: SpeedConfig,
    paused: bool,
    had_focus: bool,
    window_visible: bool,
    last_word: Option<(String, char, String)>,
    bar_shown_at: Option<u128>,
    last_text: Option<String>,
    last_position: usize,
}

impl View for ReadingSession {
    type V = SessionState;

    closed spec fn view(&self) -> SessionState {
        SessionState {
            engine: match self.engine {
                Some(engine) => Some(engine@),
                None => None,
            },
            speed: self.speed,
            paused: self.paused,
            had_focus: self.had_focus,
            window_visible: self.window_visible,
            last_word: parts_view(self.last_word),
            bar_shown_at: match self.bar_shown_at {
                Some(at) => Some(at as nat),
                None => None,
            },
            last_text: match self.last_text {
                Some(text) => Some(text@),
                None => None,
            },
            last_position: self.last_position as nat,
        }
    }
}

impl ReadingSession {
    /// Whether the session is in a state that its own operations lead to.
    pub open spec fn wf(&self) -> bool {
        self@.valid()
    }

    /// The session of a host that has just come up, with the speed
    /// settings `speed`.
    pub fn new(speed: SpeedConfig) -> (session: ReadingSession)
        requires
            speed.usable(),
        ensures
            session.wf(),
            session@ == SessionState::initial(speed),
    {
        ReadingSession {
            engine: None,
            speed,
            paused: false,
            had_focus: false,
            window_visible: true,
            last_word: None,
            bar_shown_at: None,
            last_text: None,
            last_position: 0,
        }
    }

    /// Whether a text is being read.
    pub fn is_reading(&self) -> (reading: bool)
        ensures
            reading == self@.reading(),
    {
        self.engine.is_some()
    }

    /// Whether the hotkey starts a reading: it does unless one is under way.
    pub fn should_start(&self, triggered: bool) -> (start: bool)
        ensures
            start == (triggered && !self@.reading()),
    {
        triggered && self.engine.is_none()
    }

    /// The speed settings, with the target speed as the keys last left it.
    pub fn speed(&self) -> (speed: &SpeedConfig)
        ensures
            *speed == self@.speed,
    {
        &self.speed
    }

    /// The position at which the last reading stopped.
    pub fn last_position(&self) -> (position: usize)
        ensures
            position == self@.last_position,
    {
        self.last_position
    }

    /// Takes in the text that the host has got hold of, and begins to read
    /// it unless it is empty.
    pub fn start_reading(&mut self, text: String)
        requires
            old(self).wf(),
        ensures
            final(self).wf(),
            exists|now: nat| final(self)@ == old(self)@.started(text@, now),
    {
        if text.as_str().is_empty() {
            assert(self@ == old(self)@.started(text@, 0));
            return ;
        }
        let mut engine = RSVPEngine::new(
            text.as_str(),
            self.speed.start_wpm,
            self.speed.target_wpm,
            self.speed.warmup_words,
        );
        let same = match &self.last_text {
            Some(last) => *last == text,
            None => false,
        };
        if same && self.last_position > 0 {
            let now = engine.now();
            engine.seek_to_at(self.last_position, now);
            self.engine = Some(engine);
            self.had_focus = false;
            assert(self@ == old(self)@.started(text@, now as nat));
        } else {
            self.last_text = Some(text);
            self.last_position = 0;
            self.engine = Some(engine);
            self.had_focus = false;
            assert(self@ == old(self)@.started(text@, 0));
        }
    }

    /// Ends the reading, if there is one, and remembers where it stopped.
    pub fn stop_reading(&mut self)
        ensures
            final(self)@ == old(self)@.stopped(),
            old(self).wf() ==> final(self).wf(),
    {
        match &self.engine {
            Some(engine) => {
                self.last_position = engine.get_current_index();
            },
            None => {},
        }
        self.engine = None;
        self.paused = false;
        self.last_word = None;
        self.bar_shown_at = None;
    }

    /// Runs one frame at the present moment, as the engine's clock gives it.
    pub fn frame(&mut self, has_focus: bool, keys: Controls) -> (frame: Frame)
        requires
            old(self).wf(),
        ensures
            final(self).wf(),
            exists|now: nat|
                final(self)@ == old(self)@.framed(has_focus, keys, now) && frame@ == old(
                    self,
                )@.frame_shown(has_focus, keys, now),
    {
        let now = match &self.engine {
            Some(engine) => engine.now(),
            None => 0,
        };
        self.frame_at(has_focus, keys, now)
    }

    /// Runs one frame with the clock reading `now`.
    pub fn frame_at(&mut self, has_focus: bool, keys: Controls, now: u128) -> (frame: Frame)
        requires
            old(self).wf(),
        ensures
            final(self).wf(),
            final(self)@ == old(self)@.framed(has_focus, keys, now as nat),
            frame@ == old(self)@.frame_shown(has_focus, keys, now as nat),
    {
        self.observe_focus(has_focus);
        if self.engine.is_none() {
            let hide = self.window_visible;
            self.window_visible = false;
            return Frame::Idle { hide };
        }
        let show = !self.window_visible;
        self.window_visible = true;
        self.apply_seek(keys.seek_delta, now);
        let save_speed = self.apply_speed(keys.speed_delta);
        if self.reading_is_over() {
            self.stop_reading();
            return Frame::Ended { show, save_speed };
        }
        self.poll(now);
        if keys.stop {
            self.stop_reading();
            return Frame::Ended { show, save_speed };
        }
        let word = copy_of_parts(&self.last_word);
        let (progress, wpm) = self.reading_state();
        self.apply_restart(keys.restart, now);
        self.apply_toggle(keys.toggle_pause, now);
        let show_bar = self.bar_is_visible(now);
        Frame::Draw { show, save_speed, word, progress, wpm, show_bar }
    }

    /// Takes note of the focus, and ends the reading when the window has
    /// lost it.
    fn observe_focus(&mut self, has_focus: bool)
        requires
            old(self).wf(),
        ensures
            final(self).wf(),
            final(self)@ == old(self)@.focused(has_focus),
    {
        if has_focus {
            self.had_focus = true;
        }
        if self.engine.is_some() && self.had_focus && !has_focus {
            self.stop_reading();
        }
    }

    /// Moves the cursor as the arrow keys ask.
    fn apply_seek(&mut self, delta: i32, now: u128)
        requires
            old(self).wf(),
            old(self)@.reading(),
        ensures
            final(self).wf(),
            final(self)@.reading(),
            final(self)@ == old(self)@.sought(delta as int, now as nat),
    {
        if delta != 0 {
            let mut engine = self.engine.take().unwrap();
            engine.seek_at(delta, now);
            match engine.get_current_word() {
                Some(word) => {
                    self.last_word = Some(word.get_parts());
                },
                None => {},
            }
            self.bar_shown_at = Some(now);
            self.engine = Some(engine);
        }
    }

    /// Changes the speed as the arrow keys ask, and gives the target speed
    /// to store if it has changed.
    fn apply_speed(&mut self, delta: i32) -> (save_speed: Option<u32>)
        requires
            old(self).wf(),
            old(self)@.reading(),
        ensures
            final(self).wf(),
            final(self)@.reading(),
            final(self)@ == old(self)@.sped(delta as int),
            save_speed == if delta == 0 {
                None
            } else {
                Some(final(self)@.speed.target_wpm)
            },
    {
        if delta != 0 {
            let mut engine = self.engine.take().unwrap();
            engine.adjust_speed(delta);
            self.speed.target_wpm = engine.get_target_wpm();
            self.engine = Some(engine);
            Some(self.speed.target_wpm)
        } else {
            None
        }
    }

    /// Whether the engine has shown its last word.
    fn reading_is_over(&self) -> (over: bool)
        requires
            self@.reading(),
        ensures
            over == self@.engine.unwrap().finished(),
    {
        match &self.engine {
            Some(engine) => engine.is_finished(),
            None => true,
        }
    }

    /// Polls the engine and keeps the parts of the word that it hands out.
    fn poll(&mut self, now: u128)
        requires
            old(self).wf(),
            old(self)@.reading(),
        ensures
            final(self).wf(),
            final(self)@.reading(),
            final(self)@ == old(self)@.polled(now as nat),
    {
        let mut engine = self.engine.take().unwrap();
        match engine.update_at(now) {
            Some(word) => {
                self.last_word = Some(word.get_parts());
            },
            None => {},
        }
        self.engine = Some(engine);
    }

    /// The progress and the speed of the reading.
    fn reading_state(&self) -> (state: ((usize, usize), u32))
        requires
            self.wf(),
            self@.reading(),
            self@.engine.unwrap().words.len() > 0,
        ensures
            state.0.0 == self@.engine.unwrap().current_index,
            state.0.1 == self@.engine.unwrap().words.len(),
            state.1 == self@.engine.unwrap().current_wpm,
    {
        match &self.engine {
            Some(engine) => (engine.get_progress(), engine.get_current_wpm()),
            None => ((0, 1), 0),
        }
    }

    /// Starts the text over if the R key asks for it.
    fn apply_restart(&mut self, restart: bool, now: u128)
        requires
            old(self).wf(),
            old(self)@.reading(),
        ensures
            final(self).wf(),
            final(self)@.reading(),
            final(self)@ == old(self)@.restarted(restart, now as nat),
    {
        if restart {
            let mut engine = self.engine.take().unwrap();
            engine.reset_at(now);
            self.engine = Some(engine);
            self.last_position = 0;
            self.last_word = None;
        }
    }

    /// Begins or ends a pause if the space bar asks for it.
    fn apply_toggle(&mut self, toggle: bool, now: u128)
        requires
            old(self).wf(),
            old(self)@.reading(),
        ensures
            final(self).wf(),
            final(self)@.reading(),
            final(self)@ == old(self)@.toggled(toggle, now as nat),
    {
        if toggle {
            let mut engine = self.engine.take().unwrap();
            self.paused = !self.paused;
            if self.paused {
                engine.pause();
            } else {
                engine.resume_at(now);
                self.bar_shown_at = None;
            }
            self.engine = Some(engine);
        }
    }

    /// Whether the progress bar is up at `now`.
    fn bar_is_visible(&self, now: u128) -> (visible: bool)
        ensures
            visible == self@.bar_visible(now as nat),
    {
        self.paused || match self.bar_shown_at {
            Some(at) => now < at || now - at < BAR_NANOS,
            None => false,
        }
    }
}

/// A copy of the parts of a word.
fn copy_of_parts(parts: &Option<(String, char, String)>) -> (copy: Option<(String, char, String)>)
    ensures
        parts_view(copy) == parts_view(*parts),
{
    match parts {
        Some(p) => Some((p.0.clone(), p.1, p.2.clone())),
        None => None,
    }
}

/// A text that comes in again is taken up where its reading stopped: if
/// the reading of `text` is ended with the cursor past the first word and
/// `text` is started anew, the cursor is where it was, or on the last word
/// if it was beyond it.
pub proof fn lemma_stopped_text_is_taken_up(state: SessionState, text: Seq<char>, now: nat)
    requires
        state.engine.is_some(),
        state.engine.unwrap().current_index > 0,
        state.last_text == Some(text),
        text.len() > 0,
    ensures
        ({
            let again = state.stopped().started(text, now);
            let engine = again.engine.unwrap();
            &&& again.reading()
            &&& engine.current_index == clamp(
                state.engine.unwrap().current_index as int,
                0,
                engine.last_index() as int,
            )
            &&& engine.last_update == now
            &&& again.last_position == state.engine.unwrap().current_index
        }),
{
}

/// While nothing is read, a frame does nothing but take the window down:
/// no key and no clock reading changes anything else.
pub proof fn lemma_idle_frame_is_idle(state: SessionState, has_focus: bool, keys: Controls, now: nat)
    requires
        !state.reading(),
    ensures
        state.framed(has_focus, keys, now) == (SessionState {
            window_visible: false,
            had_focus: state.had_focus || has_focus,
            ..state
        }),
        state.frame_shown(has_focus, keys, now) == (FrameView::Idle { hide: state.window_visible }),
{
}

} // verus!
