//! Words and the engine that paces them.
//!
//! The engine keeps no thread and no timer: a host polls it, typically
//! once per frame. Time is a clock reading in nanoseconds. The operations
//! that depend on the time come in two forms: one that reads the engine's
//! own clock, which starts at zero when the engine is made, and one whose
//! name ends in `_at`, which takes the reading from the caller. A caller of
//! the second form supplies readings of one clock throughout.

use vstd::prelude::*;
use vstd::string::StrSliceExecFns;
use crate::clock::Clock;
use crate::pacing::{
    calculate_orp_for_len, clamp, display_time, lemma_display_takes_time, lemma_ramp_between,
    orp_for_len, punctuation_factor, punctuation_percent, ramp_speed, ramp_wpm,
    word_display_nanos, MAX_WPM, MIN_WPM,
};
use crate::text::{is_word, lemma_words_are_words, split_words, texts_of, word_shape, words_of};

verus! {

/// One unit of presentation: a word, the offset of the character on which
/// the eye should rest, and the time for which the word is shown.
#[derive(Debug, Clone)]
pub struct Word {
    /// The word as written.
    pub text: String,
    /// Offset, in characters, of the fixation point.
    pub orp_index: usize,
    /// Time on screen, in nanoseconds, at the speed that the word was made
    /// for.
    pub display_time: u128,
}

/// A word as the contracts see it.
pub struct WordView {
    /// The characters of the word.
    pub text: Seq<char>,
    /// Offset of the fixation point.
    pub orp_index: nat,
    /// Time on screen, in nanoseconds.
    pub display_time: nat,
}

impl WordView {
    /// The word that `text` makes at `wpm` words per minute.
    pub open spec fn at_speed(text: Seq<char>, wpm: nat) -> WordView {
        WordView {
            text,
            orp_index: orp_for_len(text.len()),
            display_time: word_display_nanos(text, wpm),
        }
    }

    /// Whether the fixation point falls on a character of the word.
    pub open spec fn has_focus(self) -> bool {
        self.orp_index < self.text.len()
    }

    /// The characters before the fixation point; the whole word where the
    /// fixation point falls on none of its characters.
    pub open spec fn before(self) -> Seq<char> {
        if self.has_focus() {
            self.text.take(self.orp_index as int)
        } else {
            self.text
        }
    }

    /// The character at the fixation point; a blank where the fixation
    /// point falls on no character of the word.
    pub open spec fn focus(self) -> char {
        if self.has_focus() {
            self.text[self.orp_index as int]
        } else {
            ' '
        }
    }

    /// The characters after the fixation point.
    pub open spec fn after(self) -> Seq<char> {
        if self.has_focus() {
            self.text.skip(self.orp_index as int + 1)
        } else {
            Seq::empty()
        }
    }

    /// The three parts in which the word is drawn.
    pub open spec fn parts(self) -> (Seq<char>, char, Seq<char>) {
        (self.before(), self.focus(), self.after())
    }

    /// Whether this is a word as a text yields it: characters without white
    /// space, at least one of them, and the fixation point where the length
    /// puts it.
    pub open spec fn well_formed(self) -> bool {
        &&& is_word(self.text)
        &&& self.orp_index == orp_for_len(self.text.len())
    }
}

impl View for Word {
    type V = WordView;

    open spec fn view(&self) -> WordView {
        WordView {
            text: self.text@,
            orp_index: self.orp_index as nat,
            display_time: self.display_time as nat,
        }
    }
}

impl Word {
    /// Makes the word `text` for a reading speed of `wpm` words per minute.
    pub fn new(text: String, wpm: u32) -> (word: Word)
        requires
            wpm > 0,
        ensures
            word@ == WordView::at_speed(text@, wpm as nat),
            word.text == text,
    {
        let orp_index = Self::calculate_orp(text.as_str());
        let display_time = word_display_time(text.as_str(), wpm);
        Word { text, orp_index, display_time }
    }

    /// Finds the fixation point of `text`.
    pub fn calculate_orp(text: &str) -> (orp: usize)
        ensures
            orp == orp_for_len(text@.len()),
            text@.len() > 0 ==> orp < text@.len(),
    {
        calculate_orp_for_len(text.unicode_len())
    }

    /// Splits the word at the fixation point for display: what stands
    /// before it, the character on it, and what stands after it.
    pub fn get_parts(&self) -> (parts: (String, char, String))
        ensures
            parts.0@ == self@.before(),
            parts.1 == self@.focus(),
            parts.2@ == self@.after(),
    {
        let text = self.text.as_str();
        let len = text.unicode_len();
        if self.orp_index >= len {
            return (self.text.clone(), ' ', String::new());
        }
        let before = text.substring_char(0, self.orp_index).to_owned();
        let focus = text.get_char(self.orp_index);
        let after = text.substring_char(self.orp_index + 1, len).to_owned();
        (before, focus, after)
    }
}

/// Computes the time on screen of the word `text` at `wpm` words per minute.
pub fn word_display_time(text: &str, wpm: u32) -> (nanos: u128)
    requires
        wpm > 0,
    ensures
        nanos == word_display_nanos(text@, wpm as nat),
{
    let shape = word_shape(text);
    display_time(shape.len, punctuation_factor(shape.stop, shape.comma), wpm)
}

/// The nanoseconds from `since` to `now`; none where `now` is the earlier.
pub open spec fn nanos_between(since: nat, now: nat) -> nat {
    if now >= since {
        (now - since) as nat
    } else {
        0
    }
}

/// An engine as the contracts see it.
pub struct EngineState {
    /// The words of the session, in reading order.
    pub words: Seq<WordView>,
    /// Position of the word on screen; the number of words once all are read.
    pub current_index: nat,
    /// The clock reading at which the word on screen was first shown.
    pub last_update: nat,
    /// Whether playback is suspended.
    pub is_paused: bool,
    /// The reading speed in force.
    pub current_wpm: nat,
    /// The reading speed that the ramp ends at.
    pub target_wpm: nat,
    /// The reading speed that the ramp begins at.
    pub start_wpm: nat,
    /// The number of words over which the ramp runs.
    pub warmup_words: nat,
}

impl EngineState {
    /// What holds of every engine: the cursor is on a word or just past the
    /// last one, the speeds are positive and fit the machine's integers, and
    /// each word is well formed and carries the time on screen of its text
    /// at the start speed, for which it was made.
    pub open spec fn valid(self) -> bool {
        &&& self.current_index <= self.words.len() <= usize::MAX
        &&& 0 < self.start_wpm <= u32::MAX
        &&& 0 < self.target_wpm <= u32::MAX
        &&& 0 < self.current_wpm <= u32::MAX
        &&& self.warmup_words <= u32::MAX
        &&& self.last_update <= u128::MAX
        &&& forall|i: int|
            0 <= i < self.words.len() ==> {
                &&& (#[trigger] self.words[i]).well_formed()
                &&& self.words[i].display_time == word_display_nanos(
                    self.words[i].text,
                    self.start_wpm,
                )
            }
    }

    /// The engine as it is made from `text`.
    pub open spec fn initial(text: Seq<char>, start_wpm: nat, target_wpm: nat, warmup_words: nat)
        -> EngineState {
        EngineState {
            words: words_of(text).map_values(|t: Seq<char>| WordView::at_speed(t, start_wpm)),
            current_index: 0,
            last_update: 0,
            is_paused: false,
            current_wpm: start_wpm,
            target_wpm,
            start_wpm,
            warmup_words,
        }
    }

    /// Whether every word has been shown.
    pub open spec fn finished(self) -> bool {
        self.current_index >= self.words.len()
    }

    /// Whether a poll leaves the engine as it is: while paused, and once
    /// every word has been shown.
    pub open spec fn idle(self) -> bool {
        self.is_paused || self.finished()
    }

    /// The reading speed that the ramp gives at the cursor.
    pub open spec fn ramped_wpm(self) -> nat {
        ramp_wpm(self.start_wpm, self.target_wpm, self.warmup_words, self.current_index)
    }

    /// The word at the cursor, as it is stored.
    pub open spec fn current_word(self) -> WordView
        recommends
            !self.finished(),
    {
        self.words[self.current_index as int]
    }

    /// The time on screen that is due to the word at the cursor: that of its
    /// text at the speed that the ramp gives there. The time stored in the
    /// word is that of the speed it was made for, and does not count here.
    pub open spec fn due_nanos(self) -> nat
        recommends
            !self.finished(),
    {
        word_display_nanos(self.current_word().text, self.ramped_wpm())
    }

    /// Whether the word at the cursor has had its time on screen at `now`.
    pub open spec fn expired(self, now: nat) -> bool
        recommends
            !self.finished(),
    {
        nanos_between(self.last_update, now) >= self.due_nanos()
    }

    /// The engine after a poll at `now`. An idle engine stays as it is.
    /// Otherwise the speed follows the ramp; if the word at the cursor has
    /// had its time, the cursor moves on and the next display window opens
    /// at `now`. The words stay as they are.
    pub open spec fn updated(self, now: nat) -> EngineState {
        if self.idle() {
            self
        } else if self.expired(now) {
            EngineState {
                current_wpm: self.ramped_wpm(),
                current_index: self.current_index + 1,
                last_update: now,
                ..self
            }
        } else {
            EngineState { current_wpm: self.ramped_wpm(), ..self }
        }
    }

    /// The engine with playback suspended.
    pub open spec fn paused(self) -> EngineState {
        EngineState { is_paused: true, ..self }
    }

    /// The engine with playback taken up again at `now`: the word at the
    /// cursor gets a whole display window from then on.
    pub open spec fn resumed(self, now: nat) -> EngineState {
        EngineState { is_paused: false, last_update: now, ..self }
    }

    /// The engine after the pause key at `now`: taken up again if it was
    /// paused, else paused.
    pub open spec fn toggled(self, now: nat) -> EngineState {
        if self.is_paused {
            self.resumed(now)
        } else {
            self.paused()
        }
    }

    /// The engine back at its first word and at the start of the ramp.
    pub open spec fn restarted(self, now: nat) -> EngineState {
        EngineState { current_index: 0, last_update: now, current_wpm: self.start_wpm, ..self }
    }

    /// The engine after a manual change of speed by `delta` words per
    /// minute: target and current speed are the old target plus `delta`,
    /// held to the range from `MIN_WPM` to `MAX_WPM`.
    pub open spec fn with_speed_changed(self, delta: int) -> EngineState {
        let wpm = clamp(self.target_wpm + delta, MIN_WPM as int, MAX_WPM as int) as nat;
        EngineState { target_wpm: wpm, current_wpm: wpm, ..self }
    }

    /// Position of the last word; 0 where there is no word.
    pub open spec fn last_index(self) -> nat {
        if self.words.len() == 0 {
            0
        } else {
            (self.words.len() - 1) as nat
        }
    }

    /// The engine with the cursor put on word `index`, or on the last word
    /// where `index` lies beyond it, and a display window that opens at `now`.
    pub open spec fn moved_to(self, index: int, now: nat) -> EngineState {
        EngineState {
            current_index: clamp(index, 0, self.last_index() as int) as nat,
            last_update: now,
            ..self
        }
    }

    /// The engine with the cursor moved by `delta` words, held to the words
    /// that there are.
    pub open spec fn moved_by(self, delta: int, now: nat) -> EngineState {
        self.moved_to(self.current_index + delta, now)
    }

    /// The word that a poll hands out: none from an idle engine, else the
    /// word at the cursor, as it is stored.
    pub open spec fn shown(self) -> Option<WordView> {
        if self.idle() {
            None
        } else {
            Some(self.current_word())
        }
    }
}

/// The pacing engine: the words of one reading session, a cursor into them,
/// and the speed ramp.
pub struct RSVPEngine {
    words: Vec<Word>,
    current_index: usize,
    last_update: u128,
    is_paused: bool,
    current_wpm: u32,
    target_wpm: u32,
    start_wpm: u32,
    warmup_words: u32,
    clock: Clock,
}

impl View for RSVPEngine {
    type V = EngineState;

    closed spec fn view(&self) -> EngineState {
        EngineState {
            words: self.words@.map_values(|w: Word| w@),
            current_index: self.current_index as nat,
            last_update: self.last_update as nat,
            is_paused: self.is_paused,
            current_wpm: self.current_wpm as nat,
            target_wpm: self.target_wpm as nat,
            start_wpm: self.start_wpm as nat,
            warmup_words: self.warmup_words as nat,
        }
    }
}

impl RSVPEngine {
    /// Whether the engine is in a state that its own operations lead to.
    pub open spec fn wf(&self) -> bool {
        self@.valid()
    }

    /// Makes an engine for `text`: its words, timed for `start_wpm`, with
    /// the cursor on the first of them and its display window open from the
    /// moment of the call, which is the zero of the engine's clock.
    pub fn new(text: &str, start_wpm: u32, target_wpm: u32, warmup_words: u32) -> (engine:
        RSVPEngine)
        requires
            start_wpm > 0,
            target_wpm > 0,
        ensures
            engine.wf(),
            engine@ == EngineState::initial(
                text@,
                start_wpm as nat,
                target_wpm as nat,
                warmup_words as nat,
            ),
    {
        let tokens = split_words(text);
        let mut words: Vec<Word> = Vec::new();
        proof {
            lemma_words_are_words(text@);
        }
        for i in 0..tokens.len()
            invariant
                start_wpm > 0,
                texts_of(tokens@) == words_of(text@),
                words.len() == i,
                forall|j: int|
                    0 <= j < i ==> (#[trigger] words[j])@ == WordView::at_speed(
                        words_of(text@)[j],
                        start_wpm as nat,
                    ),
        {
            assert(texts_of(tokens@)[i as int] == tokens[i as int]@);
            words.push(Word::new(tokens[i].clone(), start_wpm));
        }
        let engine = RSVPEngine {
            words,
            current_index: 0,
            last_update: 0,
            is_paused: false,
            current_wpm: start_wpm,
            target_wpm,
            start_wpm,
            warmup_words,
            clock: Clock::start(),
        };
        proof {
            let made = EngineState::initial(
                text@,
                start_wpm as nat,
                target_wpm as nat,
                warmup_words as nat,
            );
            assert(texts_of(tokens@).len() == tokens.len());
            assert(engine@.words =~= made.words);
            assert forall|j: int| 0 <= j < made.words.len() implies (
            #[trigger] made.words[j]).well_formed() by {
                assert(is_word(words_of(text@)[j]));
            }
        }
        engine
    }

    /// Reads the engine's clock: the nanoseconds since the engine was made.
    pub fn now(&self) -> (now: u128) {
        self.clock.nanos()
    }

    /// Polls the engine at the present moment. What is handed out and how
    /// the engine changes is what `update_at` gives for the clock's reading.
    pub fn update(&mut self) -> (shown: Option<&Word>)
        requires
            old(self).wf(),
        ensures
            final(self).wf(),
            exists|now: nat| final(self)@ == old(self)@.updated(now),
            old(self)@.idle() ==> final(self)@ == old(self)@,
            shown.is_some() == !old(self)@.idle(),
            final(self)@.words == old(self)@.words,
            shown matches Some(word) ==> word@ == old(self)@.current_word(),
    {
        let now = self.clock.nanos();
        self.update_at(now)
    }

    /// Polls the engine with the clock reading `now`.
    pub fn update_at(&mut self, now: u128) -> (shown: Option<&Word>)
        requires
            old(self).wf(),
        ensures
            final(self).wf(),
            final(self)@ == old(self)@.updated(now as nat),
            old(self)@.idle() ==> final(self)@ == old(self)@,
            shown.is_some() == !old(self)@.idle(),
            final(self)@.words == old(self)@.words,
            shown matches Some(word) ==> word@ == old(self)@.current_word(),
    {
        if self.is_paused || self.current_index >= self.words.len() {
            return None;
        }
        let index = self.current_index;
        proof {
            lemma_ramp_between(
                self.start_wpm as nat,
                self.target_wpm as nat,
                self.warmup_words as nat,
                index as nat,
            );
        }
        self.current_wpm = ramp_speed(self.start_wpm, self.target_wpm, self.warmup_words, index);
        let due = word_display_time(self.words[index].text.as_str(), self.current_wpm);
        let passed: u128 = if now >= self.last_update {
            now - self.last_update
        } else {
            0
        };
        if passed >= due {
            self.last_update = now;
            self.current_index = index + 1;
        }
        Some(&self.words[index])
    }

    /// Suspends playback. Nothing else changes.
    pub fn pause(&mut self)
        ensures
            final(self)@ == old(self)@.paused(),
            old(self).wf() ==> final(self).wf(),
    {
        self.is_paused = true;
    }

    /// Takes playback up again at the present moment.
    pub fn resume(&mut self)
        ensures
            exists|now: nat| final(self)@ == old(self)@.resumed(now),
            old(self).wf() ==> final(self).wf(),
    {
        let now = self.clock.nanos();
        self.resume_at(now);
    }

    /// Takes playback up again with the clock reading `now`.
    pub fn resume_at(&mut self, now: u128)
        ensures
            final(self)@ == old(self)@.resumed(now as nat),
            old(self).wf() ==> final(self).wf(),
    {
        self.is_paused = false;
        self.last_update = now;
    }

    /// Pauses a playing engine and takes a paused one up again, at the
    /// present moment.
    pub fn toggle_pause(&mut self)
        ensures
            exists|now: nat| final(self)@ == old(self)@.toggled(now),
            old(self).wf() ==> final(self).wf(),
    {
        let now = self.clock.nanos();
        self.toggle_pause_at(now);
    }

    /// Pauses a playing engine and takes a paused one up again, with the
    /// clock reading `now`.
    pub fn toggle_pause_at(&mut self, now: u128)
        ensures
            final(self)@ == old(self)@.toggled(now as nat),
            old(self).wf() ==> final(self).wf(),
    {
        if self.is_paused {
            self.resume_at(now);
        } else {
            self.pause();
        }
    }

    /// Goes back to the first word and to the start of the ramp, at the
    /// present moment.
    pub fn reset(&mut self)
        ensures
            exists|now: nat| final(self)@ == old(self)@.restarted(now),
            old(self).wf() ==> final(self).wf(),
    {
        let now = self.clock.nanos();
        self.reset_at(now);
    }

    /// Goes back to the first word and to the start of the ramp, with the
    /// clock reading `now`.
    pub fn reset_at(&mut self, now: u128)
        ensures
            final(self)@ == old(self)@.restarted(now as nat),
            old(self).wf() ==> final(self).wf(),
    {
        self.current_index = 0;
        self.last_update = now;
        self.current_wpm = self.start_wpm;
    }

    /// Changes the speed by `delta` words per minute, at once and without
    /// a ramp. The new speed is held to the range from `MIN_WPM` to
    /// `MAX_WPM`.
    pub fn adjust_speed(&mut self, delta: i32)
        ensures
            final(self)@ == old(self)@.with_speed_changed(delta as int),
            MIN_WPM <= final(self)@.target_wpm <= MAX_WPM,
            MIN_WPM <= final(self)@.current_wpm <= MAX_WPM,
            old(self).wf() ==> final(self).wf(),
    {
        let wanted: i64 = self.target_wpm as i64 + delta as i64;
        let wpm: u32 = if wanted < MIN_WPM as i64 {
            MIN_WPM
        } else if wanted > MAX_WPM as i64 {
            MAX_WPM
        } else {
            wanted as u32
        };
        self.target_wpm = wpm;
        self.current_wpm = wpm;
    }

    /// Moves the cursor by `delta` words at the present moment.
    pub fn seek(&mut self, delta: i32)
        requires
            old(self).wf(),
        ensures
            final(self).wf(),
            exists|now: nat| final(self)@ == old(self)@.moved_by(delta as int, now),
            final(self)@.current_index <= old(self)@.last_index(),
    {
        let now = self.clock.nanos();
        self.seek_at(delta, now);
    }

    /// Moves the cursor by `delta` words, with the clock reading `now`. The
    /// cursor stays on a word: it stops at the first and at the last one.
    pub fn seek_at(&mut self, delta: i32, now: u128)
        requires
            old(self).wf(),
        ensures
            final(self).wf(),
            final(self)@ == old(self)@.moved_by(delta as int, now as nat),
            final(self)@.current_index <= old(self)@.last_index(),
    {
        let last: usize = if self.words.len() == 0 {
            0
        } else {
            self.words.len() - 1
        };
        let wanted: i128 = self.current_index as i128 + delta as i128;
        self.current_index = if wanted < 0 {
            0
        } else if wanted > last as i128 {
            last
        } else {
            wanted as usize
        };
        self.last_update = now;
    }

    /// Puts the cursor on word `index` at the present moment.
    pub fn seek_to(&mut self, index: usize)
        requires
            old(self).wf(),
        ensures
            final(self).wf(),
            exists|now: nat| final(self)@ == old(self)@.moved_to(index as int, now),
            final(self)@.current_index <= old(self)@.last_index(),
    {
        let now = self.clock.nanos();
        self.seek_to_at(index, now);
    }

    /// Puts the cursor on word `index`, or on the last word where `index`
    /// lies beyond it, with the clock reading `now`.
    pub fn seek_to_at(&mut self, index: usize, now: u128)
        requires
            old(self).wf(),
        ensures
            final(self).wf(),
            final(self)@ == old(self)@.moved_to(index as int, now as nat),
            final(self)@.current_index <= old(self)@.last_index(),
    {
        let last: usize = if self.words.len() == 0 {
            0
        } else {
            self.words.len() - 1
        };
        self.current_index = if index > last {
            last
        } else {
            index
        };
        self.last_update = now;
    }

    /// The position of the cursor.
    pub fn get_current_index(&self) -> (index: usize)
        ensures
            index == self@.current_index,
    {
        self.current_index
    }

    /// The word at the cursor; none once every word has been shown.
    pub fn get_current_word(&self) -> (word: Option<&Word>)
        ensures
            word.is_some() == !self@.finished(),
            word matches Some(w) ==> w@ == self@.words[self@.current_index as int],
    {
        if self.current_index < self.words.len() {
            Some(&self.words[self.current_index])
        } else {
            None
        }
    }

    /// Whether every word has been shown.
    pub fn is_finished(&self) -> (finished: bool)
        ensures
            finished == self@.finished(),
    {
        self.current_index >= self.words.len()
    }

    /// How far the reading has come, as a fraction: the numerator and the
    /// denominator. It is the cursor's position over the number of words,
    /// and 0 over 1 where there is no word.
    pub fn get_progress(&self) -> (progress: (usize, usize))
        requires
            self.wf(),
        ensures
            progress.1 > 0,
            progress.0 <= progress.1,
            self@.words.len() == 0 ==> progress == (0usize, 1usize),
            self@.words.len() > 0 ==> progress.0 == self@.current_index && progress.1
                == self@.words.len(),
    {
        if self.words.len() == 0 {
            (0, 1)
        } else {
            (self.current_index, self.words.len())
        }
    }

    /// The reading speed in force.
    pub fn get_current_wpm(&self) -> (wpm: u32)
        ensures
            wpm == self@.current_wpm,
    {
        self.current_wpm
    }

    /// The reading speed that the ramp ends at.
    pub fn get_target_wpm(&self) -> (wpm: u32)
        ensures
            wpm == self@.target_wpm,
    {
        self.target_wpm
    }

    /// Whether playback is suspended.
    pub fn is_paused(&self) -> (paused: bool)
        ensures
            paused == self@.is_paused,
    {
        self.is_paused
    }

    /// The number of words in the session.
    pub fn word_count(&self) -> (count: usize)
        ensures
            count == self@.words.len(),
    {
        self.words.len()
    }
}

/// Once every word has been shown, a poll changes nothing and hands out no
/// word, however often it is made and whatever the clock reads.
pub proof fn lemma_finished_is_final(state: EngineState, now: nat)
    requires
        state.finished(),
    ensures
        state.updated(now) == state,
        state.shown().is_none(),
{
}

/// A poll leaves the words as they are, each with the time on screen that
/// it was made with. It changes nothing but the speed, the cursor and the
/// start of the display window: the cursor moves by one word at most, and
/// the window is moved only together with the cursor. A valid engine stays
/// valid.
pub proof fn lemma_update_keeps_words(state: EngineState, now: nat)
    requires
        state.valid(),
        now <= u128::MAX,
    ensures
        state.updated(now).valid(),
        state.updated(now).words == state.words,
        state.updated(now) == (EngineState {
            current_wpm: state.updated(now).current_wpm,
            current_index: state.updated(now).current_index,
            last_update: state.updated(now).last_update,
            ..state
        }),
        state.current_index <= state.updated(now).current_index <= state.current_index + 1,
        state.updated(now).current_index == state.current_index ==> state.updated(now).last_update
            == state.last_update,
{
    if !state.idle() {
        lemma_ramp_between(
            state.start_wpm,
            state.target_wpm,
            state.warmup_words,
            state.current_index,
        );
    }
}

/// A word that playback is taken up on gets a whole display window: after
/// a pause, a poll at the very clock reading of the resumption does not move
/// the cursor.
pub proof fn lemma_resumed_word_is_fresh(state: EngineState, now: nat)
    requires
        state.valid(),
    ensures
        state.paused().resumed(now).updated(now).current_index == state.current_index,
{
    let resumed = state.paused().resumed(now);
    if !resumed.idle() {
        let text = state.words[state.current_index as int].text;
        lemma_ramp_between(
            state.start_wpm,
            state.target_wpm,
            state.warmup_words,
            state.current_index,
        );
        assert(state.words[state.current_index as int].well_formed());
        lemma_display_takes_time(
            text.len(),
            punctuation_percent(text),
            resumed.ramped_wpm() as u32,
        );
    }
}

} // verus!
