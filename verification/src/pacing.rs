//! The arithmetic of pacing: where the eye rests in a word, how long a word
//! stays on screen, and how the reading speed ramps up over the first words.
//!
//! Durations are whole nanoseconds. Factors are whole percentages, so every
//! quantity here is an exact integer expression.

use vstd::prelude::*;

verus! {

/// Slowest reading speed that a manual adjustment can reach, in words per minute.
pub const MIN_WPM: u32 = 100;

/// Fastest reading speed that a manual adjustment can reach, in words per minute.
pub const MAX_WPM: u32 = 1200;

/// Nanoseconds in one minute.
pub const NANOS_PER_MINUTE: u128 = 60_000_000_000;

/// The fixation point of a word of `len` characters: the offset of the
/// character on which the eye should rest. It moves to the right as words
/// get longer and stays on the fifth character from fourteen characters on.
/// A text of no characters has it at 0, where no character is.
pub open spec fn orp_for_len(len: nat) -> nat {
    if len <= 3 {
        0
    } else if len <= 5 {
        1
    } else if len <= 9 {
        2
    } else if len <= 13 {
        3
    } else {
        4
    }
}

/// Computes the fixation point of a word of `len` characters.
pub fn calculate_orp_for_len(len: usize) -> (orp: usize)
    ensures
        orp == orp_for_len(len as nat),
        len > 0 ==> orp < len,
{
    if len <= 3 {
        0
    } else if len <= 5 {
        1
    } else if len <= 9 {
        2
    } else if len <= 13 {
        3
    } else {
        4
    }
}

/// Whether `c` is one of the marks that end a sentence or a clause: `.`, `!`,
/// `?` or `;`.
pub open spec fn is_stop_mark(c: char) -> bool {
    c == '.' || c == '!' || c == '?' || c == ';'
}

/// Whether `text` holds a stop mark anywhere.
pub open spec fn has_stop_mark(text: Seq<char>) -> bool {
    exists|i: int| 0 <= i < text.len() && is_stop_mark(#[trigger] text[i])
}

/// Whether `text` holds a comma anywhere.
pub open spec fn has_comma(text: Seq<char>) -> bool {
    exists|i: int| 0 <= i < text.len() && #[trigger] text[i] == ','
}

/// The pause that punctuation adds, as a percentage of the base duration:
/// 140 after a stop mark, else 115 after a comma, else 100.
pub open spec fn punctuation_percent(text: Seq<char>) -> nat {
    if has_stop_mark(text) {
        140
    } else if has_comma(text) {
        115
    } else {
        100
    }
}

/// The share of the base duration that a word of `len` characters gets, as a
/// percentage: three points more for each character beyond five, three less
/// for each one short of five, and never under 80.
pub open spec fn length_percent(len: nat) -> nat {
    let raw = 100 + (len - 5) * 3;
    if raw < 80 {
        80
    } else {
        raw as nat
    }
}

/// How long a word stays on screen, in nanoseconds: one minute divided by
/// `wpm`, times the length factor, times the punctuation factor, rounded down.
pub open spec fn display_nanos(len: nat, punctuation: nat, wpm: nat) -> nat
    recommends
        wpm > 0,
{
    (NANOS_PER_MINUTE as nat * length_percent(len) * punctuation) / (wpm * 10_000)
}

/// How long the word `text` stays on screen at `wpm`, in nanoseconds.
pub open spec fn word_display_nanos(text: Seq<char>, wpm: nat) -> nat
    recommends
        wpm > 0,
{
    display_nanos(text.len(), punctuation_percent(text), wpm)
}

/// The reading speed at word `index` of a ramp that goes linearly from
/// `start` to `target` over the first `warmup` words, rounded down to a whole
/// number of words per minute. From word `warmup` on it is `target`.
pub open spec fn ramp_wpm(start: nat, target: nat, warmup: nat, index: nat) -> nat {
    if index < warmup {
        ((start * warmup + (target - start) * index) / (warmup as int)) as nat
    } else {
        target
    }
}

/// `value` held to the range from `low` to `high`.
pub open spec fn clamp(value: int, low: int, high: int) -> int {
    if value < low {
        low
    } else if value > high {
        high
    } else {
        value
    }
}

/// Computes the length factor of a word of `len` characters, in percent.
pub fn length_factor(len: usize) -> (percent: u128)
    ensures
        percent == length_percent(len as nat),
        85 <= percent <= 85 + 3 * len,
{
    let raw: u128 = 85 + 3 * (len as u128);
    if raw < 80 {
        80
    } else {
        raw
    }
}

/// The punctuation factor, in percent, of a word in which a stop mark or a
/// comma was or was not found.
pub fn punctuation_factor(stop: bool, comma: bool) -> (percent: u128)
    ensures
        percent == if stop {
            140u128
        } else if comma {
            115u128
        } else {
            100u128
        },
{
    if stop {
        140
    } else if comma {
        115
    } else {
        100
    }
}

/// Computes the display time of a word of `len` characters whose punctuation
/// factor is `punctuation` percent, at `wpm` words per minute.
pub fn display_time(len: usize, punctuation: u128, wpm: u32) -> (nanos: u128)
    requires
        wpm > 0,
        punctuation <= 140,
    ensures
        nanos == display_nanos(len as nat, punctuation as nat, wpm as nat),
{
    let length: u128 = length_factor(len);
    assert(NANOS_PER_MINUTE * length <= 60_000_000_000 * (85 + 3 * usize::MAX)) by (nonlinear_arith)
        requires
            length <= 85 + 3 * usize::MAX,
            NANOS_PER_MINUTE == 60_000_000_000,
    ;
    let scaled: u128 = NANOS_PER_MINUTE * length;
    assert(scaled * punctuation <= 60_000_000_000 * (85 + 3 * usize::MAX) * 140)
        by (nonlinear_arith)
        requires
            scaled <= 60_000_000_000 * (85 + 3 * usize::MAX),
            punctuation <= 140,
    ;
    let divisor: u128 = (wpm as u128) * 10_000;
    scaled * punctuation / divisor
}

/// Computes the reading speed at word `index` of the ramp from `start` to
/// `target` over `warmup` words. The result lies between the two endpoints.
pub fn ramp_speed(start: u32, target: u32, warmup: u32, index: usize) -> (wpm: u32)
    ensures
        wpm == ramp_wpm(start as nat, target as nat, warmup as nat, index as nat),
        start <= target ==> start <= wpm <= target,
        target <= start ==> target <= wpm <= start,
{
    if index < warmup as usize {
        let steps: u128 = warmup as u128;
        let done: u128 = index as u128;
        proof {
            lemma_ramp_between(start as nat, target as nat, warmup as nat, index as nat);
            assert(start * (steps - done) <= 0xffff_ffff * 0xffff_ffff) by (nonlinear_arith)
                requires
                    start <= 0xffff_ffff,
                    0 <= steps - done <= 0xffff_ffff,
            ;
            assert(target * done <= 0xffff_ffff * 0xffff_ffff) by (nonlinear_arith)
                requires
                    target <= 0xffff_ffff,
                    0 <= done <= 0xffff_ffff,
            ;
            assert(start * (steps - done) + target * done == start * steps + (target - start)
                * done) by (nonlinear_arith);
        }
        let weighted: u128 = (start as u128) * (steps - done) + (target as u128) * done;
        (weighted / steps) as u32
    } else {
        target
    }
}

/// The ramp never leaves the range between its two endpoints, starts at
/// `start`, and is at `target` from word `warmup` on.
pub proof fn lemma_ramp_between(start: nat, target: nat, warmup: nat, index: nat)
    ensures
        start <= target ==> start <= ramp_wpm(start, target, warmup, index) <= target,
        target <= start ==> target <= ramp_wpm(start, target, warmup, index) <= start,
        index >= warmup ==> ramp_wpm(start, target, warmup, index) == target,
        warmup > 0 ==> ramp_wpm(start, target, warmup, 0) == start,
{
    if index < warmup {
        let w = warmup as int;
        let weighted = start * warmup + (target - start) * index;
        if start <= target {
            assert(start * w <= weighted <= target * w) by (nonlinear_arith)
                requires
                    weighted == start * w + (target - start) * index,
                    0 <= index < w,
                    start <= target,
            ;
        } else {
            assert(target * w <= weighted <= start * w) by (nonlinear_arith)
                requires
                    weighted == start * w + (target - start) * index,
                    0 <= index < w,
                    target <= start,
            ;
        }
        lemma_div_between(start as int, target as int, weighted, w);
        lemma_div_between(target as int, start as int, weighted, w);
    }
    if warmup > 0 {
        assert((start * warmup + (target - start) * 0) / (warmup as int) == start)
            by (nonlinear_arith)
            requires
                warmup > 0,
        ;
    }
}

/// A quotient lies between two numbers when the dividend lies between their
/// multiples of the divisor.
proof fn lemma_div_between(a: int, b: int, x: int, d: int)
    requires
        d > 0,
    ensures
        a * d <= x ==> a <= x / d,
        x <= b * d ==> x / d <= b,
{
    assert(a * d <= x ==> a <= x / d) by (nonlinear_arith)
        requires
            d > 0,
    ;
    assert(x <= b * d ==> x / d <= b) by (nonlinear_arith)
        requires
            d > 0,
    ;
}

/// A dividend that is larger by at least the divisor gives a larger quotient.
proof fn lemma_div_strictly_larger(x: int, y: int, d: int)
    requires
        d > 0,
        0 <= x,
        x + d <= y,
    ensures
        x / d < y / d,
{
    assert(x / d < y / d) by (nonlinear_arith)
        requires
            d > 0,
            0 <= x,
            x + d <= y,
    ;
}

/// A larger dividend gives no smaller quotient.
proof fn lemma_div_no_smaller(x: int, y: int, d: int)
    requires
        d > 0,
        x <= y,
    ensures
        x / d <= y / d,
{
    assert(x / d <= y / d) by (nonlinear_arith)
        requires
            d > 0,
            x <= y,
    ;
}

/// Punctuation lengthens the display: at one length and one speed, a word
/// with a stop mark is shown strictly longer than one with a comma only,
/// and that one strictly longer than a word without punctuation.
pub proof fn lemma_punctuation_lengthens_display(len: nat, wpm: u32)
    requires
        wpm > 0,
    ensures
        display_nanos(len, 140, wpm as nat) > display_nanos(len, 115, wpm as nat),
        display_nanos(len, 115, wpm as nat) > display_nanos(len, 100, wpm as nat),
{
    let base = NANOS_PER_MINUTE as int * length_percent(len);
    let divisor = wpm as int * 10_000;
    assert(base >= 60_000_000_000 * 80) by (nonlinear_arith)
        requires
            base == 60_000_000_000 * length_percent(len),
            length_percent(len) >= 80,
    ;
    assert(base * 100 + divisor <= base * 115 && base * 115 + divisor <= base * 140 && 0 <= base
        * 100) by (nonlinear_arith)
        requires
            base >= 60_000_000_000 * 80,
            divisor <= 0xffff_ffff * 10_000,
    ;
    lemma_div_strictly_larger(base * 100, base * 115, divisor);
    lemma_div_strictly_larger(base * 115, base * 140, divisor);
}

/// A longer word is shown no shorter: at one speed and with the same
/// punctuation factor, the display time does not fall as the length grows.
pub proof fn lemma_length_lengthens_display(shorter: nat, longer: nat, punctuation: nat, wpm: u32)
    requires
        wpm > 0,
        shorter <= longer,
    ensures
        display_nanos(shorter, punctuation, wpm as nat) <= display_nanos(
            longer,
            punctuation,
            wpm as nat,
        ),
{
    let minute = NANOS_PER_MINUTE as int;
    let small = length_percent(shorter) as int;
    let large = length_percent(longer) as int;
    assert(minute * small * punctuation <= minute * large * punctuation) by (nonlinear_arith)
        requires
            0 <= small <= large,
            minute >= 0,
            punctuation >= 0,
    ;
    lemma_div_no_smaller(
        minute * small * punctuation,
        minute * large * punctuation,
        wpm as int * 10_000,
    );
}

/// A mark at the end of a word lengthens its display: where `base` holds no
/// stop mark and no comma, `base` followed by `.` is shown strictly longer
/// than `base` followed by `,`, and that strictly longer than `base` alone.
/// The same holds with `!`, `?` or `;` in place of `.`.
pub proof fn lemma_trailing_mark_lengthens_display(base: Seq<char>, mark: char, wpm: u32)
    requires
        wpm > 0,
        is_stop_mark(mark),
        !has_stop_mark(base),
        !has_comma(base),
    ensures
        word_display_nanos(base.push(mark), wpm as nat) > word_display_nanos(
            base.push(','),
            wpm as nat,
        ),
        word_display_nanos(base.push(','), wpm as nat) > word_display_nanos(base, wpm as nat),
{
    let stopped = base.push(mark);
    let slowed = base.push(',');
    let len = base.len();
    assert(is_stop_mark(stopped[len as int]));
    assert(slowed[len as int] == ',');
    if has_stop_mark(slowed) {
        let i = choose|i: int| 0 <= i < slowed.len() && is_stop_mark(#[trigger] slowed[i]);
        if i < len {
            assert(is_stop_mark(base[i]));
        }
    }
    assert(punctuation_percent(stopped) == 140);
    assert(punctuation_percent(slowed) == 115);
    assert(punctuation_percent(base) == 100);
    lemma_punctuation_lengthens_display(len + 1, wpm);
    lemma_punctuation_lengthens_display(len, wpm);
    lemma_length_lengthens_display(len, len + 1, 115, wpm);
}

/// No word is shown for no time at all: the display time is positive at
/// every length, speed and punctuation factor of at least 100 percent.
pub proof fn lemma_display_takes_time(len: nat, punctuation: nat, wpm: u32)
    requires
        wpm > 0,
        punctuation >= 100,
    ensures
        display_nanos(len, punctuation, wpm as nat) > 0,
{
    let dividend = NANOS_PER_MINUTE as int * length_percent(len) * punctuation;
    let divisor = wpm as int * 10_000;
    assert(dividend >= 60_000_000_000 * 80 * 100) by (nonlinear_arith)
        requires
            dividend == 60_000_000_000 * length_percent(len) * punctuation,
            length_percent(len) >= 80,
            punctuation >= 100,
    ;
    lemma_div_strictly_larger(0, dividend, divisor);
}

} // verus!
