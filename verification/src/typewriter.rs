//! Incremental text reveal for an open dialogue display.

use vstd::prelude::*;

verus! {

/// Reveal progress over a fixed text, measured in thousandths of a character
/// so that whole-millisecond ticks accumulate exactly: a rate of `r`
/// characters per second advances the reveal by `r` milli-characters per
/// millisecond.
pub struct DialogueTypewriter {
    pub chars_per_sec: u32,
    pub full_text: Option<String>,
    pub revealed_milli: u128,
}

impl DialogueTypewriter {
    /// The length of the captured text, in whole characters.
    pub open spec fn total_chars(self) -> nat
        recommends
            self.full_text is Some,
    {
        self.full_text->0@.len()
    }

    /// How many whole characters are currently revealed.
    pub open spec fn shown_chars(self) -> int {
        self.revealed_milli as int / 1000
    }

    /// Before capture nothing is revealed; after capture the reveal is
    /// clamped to the length of the captured text.
    pub open spec fn wf(self) -> bool {
        &&& (self.full_text is None ==> self.revealed_milli == 0)
        &&& (self.full_text is Some ==> self.revealed_milli <= 1000 * self.total_chars())
    }

    /// A fresh revealer: no text captured yet, nothing revealed.
    pub fn new(chars_per_sec: u32) -> (t: DialogueTypewriter)
        ensures
            t.wf(),
            t.chars_per_sec == chars_per_sec,
            t.full_text is None,
            t.revealed_milli == 0,
    {
        DialogueTypewriter {
            chars_per_sec,
            full_text: None,
            revealed_milli: 0,
        }
    }

    /// One frame of reveal. On the first call the display's current text is
    /// captured as the full text, once and for all; on every call the reveal
    /// advances by `rate * delta` milli-characters, clamped to the text
    /// length, and the returned visible text is the prefix of the full text
    /// of `floor(revealed)` whole characters, so it never splits a
    /// multi-byte character.
    pub fn tick(&mut self, display_text: &str, delta_ms: u64) -> (visible: String)
        requires
            old(self).wf(),
        ensures
            final(self).wf(),
            final(self).chars_per_sec == old(self).chars_per_sec,
            final(self).full_text is Some,
            old(self).full_text is Some ==> final(self).full_text == old(self).full_text,
            old(self).full_text is None ==> final(self).full_text->0@ == display_text@,
            final(self).revealed_milli == vstd::math::min(
                old(self).revealed_milli + old(self).chars_per_sec * delta_ms,
                1000 * final(self).total_chars() as int,
            ),
            final(self).revealed_milli >= old(self).revealed_milli,
            visible@ == final(self).full_text->0@.take(final(self).shown_chars()),
    {
        let full: String = match &self.full_text {
            Some(s) => s.clone(),
            None => display_text.to_owned(),
        };
        self.full_text = Some(full.clone());
        let total: usize = full.as_str().unicode_len();
        proof {
            vstd::arithmetic::mul::lemma_mul_upper_bound(
                self.chars_per_sec as int,
                u32::MAX as int,
                delta_ms as int,
                u64::MAX as int,
            );
        }
        let add: u128 = (self.chars_per_sec as u128) * (delta_ms as u128);
        let cap: u128 = (total as u128) * 1000;
        let sum: u128 = self.revealed_milli + add;
        self.revealed_milli = if sum <= cap {
            sum
        } else {
            cap
        };
        let shown: usize = (self.revealed_milli / 1000) as usize;
        let prefix: &str = full.as_str().substring_char(0, shown);
        prefix.to_owned()
    }
}

/// Law: the reveal tracks elapsed time exactly. If after some ticks the
/// reveal stands at `min(rate * elapsed, cap)` milli-characters, one more
/// tick of `delta` milliseconds (which, by the contract of
/// [`DialogueTypewriter::tick`], adds `rate * delta` clamped to `cap`) moves
/// it to `min(rate * (elapsed + delta), cap)`. By induction from a fresh
/// revealer, after ticks totalling `t` milliseconds the reveal is
/// `min(rate * t, cap)`, which is non-decreasing in `t`.
pub proof fn lemma_reveal_tracks_elapsed(rate: nat, elapsed: nat, delta: nat, cap: nat)
    ensures
        vstd::math::min(
            vstd::math::min((rate * elapsed) as int, cap as int) + rate * delta,
            cap as int,
        ) == vstd::math::min((rate * (elapsed + delta)) as int, cap as int),
        vstd::math::min((rate * elapsed) as int, cap as int) <= vstd::math::min(
            (rate * (elapsed + delta)) as int,
            cap as int,
        ),
{
    vstd::arithmetic::mul::lemma_mul_is_distributive_add(rate as int, elapsed as int, delta as int);
    if rate > 0 {
        vstd::arithmetic::mul::lemma_mul_left_inequality(
            rate as int,
            elapsed as int,
            (elapsed + delta) as int,
        );
    }
}

/// Law: the number of visible characters is `min(floor(rate * t / 1000),
/// total)`. Dividing the clamped milli-character reveal by a thousand is the
/// same as clamping the divided value to the text length.
pub proof fn lemma_displayed_length(revealed: nat, total: nat)
    ensures
        vstd::math::min(revealed as int, 1000 * total as int) / 1000 == vstd::math::min(
            revealed as int / 1000,
            total as int,
        ),
{
    vstd::arithmetic::div_mod::lemma_div_multiples_vanish(total as int, 1000);
    if revealed as int <= 1000 * total as int {
        vstd::arithmetic::div_mod::lemma_div_is_ordered(
            revealed as int,
            1000 * total as int,
            1000,
        );
    } else {
        vstd::arithmetic::div_mod::lemma_div_is_ordered(
            1000 * total as int,
            revealed as int,
            1000,
        );
    }
}

} // verus!
