//! The progression controller: a collection counter and a countdown deadline
//! that together resolve the session toward exactly one terminal outcome.

use vstd::prelude::*;

use crate::dialogue::AudioCue;
use crate::dialogue::Dialogues;
use crate::dialogue::PlayerControl;
use crate::dialogue::cue_is;

verus! {

/// One of the two mutually exclusive terminal outcomes of a session.
#[derive(Clone, Copy, PartialEq, Eq, Structural, Debug)]
pub enum Outcome {
    Win,
    Lose,
}

/// A collectible: a payload reference, an audio reference and the dialogue
/// its pickup opens. It is removed from the world exactly once, on pickup.
pub struct File {
    pub file: String,
    pub sound: String,
    pub dialogue: Dialogues,
}

/// A notification emitted by the progression controller. Within a frame the
/// caller drains these in order: a pickup notice opens its dialogue and a
/// terminal notice opens the ending screen before the frame continues.
pub enum Notice {
    /// A collectible was picked up; carries its payload, audio and dialogue
    /// references so the handler can play the sound and open the dialogue.
    FileCollected { file: String, sound: String, dialogue: Dialogues },
    /// The required count was reached: the session is won.
    W,
    /// The deadline expired first: the session is lost.
    BigL,
}

/// Progression state: how many collectibles were gathered out of how many are
/// required, how much of the countdown has elapsed, and the terminal outcome
/// once one is resolved. Mutated only through [`Progress::register_collection`]
/// and [`Progress::tick`].
pub struct Progress {
    pub files_collected: u32,
    pub required: u32,
    pub elapsed_ms: u64,
    pub deadline_ms: u64,
    pub terminal: Option<Outcome>,
}

impl Progress {
    /// The controller never counts more collections than are required.
    pub open spec fn wf(self) -> bool {
        self.files_collected <= self.required
    }

    /// A fresh session: nothing collected, no time elapsed, no outcome.
    pub fn new(required: u32, deadline_ms: u64) -> (p: Progress)
        ensures
            p.wf(),
            p.files_collected == 0,
            p.required == required,
            p.elapsed_ms == 0,
            p.deadline_ms == deadline_ms,
            p.terminal is None,
    {
        Progress {
            files_collected: 0,
            required,
            elapsed_ms: 0,
            deadline_ms,
            terminal: None,
        }
    }

    /// Records the pickup of `item`. Once a terminal outcome is set, or once
    /// the required count is already met, the call is a no-op and emits
    /// nothing; otherwise the counter advances, a pickup notice carrying the
    /// item's references is emitted, and reaching the required count resolves
    /// the session to a win with exactly one win notice.
    pub fn register_collection(&mut self, item: &File) -> (notices: Vec<Notice>)
        requires
            old(self).wf(),
        ensures
            final(self).wf(),
            final(self).required == old(self).required,
            final(self).elapsed_ms == old(self).elapsed_ms,
            final(self).deadline_ms == old(self).deadline_ms,
            // the terminal outcome is set at most once, then immutable
            old(self).terminal is Some ==> final(self).terminal == old(self).terminal,
            old(self).terminal is Some ==> *final(self) == *old(self) && notices@ =~= Seq::<Notice>::empty(),
            old(self).terminal is None && old(self).files_collected >= old(self).required ==> *final(self)
                == *old(self) && notices@ =~= Seq::<Notice>::empty(),
            old(self).terminal is None && old(self).files_collected < old(self).required ==> {
                &&& final(self).files_collected == old(self).files_collected + 1
                &&& (final(self).files_collected < final(self).required ==> final(self).terminal is None
                    && notices@ =~= seq![
                    Notice::FileCollected {
                        file: item.file,
                        sound: item.sound,
                        dialogue: item.dialogue,
                    },
                ])
                &&& (final(self).files_collected == final(self).required ==> final(self).terminal
                    == Some(Outcome::Win) && notices@ =~= seq![
                    Notice::FileCollected {
                        file: item.file,
                        sound: item.sound,
                        dialogue: item.dialogue,
                    },
                    Notice::W,
                ])
            },
    {
        let mut notices: Vec<Notice> = Vec::new();
        if self.terminal.is_some() {
            return notices;
        }
        if self.files_collected >= self.required {
            return notices;
        }
        self.files_collected = self.files_collected + 1;
        notices.push(Notice::FileCollected {
            file: item.file.clone(),
            sound: item.sound.clone(),
            dialogue: item.dialogue,
        });
        if self.files_collected == self.required {
            self.terminal = Some(Outcome::Win);
            notices.push(Notice::W);
        }
        notices
    }

    /// Advances the countdown by `delta_ms` (saturating at the largest
    /// representable duration). Once a terminal outcome is set the call is a
    /// no-op and emits nothing; otherwise, the first tick on which the elapsed
    /// time reaches the deadline resolves the session to a loss with exactly
    /// one loss notice.
    pub fn tick(&mut self, delta_ms: u64) -> (notices: Vec<Notice>)
        requires
            old(self).wf(),
        ensures
            final(self).wf(),
            final(self).files_collected == old(self).files_collected,
            final(self).required == old(self).required,
            final(self).deadline_ms == old(self).deadline_ms,
            // the terminal outcome is set at most once, then immutable
            old(self).terminal is Some ==> final(self).terminal == old(self).terminal,
            old(self).terminal is Some ==> *final(self) == *old(self) && notices@ =~= Seq::<Notice>::empty(),
            old(self).terminal is None ==> {
                &&& final(self).elapsed_ms == saturated_ms(old(self).elapsed_ms, delta_ms)
                &&& (final(self).elapsed_ms >= final(self).deadline_ms ==> final(self).terminal
                    == Some(Outcome::Lose) && notices@ =~= seq![Notice::BigL])
                &&& (final(self).elapsed_ms < final(self).deadline_ms ==> final(self).terminal is None
                    && notices@ =~= Seq::<Notice>::empty())
            },
    {
        let mut notices: Vec<Notice> = Vec::new();
        if self.terminal.is_some() {
            return notices;
        }
        self.elapsed_ms = match self.elapsed_ms.checked_add(delta_ms) {
            Some(sum) => sum,
            None => u64::MAX,
        };
        if self.elapsed_ms >= self.deadline_ms {
            self.terminal = Some(Outcome::Lose);
            notices.push(Notice::BigL);
        }
        notices
    }

    /// How much of the countdown is left, for the timer display.
    pub fn remaining_ms(&self) -> (r: u64)
        ensures
            r == if self.elapsed_ms <= self.deadline_ms {
                self.deadline_ms - self.elapsed_ms
            } else {
                0
            },
    {
        if self.elapsed_ms <= self.deadline_ms {
            self.deadline_ms - self.elapsed_ms
        } else {
            0
        }
    }
}

impl Progress {
    /// One frame of progression, in the declared dispatch order: the pending
    /// pickup, if any, is handled before the countdown advances. A collection
    /// that completes the requirement in the same frame the deadline would
    /// expire therefore resolves the session to a win, and the tick that
    /// follows is a no-op.
    pub fn frame(&mut self, pickup: Option<&File>, delta_ms: u64) -> (notices: Vec<Notice>)
        requires
            old(self).wf(),
        ensures
            final(self).wf(),
            final(self).required == old(self).required,
            final(self).deadline_ms == old(self).deadline_ms,
            old(self).terminal is Some ==> *final(self) == *old(self) && notices@ =~= Seq::<
                Notice,
            >::empty(),
            pickup is Some && old(self).terminal is None && old(self).files_collected < old(
                self,
            ).required ==> {
                &&& final(self).files_collected == old(self).files_collected + 1
                &&& (old(self).files_collected + 1 == old(self).required ==> {
                    // the win takes the tie: the countdown is not even advanced
                    &&& final(self).terminal == Some(Outcome::Win)
                    &&& final(self).elapsed_ms == old(self).elapsed_ms
                    &&& notices@ =~= seq![
                        Notice::FileCollected {
                            file: pickup->0.file,
                            sound: pickup->0.sound,
                            dialogue: pickup->0.dialogue,
                        },
                        Notice::W,
                    ]
                })
                &&& (old(self).files_collected + 1 < old(self).required ==> {
                    &&& final(self).elapsed_ms == saturated_ms(old(self).elapsed_ms, delta_ms)
                    &&& (final(self).elapsed_ms >= final(self).deadline_ms ==> final(self).terminal
                        == Some(Outcome::Lose) && notices@ =~= seq![
                        Notice::FileCollected {
                            file: pickup->0.file,
                            sound: pickup->0.sound,
                            dialogue: pickup->0.dialogue,
                        },
                        Notice::BigL,
                    ])
                    &&& (final(self).elapsed_ms < final(self).deadline_ms ==> final(self).terminal
                        is None && notices@ =~= seq![
                        Notice::FileCollected {
                            file: pickup->0.file,
                            sound: pickup->0.sound,
                            dialogue: pickup->0.dialogue,
                        },
                    ])
                })
            },
            old(self).terminal is None && (pickup is None || old(self).files_collected >= old(
                self,
            ).required) ==> {
                &&& final(self).files_collected == old(self).files_collected
                &&& final(self).elapsed_ms == saturated_ms(old(self).elapsed_ms, delta_ms)
                &&& (final(self).elapsed_ms >= final(self).deadline_ms ==> final(self).terminal
                    == Some(Outcome::Lose) && notices@ =~= seq![Notice::BigL])
                &&& (final(self).elapsed_ms < final(self).deadline_ms ==> final(self).terminal
                    is None && notices@ =~= Seq::<Notice>::empty())
            },
    {
        let mut notices: Vec<Notice> = match pickup {
            Some(item) => self.register_collection(item),
            None => Vec::new(),
        };
        let mut late = self.tick(delta_ms);
        notices.append(&mut late);
        notices
    }
}

/// A millisecond sum that saturates at the largest representable duration.
pub open spec fn saturated_ms(elapsed: u64, delta: u64) -> int {
    if elapsed + delta <= u64::MAX {
        elapsed + delta
    } else {
        u64::MAX as int
    }
}

/// The ending screen an outcome resolves to: its headline, its fade-in, the
/// looping alarm that accompanies a win, and the directive that suspends
/// player control for the rest of the session.
pub struct Ending {
    pub text: &'static str,
    pub fade_in_ms: u64,
    pub audio: Option<AudioCue>,
    pub control: PlayerControl,
}

/// The resolution handler: maps the terminal outcome to its ending screen.
/// Either way the player loses control; a win additionally sounds the siren.
pub fn resolve_outcome(outcome: Outcome) -> (e: Ending)
    ensures
        e.control is DisablePlayer,
        e.fade_in_ms == 1500,
        outcome is Win ==> e.text@ == "Du Wurdest Verepp-elt"@ && cue_is(
            e.audio,
            "siren.ogg"@,
            true,
        ),
        outcome is Lose ==> e.text@ == "Du Wurdest Gestein-Rolled"@ && e.audio is None,
{
    match outcome {
        Outcome::Win => Ending {
            text: "Du Wurdest Verepp-elt",
            fade_in_ms: 1500,
            audio: Some(AudioCue { path: "siren.ogg", looping: true }),
            control: PlayerControl::DisablePlayer,
        },
        Outcome::Lose => Ending {
            text: "Du Wurdest Gestein-Rolled",
            fade_in_ms: 1500,
            audio: None,
            control: PlayerControl::DisablePlayer,
        },
    }
}

/// Splits a number of seconds into whole minutes and leftover seconds, for
/// the "finished in MM:SS" line of the credits screen.
pub fn split_minutes(total_secs: u64) -> (r: (u64, u64))
    ensures
        r.0 == total_secs / 60,
        r.1 == total_secs % 60,
        r.1 < 60,
        r.0 * 60 + r.1 == total_secs,
{
    proof {
        vstd::arithmetic::div_mod::lemma_fundamental_div_mod(total_secs as int, 60);
    }
    (total_secs / 60, total_secs % 60)
}

} // verus!
