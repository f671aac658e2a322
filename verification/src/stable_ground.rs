//! Stable-ground sampling and fall recovery for a controlled body.
//!
//! Two cooperating per-tick procedures over the body's physics outputs: the
//! sampler remembers where the body last stood on level ground, and the fall
//! watchdog teleports it back to the most recent such position after a
//! prolonged fall near terminal velocity.
//!
//! Physics readings arrive as fixed-point integers: positions in millimetres,
//! the contact normal's vertical component in units of [`NORMAL_UNIT`], and
//! speeds in millimetres per second.

use vstd::prelude::*;

verus! {

/// A position in world space, in fixed-point millimetres per axis.
#[derive(Clone, Copy, PartialEq, Eq, Structural, Debug)]
pub struct Pos {
    pub x: i64,
    pub y: i64,
    pub z: i64,
}

/// The fixed-point scale of a contact normal's vertical component: this value
/// stands for a component of exactly one, straight up.
pub const NORMAL_UNIT: i64 = 1_000_000_000;

/// How far the vertical component may deviate from straight up and still
/// count as stable ground: the machine epsilon of a single-precision float,
/// in units of [`NORMAL_UNIT`]. Without this slack a level floor would almost
/// never qualify, since the physics engine reports components minutely below
/// one.
pub const NORMAL_EPSILON: i64 = 119;

/// How many stable samples the history keeps, newest first.
pub const HISTORY_CAP: usize = 5;

/// How long a body must fall near terminal velocity before it is recovered.
pub const FALL_THRESHOLD_MS: u64 = 5000;

/// The speed-fraction tolerance, in parts per million: a body whose vertical
/// speed is within this fraction of its maximum speed counts as being in a
/// sustained fall. Terminal velocity is only approached asymptotically, so
/// waiting for the fraction to reach zero would take far longer than
/// expected.
pub const SPEED_TOLERANCE_PPM: u64 = 10_000;

/// The vertical component of a grounded-contact normal, in units of
/// [`NORMAL_UNIT`].
#[derive(Clone, Copy, PartialEq, Eq, Structural, Debug)]
pub struct GroundNormal {
    pub up: i64,
}

impl GroundNormal {
    /// A surface normal is a unit vector, so its vertical component lies
    /// between minus one and one.
    pub open spec fn wf(self) -> bool {
        -NORMAL_UNIT <= self.up <= NORMAL_UNIT
    }
}

/// Whether a contact surface counts as stable ground: its normal's vertical
/// component deviates from straight up by at most [`NORMAL_EPSILON`].
pub open spec fn stable_normal(n: GroundNormal) -> bool {
    -NORMAL_EPSILON <= NORMAL_UNIT - n.up <= NORMAL_EPSILON
}

/// Whether a body falls near terminal velocity: its speed fraction
/// `1 - vertical_speed / max_speed` is at most [`SPEED_TOLERANCE_PPM`] parts
/// per million. A body with no maximum speed has no terminal velocity to
/// approach.
pub open spec fn near_terminal_velocity(vertical_speed: u64, max_speed: u64) -> bool {
    max_speed > 0 && (vertical_speed >= max_speed || (max_speed - vertical_speed) * 1_000_000
        <= SPEED_TOLERANCE_PPM * max_speed)
}

/// A stable sample pushed onto the front of a history, truncated from the
/// back to [`HISTORY_CAP`] entries.
pub open spec fn push_sample(p: Pos, h: Seq<Pos>) -> Seq<Pos> {
    if h.len() < HISTORY_CAP {
        seq![p] + h
    } else {
        (seq![p] + h).take(HISTORY_CAP as int)
    }
}

/// The fall watchdog's observable state.
#[derive(Clone, Copy, PartialEq, Eq, Structural, Debug)]
pub enum FallState {
    /// The body is not in a sustained fall.
    Stable,
    /// The body has been falling near terminal velocity; the fall timer is
    /// accumulating.
    Falling,
    /// The fall threshold was reached and the body was teleported back to a
    /// stable sample.
    Recovered,
}

/// What one watchdog tick did.
pub enum RecoveryOutcome {
    /// The fall threshold has not been reached; nothing to do.
    NoRecovery,
    /// The body fell long enough: set its position to the carried sample.
    Recovered(Pos),
    /// The body fell long enough but no stable sample is available; recovery
    /// is skipped, the body stays where it is, and the caller should log a
    /// warning.
    SkippedEmptyHistory,
}

/// Per-body recovery state: the bounded history of stable positions, newest
/// first, and the watchdog timer that accumulates while the body falls near
/// terminal velocity.
pub struct StableGround {
    pub previous: Vec<Pos>,
    pub fall_timer_ms: u64,
    pub state: FallState,
}

impl StableGround {
    /// The history never holds more than [`HISTORY_CAP`] samples.
    pub open spec fn wf(self) -> bool {
        self.previous@.len() <= HISTORY_CAP
    }

    /// One sampler tick. If the body stands on a grounded contact whose
    /// normal is within [`NORMAL_EPSILON`] of straight up, the current
    /// position goes to the front of the history and the oldest entries
    /// beyond [`HISTORY_CAP`] are dropped; otherwise nothing changes.
    pub fn calculate_stable_ground(&mut self, contact: Option<GroundNormal>, position: Pos)
        requires
            old(self).wf(),
            contact matches Some(n) ==> n.wf(),
        ensures
            final(self).wf(),
            final(self).fall_timer_ms == old(self).fall_timer_ms,
            final(self).state == old(self).state,
            contact is None ==> *final(self) == *old(self),
            contact matches Some(n) && !stable_normal(n) ==> *final(self) == *old(self),
            contact matches Some(n) && stable_normal(n) ==> final(self).previous@ =~= push_sample(
                position,
                old(self).previous@,
            ),
    {
        let n = match contact {
            Some(n) => n,
            None => {
                return ;
            },
        };
        let diff: i64 = NORMAL_UNIT - n.up;
        if -NORMAL_EPSILON <= diff && diff <= NORMAL_EPSILON {
            self.previous.insert(0, position);
            while self.previous.len() > HISTORY_CAP
                invariant
                    self.fall_timer_ms == old(self).fall_timer_ms,
                    self.state == old(self).state,
                    self.previous@.len() <= old(self).previous@.len() + 1,
                    self.previous@.len() >= HISTORY_CAP || self.previous@.len() == old(
                        self,
                    ).previous@.len() + 1,
                    self.previous@ =~= (seq![position] + old(self).previous@).take(
                        self.previous@.len() as int,
                    ),
                decreases self.previous@.len(),
            {
                self.previous.pop();
            }
        }
    }

    /// One watchdog tick. While the body falls near terminal velocity the
    /// fall timer accumulates (saturating); any other reading resets it and
    /// returns the state to stable. Once the accumulated fall reaches
    /// [`FALL_THRESHOLD_MS`], the most recent stable sample is popped and
    /// returned as the position to restore — only the position: the velocity
    /// is deliberately left untouched, and the timer is not reset, so a body
    /// that keeps falling can trigger recovery again on a later tick. With no
    /// sample at hand recovery is skipped and the body stays displaced.
    pub fn apply_last_stable_ground(
        &mut self,
        vertical_speed: u64,
        max_speed: u64,
        delta_ms: u64,
    ) -> (r: RecoveryOutcome)
        requires
            old(self).wf(),
        ensures
            final(self).wf(),
            !near_terminal_velocity(vertical_speed, max_speed) ==> {
                &&& final(self).fall_timer_ms == 0
                &&& final(self).state is Stable
                &&& final(self).previous@ == old(self).previous@
                &&& r is NoRecovery
            },
            near_terminal_velocity(vertical_speed, max_speed) ==> {
                &&& final(self).fall_timer_ms == if old(self).fall_timer_ms + delta_ms
                    <= u64::MAX {
                    old(self).fall_timer_ms + delta_ms
                } else {
                    u64::MAX as int
                }
                &&& (final(self).fall_timer_ms < FALL_THRESHOLD_MS ==> {
                    &&& r is NoRecovery
                    &&& final(self).state is Falling
                    &&& final(self).previous@ == old(self).previous@
                })
                &&& (final(self).fall_timer_ms >= FALL_THRESHOLD_MS && old(
                    self,
                ).previous@.len() > 0 ==> {
                    &&& r == RecoveryOutcome::Recovered(old(self).previous@[0])
                    &&& final(self).state is Recovered
                    &&& final(self).previous@ == old(self).previous@.drop_first()
                })
                &&& (final(self).fall_timer_ms >= FALL_THRESHOLD_MS && old(
                    self,
                ).previous@.len() == 0 ==> {
                    &&& r is SkippedEmptyHistory
                    &&& final(self).state is Falling
                    &&& final(self).previous@ == old(self).previous@
                })
            },
    {
        let near: bool = if max_speed == 0 {
            false
        } else if vertical_speed >= max_speed {
            true
        } else {
            proof {
                vstd::arithmetic::mul::lemma_mul_upper_bound(
                    SPEED_TOLERANCE_PPM as int,
                    u64::MAX as int,
                    max_speed as int,
                    u64::MAX as int,
                );
            }
            ((max_speed - vertical_speed) as u128) * 1_000_000 <= (SPEED_TOLERANCE_PPM as u128) * (
            max_speed as u128)
        };
        if !near {
            self.fall_timer_ms = 0;
            self.state = FallState::Stable;
            return RecoveryOutcome::NoRecovery;
        }
        self.fall_timer_ms = match self.fall_timer_ms.checked_add(delta_ms) {
            Some(sum) => sum,
            None => u64::MAX,
        };
        if self.fall_timer_ms >= FALL_THRESHOLD_MS {
            if self.previous.len() > 0 {
                let p = self.previous.remove(0);
                self.state = FallState::Recovered;
                return RecoveryOutcome::Recovered(p);
            }
            self.state = FallState::Falling;
            return RecoveryOutcome::SkippedEmptyHistory;
        }
        self.state = FallState::Falling;
        RecoveryOutcome::NoRecovery
    }
}

impl Default for StableGround {
    /// An empty history, an idle fall timer, a stable watchdog.
    fn default() -> (s: StableGround)
        ensures
            s.wf(),
            s.previous@ =~= Seq::<Pos>::empty(),
            s.fall_timer_ms == 0,
            s.state is Stable,
    {
        StableGround { previous: Vec::new(), fall_timer_ms: 0, state: FallState::Stable }
    }
}

/// The most recent of a sequence of pushed samples, newest first, at most
/// [`HISTORY_CAP`] of them.
pub open spec fn recent_history(pushes: Seq<Pos>) -> Seq<Pos> {
    if pushes.len() <= HISTORY_CAP {
        pushes.reverse()
    } else {
        pushes.reverse().take(HISTORY_CAP as int)
    }
}

/// Law: after any sequence of stable-sample pushes the history holds exactly
/// the most recent pushes, newest first, never more than [`HISTORY_CAP`] of
/// them. One push (as [`StableGround::calculate_stable_ground`] performs it,
/// front insertion plus truncation) carries that shape from any push sequence
/// to the sequence extended by the pushed sample; by induction from the empty
/// history it holds after every sequence.
pub proof fn lemma_history_keeps_recent(pushes: Seq<Pos>, p: Pos)
    ensures
        push_sample(p, recent_history(pushes)) =~= recent_history(pushes.push(p)),
        recent_history(pushes.push(p)).len() <= HISTORY_CAP,
        recent_history(pushes.push(p))[0] == p,
{
}

} // verus!
