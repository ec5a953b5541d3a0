//! Lengths of time.
use vstd::prelude::*;
use std::time::Duration;

verus! {

/// The length of a duration in nanoseconds.
pub uninterp spec fn nanos(d: Duration) -> nat;

/// The text that a duration shows for debugging, such as `30s`.
pub uninterp spec fn duration_debug(d: Duration) -> Seq<char>;

/// `Duration::from_secs` gives the duration of a number of whole seconds.
pub assume_specification[ Duration::from_secs ](secs: u64) -> (r: Duration)
    ensures
        nanos(r) == secs * 1_000_000_000,
;

/// `Duration::saturating_sub` gives the difference, and no time where it would be negative.
pub assume_specification[ Duration::saturating_sub ](a: Duration, b: Duration) -> (r: Duration)
    ensures
        nanos(r) == if nanos(a) >= nanos(b) {
            nanos(a) - nanos(b)
        } else {
            0
        },
;

/// `Duration::is_zero` tells whether a duration spans no time.
pub assume_specification[ Duration::is_zero ](d: &Duration) -> (r: bool)
    ensures
        r == (nanos(*d) == 0),
;

/// `Debug` of a duration.
#[verifier::external_body]
pub(crate) fn debug_text(d: &Duration) -> (r: String)
    ensures
        r@ == duration_debug(*d),
{
    format!("{d:?}")
}

/// A wait with one deadline: it begins with the first turn, and no later turn moves it.
pub struct Timer {
    /// How long the wait lasts.
    pub limit: Duration,
    /// When it began, by the clock of whoever waits.
    pub started: Option<Duration>,
}

/// How much of one time is left after another.
pub open spec fn rest(whole: nat, gone: nat) -> nat {
    if whole >= gone {
        (whole - gone) as nat
    } else {
        0
    }
}

impl Timer {
    /// A wait that has not begun.
    pub fn new(limit: Duration) -> (r: Timer)
        ensures
            r.limit == limit,
            r.started is None,
    {
        Timer { limit, started: None }
    }

    /// When the wait began, if a turn begins now.
    pub open spec fn start(&self, now: Duration) -> Duration {
        match self.started {
            Some(t) => t,
            None => now,
        }
    }

    /// The time that a turn may take which begins when the clock shows `now`, or nothing where
    /// the deadline has passed.
    pub fn left(&mut self, now: Duration) -> (r: Option<Duration>)
        ensures
            final(self).limit == old(self).limit,
            final(self).started == Some(old(self).start(now)),
            ({
                let left = rest(
                    nanos(old(self).limit),
                    rest(nanos(now), nanos(old(self).start(now))),
                );
                match r {
                    Some(d) => nanos(d) == left && left > 0,
                    None => left == 0,
                }
            }),
    {
        let start: Duration = match self.started {
            Some(t) => t,
            None => now,
        };
        self.started = Some(start);
        let left: Duration = self.limit.saturating_sub(now.saturating_sub(start));
        if left.is_zero() {
            None
        } else {
            Some(left)
        }
    }
}

/// What is left and what is gone make the whole, until nothing is left.
pub proof fn law_rest(whole: nat, gone: nat)
    ensures
        gone <= whole ==> rest(whole, gone) + gone == whole,
        gone >= whole ==> rest(whole, gone) == 0,
{
}

/// A wait begins with its first turn and keeps that beginning.
pub proof fn law_wait_begins_once(t: Timer, now: Duration)
    ensures
        t.started is None ==> t.start(now) == now,
        t.started matches Some(s) ==> t.start(now) == s,
{
}

} // verus!
