use vstd::prelude::*;
use crate::errors::EinkError;

verus! {

/// What one busy-line reading means for a bounded wait.
#[derive(Clone, Copy, Debug, PartialEq, Eq, Structural)]
pub enum BusyOutcome {
    /// The line showed the target level; the wait is over.
    Satisfied,
    /// Not the target level yet; poll again after the poll interval.
    KeepWaiting,
    /// The poll budget is spent without ever seeing the target level.
    TimedOut,
}

/// A bounded busy-line wait.  An unbounded poll loop can hang forever on a
/// stuck panel; this machine spends one poll per reading and reports a
/// timeout instead of blocking indefinitely.  The executor reads the line,
/// feeds the reading to `observe`, and sleeps the poll interval between
/// readings.
#[derive(Clone, Copy, Debug, PartialEq, Eq, Structural)]
pub struct BusyWait {
    pub target: bool,
    pub polls_left: u32,
}

impl BusyWait {
    pub fn new(target: bool, max_polls: u32) -> (r: BusyWait)
        requires
            max_polls >= 1,
        ensures
            r.target == target,
            r.polls_left == max_polls,
    {
        BusyWait { target, polls_left: max_polls }
    }

    /// Feeds one reading of the busy line to the wait.
    pub fn observe(&mut self, reading: bool) -> (r: BusyOutcome)
        requires
            old(self).polls_left >= 1,
        ensures
            final(self).target == old(self).target,
            reading == old(self).target ==> r == BusyOutcome::Satisfied && final(self).polls_left
                == old(self).polls_left,
            reading != old(self).target && old(self).polls_left > 1 ==> r
                == BusyOutcome::KeepWaiting && final(self).polls_left == old(self).polls_left - 1,
            reading != old(self).target && old(self).polls_left == 1 ==> r == BusyOutcome::TimedOut
                && final(self).polls_left == 0,
    {
        if reading == self.target {
            BusyOutcome::Satisfied
        } else {
            self.polls_left = self.polls_left - 1;
            if self.polls_left == 0 {
                BusyOutcome::TimedOut
            } else {
                BusyOutcome::KeepWaiting
            }
        }
    }
}

/// Drives a bounded busy-wait over a recorded trace of line readings, as
/// the live executor drives it over the line itself: reading `k` is what
/// the line showed at poll `k`.  Returns the index of the first poll that
/// observed the target level, or `HardwareTimeout` after exactly
/// `max_polls` polls none of which observed it.
pub fn wait_busy_trace(target: bool, max_polls: u32, readings: &Vec<bool>) -> (r: Result<
    u32,
    EinkError,
>)
    requires
        1 <= max_polls,
        readings@.len() >= max_polls,
    ensures
        r matches Ok(i) ==> i < max_polls && readings@[i as int] == target && forall|j: int|
            0 <= j < i ==> readings@[j] != target,
        r matches Err(e) ==> e == EinkError::HardwareTimeout && forall|j: int|
            0 <= j < max_polls ==> readings@[j] != target,
{
    let mut wait = BusyWait::new(target, max_polls);
    let mut k: u32 = 0;
    while k < max_polls
        invariant
            wait.target == target,
            wait.polls_left == max_polls - k,
            k <= max_polls,
            readings@.len() >= max_polls,
            forall|j: int| 0 <= j < k ==> readings@[j] != target,
        decreases max_polls - k,
    {
        let reading = readings[k as usize];
        match wait.observe(reading) {
            BusyOutcome::Satisfied => {
                return Ok(k);
            },
            _ => {
                k = k + 1;
            },
        }
    }
    Err(EinkError::HardwareTimeout)
}

} // verus!
