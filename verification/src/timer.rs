//! A countdown measured in simulated seconds.
use vstd::prelude::*;
use crate::fixed::Fixed;
use crate::fixed::SCALE;

verus! {

/// Counts elapsed time up to a duration, once or again and again.
#[derive(Clone, Copy, Debug, PartialEq, Eq, Structural)]
pub struct Timer {
    /// Time counted so far.
    pub elapsed: Fixed,
    /// Time after which the timer is finished.
    pub duration: Fixed,
    /// The timer starts over when it finishes.
    pub repeating: bool,
    /// The duration was reached at the last tick.
    pub finished: bool,
}

impl Timer {
    /// A fresh timer of `duration` seconds.
    pub fn from_seconds(duration: Fixed, repeating: bool) -> (t: Timer)
        ensures
            t == (Timer { elapsed: Fixed { raw: 0 }, duration, repeating, finished: false }),
    {
        Timer { elapsed: Fixed { raw: 0 }, duration, repeating, finished: false }
    }

    /// The timer after `delta` more seconds. A timer that runs once and has
    /// finished stays as it is. A negative `delta` counts as none. On
    /// reaching its duration, a timer that runs once stops there; one that
    /// repeats keeps what is left over after whole rounds.
    pub open spec fn ticked(self, delta: Fixed) -> Timer {
        if !self.repeating && self.finished {
            self
        } else {
            let step = if delta@ < 0 {
                Fixed { raw: 0 }
            } else {
                delta
            };
            let elapsed = self.elapsed.plus(step);
            if elapsed@ < self.duration@ {
                Timer { elapsed, finished: false, ..self }
            } else if self.repeating && self.duration@ > 0 {
                Timer { elapsed: Fixed::of(elapsed@ % self.duration@), finished: true, ..self }
            } else {
                Timer { elapsed: self.duration, finished: true, ..self }
            }
        }
    }

    /// Advances the timer by `delta` seconds.
    pub fn tick(&mut self, delta: Fixed)
        ensures
            *final(self) == old(self).ticked(delta),
    {
        if !self.repeating && self.finished {
            return ;
        }
        let step: Fixed = if delta.raw < 0 {
            Fixed { raw: 0 }
        } else {
            delta
        };
        let elapsed: Fixed = self.elapsed.plus(step);
        if elapsed.raw < self.duration.raw {
            self.elapsed = elapsed;
            self.finished = false;
        } else if self.repeating && self.duration.raw > 0 {
            self.elapsed = Fixed { raw: elapsed.raw % self.duration.raw };
            self.finished = true;
        } else {
            self.elapsed = self.duration;
            self.finished = true;
        }
    }

    /// Starts the timer over.
    pub fn reset(&mut self)
        ensures
            *final(self) == (Timer { elapsed: Fixed { raw: 0 }, finished: false, ..*old(self) }),
    {
        self.elapsed = Fixed { raw: 0 };
        self.finished = false;
    }

    /// The share of the duration that is still to run, as a value: one
    /// minus elapsed over duration, and nothing for a timer without duration.
    pub open spec fn spec_percent_left(&self) -> Fixed {
        if self.duration@ == 0 {
            Fixed { raw: 0 }
        } else {
            (Fixed { raw: SCALE }).minus(self.elapsed.spec_over(self.duration))
        }
    }

    /// The share of the duration that is still to run.
    #[verifier::when_used_as_spec(spec_percent_left)]
    pub fn percent_left(&self) -> (p: Fixed)
        ensures
            p == self.spec_percent_left(),
    {
        match self.elapsed.over(self.duration) {
            None => Fixed { raw: 0 },
            Some(share) => (Fixed { raw: SCALE }).minus(share),
        }
    }
}

} // verus!
