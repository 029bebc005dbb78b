use vstd::prelude::*;

verus! {

/// A one-shot timer counted in nanoseconds. It accumulates elapsed time up to
/// its duration and is finished once the duration has been reached; it stays
/// finished until it is reset.
#[derive(Clone, Copy, Debug, PartialEq, Eq, Structural)]
pub struct Cooldown {
    pub elapsed: u64,
    pub duration: u64,
}

impl Cooldown {
    /// Elapsed time never runs past the duration.
    pub open spec fn wf(self) -> bool {
        self.elapsed <= self.duration
    }

    /// Elapsed time after advancing by `delta`: it saturates at the duration.
    pub open spec fn elapsed_after(self, delta: nat) -> nat {
        if self.elapsed + delta >= self.duration {
            self.duration as nat
        } else {
            (self.elapsed + delta) as nat
        }
    }

    pub open spec fn is_finished(self) -> bool {
        self.elapsed >= self.duration
    }

    /// A freshly armed timer of the given duration.
    pub fn once(duration: u64) -> (r: Cooldown)
        ensures
            r.elapsed == 0,
            r.duration == duration,
            r.wf(),
    {
        Cooldown { elapsed: 0, duration }
    }

    /// Advances the timer by `delta` nanoseconds.
    pub fn tick(&mut self, delta: u64)
        requires
            old(self).wf(),
        ensures
            final(self).elapsed == old(self).elapsed_after(delta as nat),
            final(self).duration == old(self).duration,
            final(self).wf(),
    {
        if delta >= self.duration - self.elapsed {
            self.elapsed = self.duration;
        } else {
            self.elapsed = self.elapsed + delta;
        }
    }

    /// Whether the duration has been reached.
    pub fn finished(&self) -> (r: bool)
        ensures
            r == self.is_finished(),
    {
        self.elapsed >= self.duration
    }

    /// Re-arms the timer: elapsed time goes back to zero.
    pub fn reset(&mut self)
        ensures
            final(self).elapsed == 0,
            final(self).duration == old(self).duration,
            final(self).wf(),
    {
        self.elapsed = 0;
    }
}

} // verus!
