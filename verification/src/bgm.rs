use vstd::prelude::*;

use crate::player::Audio;

verus! {

/// The background-music switcher: a zero-capacity handoff to one worker that
/// pauses the current track, plays the replacement and resumes.  `ready`
/// holds exactly when the worker is blocked waiting on the handoff, so a
/// push succeeds only then: while one track change is in flight, further
/// pushes are rejected rather than queued.
#[derive(Clone, Copy, Debug, PartialEq, Eq, Structural)]
pub struct BGM {
    pub started: bool,
    pub ready: bool,
}

/// The state and verdict after one push: accepted only when the worker was
/// waiting, in which case it is busy until it reports ready again.
pub open spec fn push_spec(b: BGM) -> (BGM, bool) {
    if b.started && b.ready {
        (BGM { ready: false, ..b }, true)
    } else {
        (b, false)
    }
}

/// The state after the worker reports it is waiting on the handoff again.
pub open spec fn ready_spec(b: BGM) -> BGM {
    BGM { ready: true, ..b }
}

impl BGM {
    pub fn new() -> (r: Self)
        ensures
            !r.started,
            !r.ready,
    {
        BGM { started: false, ready: false }
    }

    /// Starts the worker on its initial looping track.  The worker takes no
    /// handoff until it first reports ready.
    pub fn start(&mut self, audio: &Audio)
        requires
            !old(self).started,
        ensures
            final(self).started,
            !final(self).ready,
    {
        self.started = true;
        self.ready = false;
    }

    /// Offers a replacement track through the zero-capacity handoff: it is
    /// accepted only when the worker is waiting for one, and rejected — with
    /// nothing queued and nothing changed — otherwise.
    pub fn push(&mut self, audio: &Audio) -> (accepted: bool)
        ensures
            (*final(self), accepted) == push_spec(*old(self)),
    {
        if self.started && self.ready {
            self.ready = false;
            true
        } else {
            false
        }
    }

    /// The worker reports that it finished a track change and is blocked on
    /// the handoff again.
    pub fn worker_ready(&mut self)
        requires
            old(self).started,
        ensures
            *final(self) == ready_spec(*old(self)),
    {
        self.ready = true;
    }
}

/// Backpressure shedding: while the worker is busy with one accepted track
/// change, a further push is rejected and changes nothing; once the worker
/// reports ready, the next push is accepted.
pub proof fn lemma_push_backpressure(b: BGM)
    requires
        b.started,
        b.ready,
    ensures
        ({
            let (b1, acc1) = push_spec(b);
            acc1 && !push_spec(b1).1 && push_spec(b1).0 == b1 && push_spec(ready_spec(b1)).1
        }),
{
}

} // verus!
