//! The Deferred-Execution Envelope: a call-once, thread-transferable
//! wrapper used to inject work into the loop thread from elsewhere.

use vstd::prelude::*;

use crate::dispatch::Core;

verus! {

/// A single-invocation unit of work handed to the loop thread.
///
/// `consume` takes the payload by value, so one payload value can run
/// at most once; implementations are supplied by callers and run
/// unverified, with mutable access to the core and the reactor.
pub trait Payload<S, R>: Sized {
    /// Run the unit of work on the loop thread.
    fn consume(self, core: &mut Core<S>, reactor: &mut R);
}

/// Wraps a payload so that a repeatable invocation interface runs it at
/// most once: the payload sits in an optional holder that is emptied on
/// the first invocation, and an invocation that finds the holder empty
/// is a silent no-op.
pub struct Closure<P> {
    payload: Option<P>,
}

/// The type of messages passed to the core from other threads.
pub type CoreMessage<P> = Closure<P>;

impl<P> Closure<P> {
    /// The holder's contents: the payload until the first invocation,
    /// nothing afterwards.
    pub closed spec fn spec_payload(self) -> Option<P> {
        self.payload
    }

    /// Whether the payload is still waiting to run.
    pub open spec fn spec_armed(self) -> bool {
        self.spec_payload() is Some
    }

    /// Create a new `Closure` holding `f`.
    pub fn new(f: P) -> (envelope: Closure<P>)
        ensures
            envelope.spec_payload() == Some(f),
    {
        Closure { payload: Some(f) }
    }

    /// Run the payload if it has not run yet; otherwise do nothing.
    ///
    /// The first invocation consumes the payload, whose effect on the
    /// core and the reactor is caller-supplied code the library promises
    /// nothing about.  Every invocation leaves the holder empty, and an
    /// invocation of an empty envelope changes nothing at all.
    pub fn invoke<S, R>(&mut self, core: &mut Core<S>, reactor: &mut R) where P: Payload<S, R>
        ensures
            spec_invoke_transition(*old(self), *final(self)),
            !old(self).spec_armed() ==> *final(core) == *old(core) && *final(reactor) == *old(
                reactor,
            ),
    {
        match self.payload.take() {
            Some(f) => f.consume(core, reactor),
            None => (),
        }
    }
}

/// The holder transition `invoke` makes: afterwards the holder is
/// always empty, and an already-empty envelope is left unchanged.
pub open spec fn spec_invoke_transition<P>(before: Closure<P>, after: Closure<P>) -> bool {
    &&& after.spec_payload() is None
    &&& !before.spec_armed() ==> after == before
}

/// A Deferred-Execution Envelope runs its payload at most once: an
/// invocation that found the payload present leaves the holder empty,
/// so a second invocation finds nothing to run and changes nothing.
pub proof fn lemma_envelope_runs_payload_at_most_once<P>(
    before: Closure<P>,
    mid: Closure<P>,
    after: Closure<P>,
)
    requires
        spec_invoke_transition(before, mid),
        spec_invoke_transition(mid, after),
    ensures
        !mid.spec_armed(),
        after == mid,
{
}

} // verus!
