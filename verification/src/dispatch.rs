//! The event-loop core: identifier generation, the registry from tokens
//! to contexts to state handles, and event dispatch.

use std::cell::RefCell;
use std::collections::HashMap;
use std::rc::Rc;

use vstd::prelude::*;

use crate::envelope::{CoreMessage, Payload};
use crate::handle::{clone_handle, invoke_ready, invoke_terminate, invoke_timeout};

verus! {

broadcast use vstd::std_specs::hash::group_hash_axioms;

/// Identifies one registered I/O resource.  Tokens are normally issued
/// by the external reactor; the core mirrors the scheme with its own
/// counter when it must mint tokens ahead of reactor registration.
#[derive(Hash, Eq, PartialEq, Ord, PartialOrd, Copy, Clone, Debug, Structural)]
pub struct Token(pub usize);

/// Identifies one logical unit of work.  A context stays stable for the
/// lifetime of its unit even if the underlying resource token changes.
#[derive(Hash, Eq, PartialEq, Ord, PartialOrd, Copy, Clone, Debug, Structural)]
pub struct Context(pub usize);

/// Readiness mask delivered by the reactor.  The core never interprets
/// its bits; it only forwards them to the resolved state.
#[derive(Eq, PartialEq, Copy, Clone, Debug, Structural)]
pub struct EventSet(pub usize);

/// A shared, mutable-in-place handle to a state object.  The same unit
/// may be referenced both by the registry and by other holders; only
/// the single loop thread ever calls into it.
pub type StateHandle<S> = Rc<RefCell<S>>;

/// Capability interface of one pluggable unit of protocol logic.
///
/// Implementations are supplied by callers and run unverified: the core
/// promises nothing about what an invocation does, and an invocation
/// may re-enter the core to mutate the registry or mint identifiers.
/// `R` is the reactor handle forwarded to every capability.
pub trait State<R>: Sized {
    /// Deliver an I/O-readiness notification.
    fn ready(&mut self, core: &mut Core<Self>, reactor: &mut R, token: Token, events: EventSet);

    /// Deliver a timer expiry.
    fn timeout(&mut self, core: &mut Core<Self>, reactor: &mut R, token: Token);

    /// Give the unit a chance to deregister its resources before it is
    /// dropped from the registry by its own logic.
    fn terminate(&mut self, core: &mut Core<Self>, reactor: &mut R);
}

/// The core of the event loop: two identifier counters and the two
/// registry tables.
#[verifier::reject_recursive_types(S)]
pub struct Core<S> {
    token_counter: usize,
    context_counter: usize,
    contexts: HashMap<usize, Context>,
    states: HashMap<usize, StateHandle<S>>,
}

impl<S> Core<S> {
    /// Value the next minted token will carry.
    pub closed spec fn spec_token_counter(self) -> usize {
        self.token_counter
    }

    /// Value the next minted context will carry.
    pub closed spec fn spec_context_counter(self) -> usize {
        self.context_counter
    }

    /// The token table: token value to bound context.
    pub closed spec fn token_map(self) -> Map<usize, Context> {
        self.contexts@
    }

    /// The state table: context value to bound state handle.
    pub closed spec fn state_map(self) -> Map<usize, StateHandle<S>> {
        self.states@
    }

    /// What looking a token up in the token table yields.
    pub open spec fn spec_resolve_token(self, token: Token) -> Option<Context> {
        if self.token_map().contains_key(token.0) {
            Some(self.token_map()[token.0])
        } else {
            None
        }
    }

    /// What looking a context up in the state table yields.
    pub open spec fn spec_resolve_context(self, context: Context) -> Option<StateHandle<S>> {
        if self.state_map().contains_key(context.0) {
            Some(self.state_map()[context.0])
        } else {
            None
        }
    }

    /// Both levels of the resolution protocol succeed for `token`: the
    /// token is bound to a context and that context is bound to a state.
    pub open spec fn spec_dispatchable(self, token: Token) -> bool {
        match self.spec_resolve_token(token) {
            Some(context) => self.state_map().contains_key(context.0),
            None => false,
        }
    }

    /// Create a new `Core` with both counters at zero and both tables
    /// empty.
    pub fn new() -> (core: Core<S>)
        ensures
            core.spec_token_counter() == 0,
            core.spec_context_counter() == 0,
            core.token_map() == Map::<usize, Context>::empty(),
            core.state_map() == Map::<usize, StateHandle<S>>::empty(),
    {
        Self::with_context_counter(0)
    }

    /// Construct a `Core` with the context counter initialized to the
    /// given value, so that the contexts it generates start from
    /// `context_counter`.  This allows a caller to preallocate a
    /// contiguous context range before construction.
    pub fn with_context_counter(context_counter: usize) -> (core: Core<S>)
        ensures
            core.spec_token_counter() == 0,
            core.spec_context_counter() == context_counter,
            core.token_map() == Map::<usize, Context>::empty(),
            core.state_map() == Map::<usize, StateHandle<S>>::empty(),
    {
        Core {
            token_counter: 0,
            context_counter: context_counter,
            contexts: HashMap::new(),
            states: HashMap::new(),
        }
    }

    /// Generate a new token: the counter's current value, after which
    /// the counter advances by one, wrapping silently on overflow.
    pub fn get_new_token(&mut self) -> (token: Token)
        ensures
            token.0 == old(self).spec_token_counter(),
            final(self).spec_token_counter() == wrap_inc(old(self).spec_token_counter()),
            final(self).spec_context_counter() == old(self).spec_context_counter(),
            final(self).token_map() == old(self).token_map(),
            final(self).state_map() == old(self).state_map(),
    {
        let next = Token(self.token_counter);
        self.token_counter = self.token_counter.wrapping_add(1);
        next
    }

    /// Generate a new context: the counter's current value, after which
    /// the counter advances by one, wrapping silently on overflow.
    /// Uniqueness rests on monotonic generation alone: the active
    /// context set is assumed never to grow large enough for a
    /// wraparound collision, and nothing enforces that assumption.
    pub fn get_new_context(&mut self) -> (context: Context)
        ensures
            context.0 == old(self).spec_context_counter(),
            final(self).spec_context_counter() == wrap_inc(old(self).spec_context_counter()),
            final(self).spec_token_counter() == old(self).spec_token_counter(),
            final(self).token_map() == old(self).token_map(),
            final(self).state_map() == old(self).state_map(),
    {
        let next = Context(self.context_counter);
        self.context_counter = self.context_counter.wrapping_add(1);
        next
    }

    /// Associate a token with a context, overwriting and returning any
    /// prior association.  The context need not be bound to a state:
    /// tokens may be pre-bound before their state is inserted.
    pub fn insert_context(&mut self, token: Token, context: Context) -> (previous: Option<Context>)
        ensures
            final(self).token_map() == old(self).token_map().insert(token.0, context),
            previous == old(self).spec_resolve_token(token),
            final(self).state_map() == old(self).state_map(),
            final(self).spec_token_counter() == old(self).spec_token_counter(),
            final(self).spec_context_counter() == old(self).spec_context_counter(),
    {
        self.contexts.insert(token.0, context)
    }

    /// Associate a context with its state handle, overwriting silently
    /// and returning any prior handle.
    pub fn insert_state(&mut self, context: Context, state: StateHandle<S>) -> (previous: Option<
        StateHandle<S>,
    >)
        ensures
            final(self).state_map() == old(self).state_map().insert(context.0, state),
            previous == old(self).spec_resolve_context(context),
            final(self).token_map() == old(self).token_map(),
            final(self).spec_token_counter() == old(self).spec_token_counter(),
            final(self).spec_context_counter() == old(self).spec_context_counter(),
    {
        self.states.insert(context.0, state)
    }

    /// Remove and return a token's association, or nothing if absent.
    pub fn remove_context(&mut self, token: Token) -> (previous: Option<Context>)
        ensures
            final(self).token_map() == old(self).token_map().remove(token.0),
            previous == old(self).spec_resolve_token(token),
            final(self).state_map() == old(self).state_map(),
            final(self).spec_token_counter() == old(self).spec_token_counter(),
            final(self).spec_context_counter() == old(self).spec_context_counter(),
    {
        self.contexts.remove(&token.0)
    }

    /// Remove and return a context's state handle, or nothing if
    /// absent.  Token entries pointing at the context are left alone:
    /// token cleanup is driven by reactor deregistration, not by
    /// context removal.
    pub fn remove_state(&mut self, context: Context) -> (previous: Option<StateHandle<S>>)
        ensures
            final(self).state_map() == old(self).state_map().remove(context.0),
            previous == old(self).spec_resolve_context(context),
            final(self).token_map() == old(self).token_map(),
            final(self).spec_token_counter() == old(self).spec_token_counter(),
            final(self).spec_context_counter() == old(self).spec_context_counter(),
    {
        self.states.remove(&context.0)
    }

    /// Look up the context bound to a token, without side effects.
    pub fn get_context(&self, token: Token) -> (context: Option<Context>)
        ensures
            context == self.spec_resolve_token(token),
    {
        match self.contexts.get(&token.0) {
            Some(context) => Some(*context),
            None => None,
        }
    }

    /// Look up the state handle bound to a context, without side
    /// effects.  The returned handle shares the registered state.
    pub fn get_state(&self, context: Context) -> (state: Option<StateHandle<S>>)
        ensures
            state == self.spec_resolve_context(context),
    {
        match self.states.get(&context.0) {
            Some(handle) => Some(clone_handle(handle)),
            None => None,
        }
    }

    /// Invoke the terminal capability of the state bound to `context`,
    /// giving the unit a chance to deregister its resources.  The core
    /// itself removes nothing: dropping the entry is the state's own
    /// responsibility.  If the context has no bound state, nothing
    /// happens at all.
    pub fn terminate_state<R>(&mut self, reactor: &mut R, context: Context) where S: State<R>
        ensures
            old(self).spec_resolve_context(context) is None ==> *final(self) == *old(self)
                && *final(reactor) == *old(reactor),
    {
        if let Some(state) = self.get_state(context) {
            invoke_terminate(&state, self, reactor);
        }
    }

    /// Deliver an I/O-readiness notification: resolve the token to a
    /// context and the context to a state, then invoke the state's
    /// readiness capability with the token and the mask.  A miss at
    /// either level is a no-op, never a fault: stale events for
    /// deregistered resources are silently dropped.
    pub fn ready<R>(&mut self, reactor: &mut R, token: Token, events: EventSet) where S: State<R>
        ensures
            !old(self).spec_dispatchable(token) ==> *final(self) == *old(self) && *final(reactor)
                == *old(reactor),
    {
        let resolved = match self.get_context(token) {
            Some(context) => self.get_state(context),
            None => None,
        };
        match resolved {
            Some(state) => invoke_ready(&state, self, reactor, token, events),
            None => (),
        }
    }

    /// Invoke a deferred-execution envelope sent from another thread.
    /// This path does not use the registry: the envelope already
    /// captures everything it needs.  An envelope whose payload has
    /// already run changes nothing.
    pub fn notify<R, P: Payload<S, R>>(&mut self, reactor: &mut R, msg: CoreMessage<P>)
        ensures
            !msg.spec_armed() ==> *final(self) == *old(self) && *final(reactor) == *old(reactor),
    {
        let mut envelope = msg;
        envelope.invoke(self, reactor);
    }

    /// Deliver a timer expiry: the token carries the timer identity and
    /// the same resolution path as readiness is used.  A miss at either
    /// level is a no-op, never a fault.
    pub fn timeout<R>(&mut self, reactor: &mut R, token: Token) where S: State<R>
        ensures
            !old(self).spec_dispatchable(token) ==> *final(self) == *old(self) && *final(reactor)
                == *old(reactor),
    {
        let resolved = match self.get_context(token) {
            Some(context) => self.get_state(context),
            None => None,
        };
        match resolved {
            Some(state) => invoke_timeout(&state, self, reactor, token),
            None => (),
        }
    }
}

impl<S> Default for Core<S> {
    /// Same as `Core::new`.
    fn default() -> (core: Core<S>)
        ensures
            core.spec_token_counter() == 0,
            core.spec_context_counter() == 0,
            core.token_map() == Map::<usize, Context>::empty(),
            core.state_map() == Map::<usize, StateHandle<S>>::empty(),
    {
        Core::new()
    }
}

/// A counter's step: advance by one, wrapping silently on overflow.
pub open spec fn wrap_inc(n: usize) -> usize {
    if n == usize::MAX {
        0
    } else {
        (n + 1) as usize
    }
}

} // verus!
