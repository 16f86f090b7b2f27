//! Trusted boundary around the shared state handles.
//!
//! A state handle is `Rc<RefCell<S>>`: reference-counted shared
//! ownership of a cell that grants interior mutability to the single
//! loop thread.  Verus has no specification for `RefCell`, so the cell
//! is declared opaque here and the few operations the core needs are
//! wrapped with the contracts the standard library documents.

use std::cell::RefCell;

use vstd::prelude::*;

use crate::dispatch::{Core, EventSet, State, StateHandle, Token};

verus! {

/// `std::cell::RefCell`, declared so handles can appear in the core's
/// fields and signatures.  The cell is opaque to Verus: nothing is
/// assumed about its contents.
#[verifier::external_type_specification]
#[verifier::external_body]
#[verifier::reject_recursive_types(S)]
pub struct ExRefCell<S: ?Sized>(RefCell<S>);

/// Relies on `Rc::clone`: the clone is a handle to the same shared
/// cell, so it denotes the same value as the handle it was cloned from.
#[verifier::external_body]
pub(crate) fn clone_handle<S>(handle: &StateHandle<S>) -> (cloned: StateHandle<S>)
    ensures
        cloned == *handle,
{
    handle.clone()
}

/// Relies on `RefCell::try_borrow_mut` for exclusive access to the
/// state, then runs the state's readiness capability.  That capability
/// is caller-supplied, unverified code with mutable access to the core
/// and the reactor, so nothing is promised about the call's effect.  If
/// the cell is already borrowed (the same state re-entered its own
/// dispatch), the invocation is skipped.
#[verifier::external_body]
pub(crate) fn invoke_ready<S: State<R>, R>(
    handle: &StateHandle<S>,
    core: &mut Core<S>,
    reactor: &mut R,
    token: Token,
    events: EventSet,
) {
    if let Ok(mut state) = handle.try_borrow_mut() {
        state.ready(core, reactor, token, events);
    }
}

/// Relies on `RefCell::try_borrow_mut` as `invoke_ready` does, then
/// runs the state's timeout capability; nothing is promised about the
/// call's effect.
#[verifier::external_body]
pub(crate) fn invoke_timeout<S: State<R>, R>(
    handle: &StateHandle<S>,
    core: &mut Core<S>,
    reactor: &mut R,
    token: Token,
) {
    if let Ok(mut state) = handle.try_borrow_mut() {
        state.timeout(core, reactor, token);
    }
}

/// Relies on `RefCell::try_borrow_mut` as `invoke_ready` does, then
/// runs the state's terminal capability; nothing is promised about the
/// call's effect.
#[verifier::external_body]
pub(crate) fn invoke_terminate<S: State<R>, R>(
    handle: &StateHandle<S>,
    core: &mut Core<S>,
    reactor: &mut R,
) {
    if let Ok(mut state) = handle.try_borrow_mut() {
        state.terminate(core, reactor);
    }
}

} // verus!
