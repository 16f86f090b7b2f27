use std::cell::RefCell;
use std::rc::Rc;

use event_core::dispatch::{Context, Core, EventSet, State, Token};
use event_core::envelope::{Closure, CoreMessage, Payload};

struct Idle;

impl State<usize> for Idle {
    fn ready(
        &mut self,
        _core: &mut Core<Self>,
        _reactor: &mut usize,
        _token: Token,
        _events: EventSet,
    ) {
    }

    fn timeout(&mut self, _core: &mut Core<Self>, _reactor: &mut usize, _token: Token) {}

    fn terminate(&mut self, _core: &mut Core<Self>, _reactor: &mut usize) {}
}

struct SetFlag {
    flag: Rc<RefCell<bool>>,
}

impl Payload<Idle, usize> for SetFlag {
    fn consume(self, _core: &mut Core<Idle>, _reactor: &mut usize) {
        *self.flag.borrow_mut() = true;
    }
}

struct CountRuns {
    runs: Rc<RefCell<usize>>,
}

impl Payload<Idle, usize> for CountRuns {
    fn consume(self, _core: &mut Core<Idle>, _reactor: &mut usize) {
        *self.runs.borrow_mut() += 1;
    }
}

#[test]
fn envelope_sets_flag_once_and_stays_set() {
    let mut core: Core<Idle> = Core::new();
    let mut reactor: usize = 0;
    let flag = Rc::new(RefCell::new(false));
    let mut envelope = Closure::new(SetFlag { flag: flag.clone() });

    envelope.invoke(&mut core, &mut reactor);
    assert!(*flag.borrow());

    envelope.invoke(&mut core, &mut reactor);
    assert!(*flag.borrow());
}

#[test]
fn envelope_payload_runs_exactly_once() {
    let mut core: Core<Idle> = Core::new();
    let mut reactor: usize = 0;
    let runs = Rc::new(RefCell::new(0usize));
    let mut envelope = Closure::new(CountRuns { runs: runs.clone() });

    envelope.invoke(&mut core, &mut reactor);
    assert_eq!(*runs.borrow(), 1);

    envelope.invoke(&mut core, &mut reactor);
    envelope.invoke(&mut core, &mut reactor);
    assert_eq!(*runs.borrow(), 1);
}

struct Plain;

impl Payload<Idle, usize> for Plain {
    fn consume(self, _core: &mut Core<Idle>, _reactor: &mut usize) {}
}

fn is_send<T: Send>(_value: &T) {}

#[test]
fn envelope_is_transferable_across_threads_by_its_payload() {
    // the envelope adds call-once semantics only; thread transfer is the
    // payload's own property, witnessed here by a Send payload type
    let envelope: CoreMessage<Plain> = Closure::new(Plain);
    is_send(&envelope);

    let mut core: Core<Idle> = Core::new();
    let mut reactor: usize = 0;
    core.notify(&mut reactor, envelope);
}
