//! The capture/passive state machine and the per-event decision.
//!
//! `HookState` models the two pieces of state the hook callback reads on
//! every raw event: the capture flag and the registered handler, the
//! latter by an opaque identity. `decision_spec` pins down, for every
//! state and raw event, exactly which handler invocation (if any) the
//! callback must make and whether the event is swallowed or passed on to
//! the next hook in the chain.

use vstd::prelude::*;

use crate::events::{translate, translate_spec, EventKind, MSG_MOVE};

verus! {

/// One invocation of a registered handler: which handler runs, the
/// abstract kind it receives, and the absolute screen coordinates.
#[derive(Clone, Copy, Debug, PartialEq, Eq, Structural)]
pub struct Invocation {
    /// Identity of the handler to invoke.
    pub handler: u64,
    /// Abstract event kind handed to the handler.
    pub kind: EventKind,
    /// Absolute screen x coordinate.
    pub x: i32,
    /// Absolute screen y coordinate.
    pub y: i32,
}

/// What the hook callback does with one raw event: at most one handler
/// invocation, and either swallowing the event or passing it through.
#[derive(Clone, Copy, Debug, PartialEq, Eq, Structural)]
pub struct Decision {
    /// The invocation to make, if any.
    pub invoke: Option<Invocation>,
    /// True when the event must not propagate to any downstream consumer.
    pub swallow: bool,
}

/// The shared state of the capture subsystem: whether raw events are
/// being captured, and the identity of the registered handler, if any.
#[derive(Clone, Copy, Debug, PartialEq, Eq, Structural)]
pub struct HookState {
    /// True when events are swallowed and redirected to the handler.
    pub capturing: bool,
    /// The registered handler's identity; `None` until one is registered.
    pub handler: Option<u64>,
}

/// The state after `set_capturing`: the flag takes the new value, the
/// handler slot is untouched.
pub open spec fn after_set_capturing(s: HookState, capturing: bool) -> HookState {
    HookState { capturing, handler: s.handler }
}

/// The state after `set_callback`: the new handler replaces whatever the
/// slot held, the capture flag is untouched.
pub open spec fn after_set_callback(s: HookState, handler: u64) -> HookState {
    HookState { capturing: s.capturing, handler: Some(handler) }
}

/// The decision for one raw event.
///
/// A negative status code means "do not process": nothing is invoked and
/// the event passes through. While capturing, every event is swallowed,
/// and the handler — if one is registered — receives every recognized
/// event. While passive, no event is ever swallowed, and only movement
/// is forwarded to a registered handler.
pub open spec fn decision_spec(s: HookState, code: i32, msg: u32, x: i32, y: i32) -> Decision {
    if code < 0 {
        Decision { invoke: None, swallow: false }
    } else if s.capturing {
        Decision {
            invoke: match (s.handler, translate_spec(msg)) {
                (Some(h), Some(kind)) => Some(Invocation { handler: h, kind, x, y }),
                _ => None,
            },
            swallow: true,
        }
    } else {
        Decision {
            invoke: match s.handler {
                Some(h) => if msg == MSG_MOVE {
                    Some(Invocation { handler: h, kind: EventKind::Move, x, y })
                } else {
                    None
                },
                None => None,
            },
            swallow: false,
        }
    }
}

impl HookState {
    /// The initial state: passive, with no handler registered.
    pub fn new() -> (s: HookState)
        ensures
            s == (HookState { capturing: false, handler: None }),
    {
        HookState { capturing: false, handler: None }
    }

    /// Stores a new value of the capture flag; every event processed
    /// after this call is governed by the new value.
    pub fn set_capturing(&mut self, capturing: bool)
        ensures
            *final(self) == after_set_capturing(*old(self), capturing),
    {
        self.capturing = capturing;
    }

    /// Registers a handler, replacing any previously registered one;
    /// every invocation decided after this call names the new handler.
    pub fn set_callback(&mut self, handler: u64)
        ensures
            *final(self) == after_set_callback(*old(self), handler),
    {
        self.handler = Some(handler);
    }

    /// Reads the capture flag.
    pub fn is_capturing(&self) -> (capturing: bool)
        ensures
            capturing == self.capturing,
    {
        self.capturing
    }

    /// Decides what the hook callback does with one raw event: `code` is
    /// the status code the hook was given, `msg` the raw message kind,
    /// and `(x, y)` the absolute screen coordinates of the event.
    pub fn process_event(&self, code: i32, msg: u32, x: i32, y: i32) -> (d: Decision)
        ensures
            d == decision_spec(*self, code, msg, x, y),
    {
        if code < 0 {
            return Decision { invoke: None, swallow: false };
        }
        if self.capturing {
            let invoke = if let Some(h) = self.handler {
                match translate(msg) {
                    Some(kind) => Some(Invocation { handler: h, kind, x, y }),
                    None => None,
                }
            } else {
                None
            };
            Decision { invoke, swallow: true }
        } else {
            let invoke = if let Some(h) = self.handler {
                if msg == MSG_MOVE {
                    Some(Invocation { handler: h, kind: EventKind::Move, x, y })
                } else {
                    None
                }
            } else {
                None
            };
            Decision { invoke, swallow: false }
        }
    }
}

} // verus!
