//! Laws of the capture subsystem, proved once for every state and event.
//!
//! Each proof function here states one guarantee of the decision logic
//! over `decision_spec` and the state-transition spec functions that the
//! executable methods of `HookState` are proved against.

use vstd::prelude::*;

use crate::events::{
    translate_spec, EventKind, MSG_MOVE, MSG_PRIMARY_DOWN, MSG_PRIMARY_UP, MSG_SECONDARY_DOWN,
    MSG_SECONDARY_UP,
};
use crate::state::{after_set_callback, after_set_capturing, decision_spec, Decision, HookState, Invocation};

verus! {

/// The state after a whole sequence of `set_capturing` calls, first
/// call first.
pub open spec fn after_capture_sequence(s: HookState, values: Seq<bool>) -> HookState
    decreases values.len(),
{
    if values.len() == 0 {
        s
    } else {
        after_capture_sequence(after_set_capturing(s, values[0]), values.drop_first())
    }
}

/// After any non-empty sequence of `set_capturing` calls, the most
/// recent call's value alone decides swallow versus pass-through for
/// every event processed afterwards: an event is swallowed exactly when
/// that value was true and the event carries a non-negative status code.
pub proof fn lemma_latest_capture_value_governs(
    s: HookState,
    values: Seq<bool>,
    code: i32,
    msg: u32,
    x: i32,
    y: i32,
)
    requires
        values.len() > 0,
    ensures
        after_capture_sequence(s, values).capturing == values.last(),
        after_capture_sequence(s, values).handler == s.handler,
        decision_spec(after_capture_sequence(s, values), code, msg, x, y).swallow == (code >= 0
            && values.last()),
    decreases values.len(),
{
    if values.len() == 1 {
        assert(after_capture_sequence(after_set_capturing(s, values[0]), values.drop_first())
            == after_set_capturing(s, values[0]));
    } else {
        lemma_latest_capture_value_governs(
            after_set_capturing(s, values[0]),
            values.drop_first(),
            code,
            msg,
            x,
            y,
        );
        assert(values.drop_first().last() == values.last());
    }
}

/// While capturing with a handler registered, a movement event produces
/// exactly one handler invocation — kind `Move` with the event's own
/// coordinates — and the event is swallowed.
pub proof fn lemma_captured_move_is_delivered_and_swallowed(
    s: HookState,
    h: u64,
    code: i32,
    x: i32,
    y: i32,
)
    requires
        s.capturing,
        s.handler == Some(h),
        code >= 0,
    ensures
        decision_spec(s, code, MSG_MOVE, x, y) == (Decision {
            invoke: Some(Invocation { handler: h, kind: EventKind::Move, x, y }),
            swallow: true,
        }),
{
}

/// While capturing with a handler registered, a primary- or
/// secondary-button press is delivered as `Down` and a release as `Up`,
/// and either event is swallowed.
pub proof fn lemma_captured_button_is_delivered_and_swallowed(
    s: HookState,
    h: u64,
    code: i32,
    msg: u32,
    x: i32,
    y: i32,
)
    requires
        s.capturing,
        s.handler == Some(h),
        code >= 0,
    ensures
        msg == MSG_PRIMARY_DOWN || msg == MSG_SECONDARY_DOWN ==> decision_spec(s, code, msg, x, y)
            == (Decision {
            invoke: Some(Invocation { handler: h, kind: EventKind::Down, x, y }),
            swallow: true,
        }),
        msg == MSG_PRIMARY_UP || msg == MSG_SECONDARY_UP ==> decision_spec(s, code, msg, x, y)
            == (Decision {
            invoke: Some(Invocation { handler: h, kind: EventKind::Up, x, y }),
            swallow: true,
        }),
{
}

/// While passive, no event is ever swallowed; a movement event is still
/// forwarded to a registered handler as `Move`, and no other event kind
/// reaches the handler.
pub proof fn lemma_passive_never_swallows(s: HookState, code: i32, msg: u32, x: i32, y: i32)
    requires
        !s.capturing,
    ensures
        !decision_spec(s, code, msg, x, y).swallow,
        s.handler matches Some(h) ==> (msg == MSG_MOVE && code >= 0 ==> decision_spec(
            s,
            code,
            msg,
            x,
            y,
        ) == (Decision {
            invoke: Some(Invocation { handler: h, kind: EventKind::Move, x, y }),
            swallow: false,
        })),
        msg != MSG_MOVE ==> decision_spec(s, code, msg, x, y).invoke is None,
{
}

/// With no handler registered, no invocation ever happens, and the
/// swallow decision is exactly what it would be with any handler
/// registered: capture state alone governs it.
pub proof fn lemma_no_handler_means_no_invocation(s: HookState, code: i32, msg: u32, x: i32, y: i32)
    requires
        s.handler is None,
    ensures
        decision_spec(s, code, msg, x, y).invoke is None,
        decision_spec(s, code, msg, x, y).swallow == (code >= 0 && s.capturing),
        forall|h: u64|
            decision_spec(
                HookState { capturing: s.capturing, handler: Some(h) },
                code,
                msg,
                x,
                y,
            ).swallow == decision_spec(s, code, msg, x, y).swallow,
{
}

/// After a handler is registered — replacing whatever the slot held —
/// every invocation decided afterwards names the new handler, whatever
/// the event and whatever the capture state.
pub proof fn lemma_replacement_routes_to_new_handler(
    s: HookState,
    h: u64,
    code: i32,
    msg: u32,
    x: i32,
    y: i32,
)
    ensures
        decision_spec(after_set_callback(s, h), code, msg, x, y).invoke matches Some(inv)
            ==> inv.handler == h,
        decision_spec(after_set_callback(s, h), code, msg, x, y).swallow == decision_spec(
            s,
            code,
            msg,
            x,
            y,
        ).swallow,
{
}

/// While capturing with a handler registered, an unrecognized raw
/// message reaches no handler, yet is still swallowed.
pub proof fn lemma_captured_unrecognized_is_dropped(s: HookState, code: i32, msg: u32, x: i32, y: i32)
    requires
        s.capturing,
        code >= 0,
        translate_spec(msg) is None,
    ensures
        decision_spec(s, code, msg, x, y) == (Decision { invoke: None, swallow: true }),
{
}

/// A negative status code bypasses everything: nothing is invoked and
/// the event passes through, whatever the state.
pub proof fn lemma_negative_code_passes_through(s: HookState, code: i32, msg: u32, x: i32, y: i32)
    requires
        code < 0,
    ensures
        decision_spec(s, code, msg, x, y) == (Decision { invoke: None, swallow: false }),
{
}

} // verus!
