use input_hook::events::{
    translate, EventKind, MSG_MOVE, MSG_PRIMARY_DOWN, MSG_PRIMARY_UP, MSG_SECONDARY_DOWN,
    MSG_SECONDARY_UP,
};
use input_hook::state::{Decision, HookState, Invocation};

#[test]
fn translate_recognized_codes() {
    assert_eq!(translate(MSG_MOVE), Some(EventKind::Move));
    assert_eq!(translate(MSG_PRIMARY_DOWN), Some(EventKind::Down));
    assert_eq!(translate(MSG_SECONDARY_DOWN), Some(EventKind::Down));
    assert_eq!(translate(MSG_PRIMARY_UP), Some(EventKind::Up));
    assert_eq!(translate(MSG_SECONDARY_UP), Some(EventKind::Up));
}

#[test]
fn translate_unrecognized_codes() {
    assert_eq!(translate(0), None);
    assert_eq!(translate(0x0203), None);
    assert_eq!(translate(0x020A), None);
    assert_eq!(translate(u32::MAX), None);
}

#[test]
fn kind_encoding() {
    assert_eq!(EventKind::Move.code(), 0);
    assert_eq!(EventKind::Down.code(), 1);
    assert_eq!(EventKind::Up.code(), 2);
}

#[test]
fn initial_state_is_passive_and_empty() {
    let s = HookState::new();
    assert!(!s.is_capturing());
    let d = s.process_event(0, MSG_MOVE, 10, 20);
    assert_eq!(d, Decision { invoke: None, swallow: false });
}

#[test]
fn captured_move_is_delivered_and_swallowed() {
    let mut s = HookState::new();
    s.set_callback(7);
    s.set_capturing(true);
    let d = s.process_event(0, MSG_MOVE, 100, 50);
    assert_eq!(
        d,
        Decision {
            invoke: Some(Invocation { handler: 7, kind: EventKind::Move, x: 100, y: 50 }),
            swallow: true,
        }
    );
}

#[test]
fn captured_buttons_are_delivered_and_swallowed() {
    let mut s = HookState::new();
    s.set_callback(7);
    s.set_capturing(true);
    for (msg, kind) in [
        (MSG_PRIMARY_DOWN, EventKind::Down),
        (MSG_SECONDARY_DOWN, EventKind::Down),
        (MSG_PRIMARY_UP, EventKind::Up),
        (MSG_SECONDARY_UP, EventKind::Up),
    ] {
        let d = s.process_event(0, msg, -5, 9);
        assert_eq!(
            d,
            Decision {
                invoke: Some(Invocation { handler: 7, kind, x: -5, y: 9 }),
                swallow: true,
            }
        );
    }
}

#[test]
fn captured_unrecognized_is_dropped_but_swallowed() {
    let mut s = HookState::new();
    s.set_callback(7);
    s.set_capturing(true);
    let d = s.process_event(0, 0x0203, 1, 2);
    assert_eq!(d, Decision { invoke: None, swallow: true });
}

#[test]
fn passive_move_is_forwarded_and_propagates() {
    let mut s = HookState::new();
    s.set_callback(3);
    let d = s.process_event(0, MSG_MOVE, 8, 9);
    assert_eq!(
        d,
        Decision {
            invoke: Some(Invocation { handler: 3, kind: EventKind::Move, x: 8, y: 9 }),
            swallow: false,
        }
    );
}

#[test]
fn passive_buttons_are_not_forwarded() {
    let mut s = HookState::new();
    s.set_callback(3);
    for msg in [MSG_PRIMARY_DOWN, MSG_PRIMARY_UP, MSG_SECONDARY_DOWN, MSG_SECONDARY_UP] {
        let d = s.process_event(0, msg, 8, 9);
        assert_eq!(d, Decision { invoke: None, swallow: false });
    }
}

#[test]
fn no_handler_means_no_invocation() {
    let mut s = HookState::new();
    let d = s.process_event(0, MSG_MOVE, 1, 1);
    assert_eq!(d, Decision { invoke: None, swallow: false });
    s.set_capturing(true);
    let d = s.process_event(0, MSG_MOVE, 1, 1);
    assert_eq!(d, Decision { invoke: None, swallow: true });
    let d = s.process_event(0, MSG_PRIMARY_DOWN, 1, 1);
    assert_eq!(d, Decision { invoke: None, swallow: true });
}

#[test]
fn latest_capture_value_governs() {
    let mut s = HookState::new();
    s.set_callback(5);
    s.set_capturing(true);
    s.set_capturing(false);
    s.set_capturing(true);
    assert!(s.is_capturing());
    assert!(s.process_event(0, MSG_MOVE, 0, 0).swallow);
    s.set_capturing(false);
    assert!(!s.is_capturing());
    assert!(!s.process_event(0, MSG_MOVE, 0, 0).swallow);
}

#[test]
fn replacing_handler_routes_to_new_handler() {
    let mut s = HookState::new();
    s.set_capturing(true);
    s.set_callback(1);
    s.set_callback(2);
    let d = s.process_event(0, MSG_MOVE, 4, 4);
    assert_eq!(d.invoke.unwrap().handler, 2);
    let d = s.process_event(0, MSG_PRIMARY_DOWN, 4, 4);
    assert_eq!(d.invoke.unwrap().handler, 2);
}

#[test]
fn negative_code_always_passes_through() {
    let mut s = HookState::new();
    s.set_callback(7);
    s.set_capturing(true);
    let d = s.process_event(-1, MSG_MOVE, 2, 3);
    assert_eq!(d, Decision { invoke: None, swallow: false });
}
