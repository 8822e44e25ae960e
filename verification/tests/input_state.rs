use kernel_core::drivers::virtio_input::{as_signed, VirtioInputEvent};
use kernel_core::globals::{move_axis, Input, InputEvent, KeyState};

#[test]
fn new_snapshot_is_blank() {
    let input = Input::new();
    assert_eq!(input.mouse_x, 0);
    assert_eq!(input.mouse_y, 0);
    assert_eq!(input.history_last_index, 0);
    assert!(input.keys.iter().all(|k| *k == KeyState::Off));
    assert!(input
        .history_ring
        .iter()
        .all(|e| *e == InputEvent { trigger: false, key: 0 }));
}

#[test]
fn key_state_transitions_on_press() {
    let cases = [
        (KeyState::Off, KeyState::OnFromOff),
        (KeyState::OnFromOff, KeyState::On),
        (KeyState::OffFromOn, KeyState::OnTransientOff),
        (KeyState::On, KeyState::On),
        (KeyState::OnTransientOff, KeyState::On),
        (KeyState::OffTransientOn, KeyState::On),
    ];
    for (before, after) in cases {
        let mut k = before;
        k.handle_incoming_state(true);
        assert_eq!(k, after);
    }
}

#[test]
fn key_state_transitions_on_release() {
    let cases = [
        (KeyState::On, KeyState::OffFromOn),
        (KeyState::OffFromOn, KeyState::Off),
        (KeyState::OnFromOff, KeyState::OffTransientOn),
        (KeyState::Off, KeyState::Off),
        (KeyState::OffTransientOn, KeyState::Off),
        (KeyState::OnTransientOff, KeyState::Off),
    ];
    for (before, after) in cases {
        let mut k = before;
        k.handle_incoming_state(false);
        assert_eq!(k, after);
    }
}

#[test]
fn key_state_step_settles() {
    let cases = [
        (KeyState::Off, KeyState::Off),
        (KeyState::OffFromOn, KeyState::Off),
        (KeyState::OffTransientOn, KeyState::Off),
        (KeyState::OnFromOff, KeyState::On),
        (KeyState::OnTransientOff, KeyState::On),
        (KeyState::On, KeyState::On),
    ];
    for (before, after) in cases {
        let mut k = before;
        k.step();
        assert_eq!(k, after);
    }
}

#[test]
fn key_state_bytes() {
    assert_eq!(KeyState::Off.to_u8(), 0);
    assert_eq!(KeyState::OffFromOn.to_u8(), 1);
    assert_eq!(KeyState::OffTransientOn.to_u8(), 2);
    assert_eq!(KeyState::OnFromOff.to_u8(), 128);
    assert_eq!(KeyState::OnTransientOff.to_u8(), 129);
    assert_eq!(KeyState::On.to_u8(), 130);
    assert_eq!(KeyState::default(), KeyState::Off);
}

#[test]
fn transient_press_settles_to_off() {
    let mut input = Input::new();
    input.handle_incoming_state(30, true);
    assert_eq!(input.keys[30], KeyState::OnFromOff);
    input.handle_incoming_state(30, false);
    assert_eq!(input.keys[30], KeyState::OffTransientOn);
    input.step();
    assert_eq!(input.keys[30], KeyState::Off);
}

#[test]
fn input_burst_keeps_last_sixty_four() {
    let mut input = Input::new();
    for i in 0..80usize {
        input.handle_incoming_state(100 + i, true);
    }
    assert_eq!(input.history_last_index, 80);
    for i in 17..=80usize {
        assert_eq!(
            input.history_ring[i % 64],
            InputEvent { trigger: true, key: 100 + i - 1 }
        );
    }
    for i in 0..80usize {
        assert_eq!(input.keys[100 + i], KeyState::OnFromOff);
    }
    assert_eq!(input.keys[99], KeyState::Off);
    assert_eq!(input.keys[180], KeyState::Off);
}

#[test]
fn last_event_agrees_with_key_level() {
    let mut input = Input::new();
    input.handle_incoming_state(5, true);
    input.handle_incoming_state(5, false);
    input.handle_incoming_state(7, true);
    let e = input.history_ring[input.history_last_index % 64];
    assert_eq!(e, InputEvent { trigger: true, key: 7 });
    assert!(matches!(
        input.keys[e.key],
        KeyState::On | KeyState::OnFromOff | KeyState::OnTransientOff
    ));
    input.handle_incoming_state(7, false);
    let e = input.history_ring[input.history_last_index % 64];
    assert!(!e.trigger);
    assert!(matches!(
        input.keys[e.key],
        KeyState::Off | KeyState::OffFromOn | KeyState::OffTransientOn
    ));
}

#[test]
fn step_leaves_only_off_and_on() {
    let mut input = Input::new();
    input.handle_incoming_state(1, true);
    input.handle_incoming_state(2, true);
    input.handle_incoming_state(2, false);
    input.handle_incoming_state(3, true);
    input.step();
    input.handle_incoming_state(3, false);
    input.handle_incoming_state(3, true);
    input.handle_incoming_state(1, false);
    input.step();
    assert!(input
        .keys
        .iter()
        .all(|k| *k == KeyState::Off || *k == KeyState::On));
    assert_eq!(input.keys[1], KeyState::Off);
    assert_eq!(input.keys[2], KeyState::Off);
    assert_eq!(input.keys[3], KeyState::On);
    assert_eq!(input.history_last_index, 7);
}

#[test]
fn pointer_moves_and_stops_at_zero() {
    assert_eq!(move_axis(10, 5), 15);
    assert_eq!(move_axis(10, -4), 6);
    assert_eq!(move_axis(10, -10), 0);
    assert_eq!(move_axis(10, -11), 0);
    assert_eq!(move_axis(0, i32::MIN), 0);
    let mut input = Input::new();
    input.move_x(7);
    input.move_y(3);
    input.move_x(-2);
    input.move_y(-9);
    assert_eq!((input.mouse_x, input.mouse_y), (5, 0));
}

#[test]
fn signed_reading_of_event_values() {
    assert_eq!(as_signed(0), 0);
    assert_eq!(as_signed(5), 5);
    assert_eq!(as_signed(0x7fff_ffff), i32::MAX);
    assert_eq!(as_signed(0x8000_0000), i32::MIN);
    assert_eq!(as_signed(0xffff_ffff), -1);
    assert_eq!(as_signed(0xffff_fffb), -5);
}

#[test]
fn events_decode_little_endian() {
    let bytes = [1u8, 0, 30, 0, 1, 0, 0, 0, 99];
    let e = VirtioInputEvent::decode(&bytes);
    assert_eq!(e, VirtioInputEvent { type_: 1, code: 30, value: 1 });
    let bytes = [2u8, 0, 1, 0, 0xfb, 0xff, 0xff, 0xff];
    let e = VirtioInputEvent::decode(&bytes);
    assert_eq!(e, VirtioInputEvent { type_: 2, code: 1, value: 0xffff_fffb });
}

#[test]
fn events_apply_to_snapshot() {
    let mut input = Input::new();
    assert!(VirtioInputEvent { type_: 1, code: 30, value: 1 }.apply(&mut input));
    assert_eq!(input.keys[30], KeyState::OnFromOff);
    assert_eq!(input.history_last_index, 1);
    assert_eq!(input.history_ring[1], InputEvent { trigger: true, key: 30 });
    assert!(VirtioInputEvent { type_: 1, code: 30, value: 0 }.apply(&mut input));
    assert_eq!(input.keys[30], KeyState::OffTransientOn);
    assert!(VirtioInputEvent { type_: 2, code: 0, value: 12 }.apply(&mut input));
    assert!(VirtioInputEvent { type_: 2, code: 1, value: 7 }.apply(&mut input));
    assert!(VirtioInputEvent { type_: 2, code: 0, value: 0xffff_fffd }.apply(&mut input));
    assert_eq!((input.mouse_x, input.mouse_y), (9, 7));
    assert!(VirtioInputEvent { type_: 2, code: 1, value: 0xffff_ff00 }.apply(&mut input));
    assert_eq!((input.mouse_x, input.mouse_y), (9, 0));
}

#[test]
fn unknown_events_change_nothing() {
    let mut input = Input::new();
    input.handle_incoming_state(3, true);
    let before = input;
    assert!(!VirtioInputEvent { type_: 0, code: 0, value: 0 }.apply(&mut input));
    assert!(!VirtioInputEvent { type_: 1, code: 1024, value: 1 }.apply(&mut input));
    assert!(!VirtioInputEvent { type_: 2, code: 2, value: 1 }.apply(&mut input));
    assert!(!VirtioInputEvent { type_: 4, code: 4, value: 1 }.apply(&mut input));
    assert_eq!(input.mouse_x, before.mouse_x);
    assert_eq!(input.mouse_y, before.mouse_y);
    assert_eq!(input.history_last_index, before.history_last_index);
    assert!(input.keys.iter().zip(before.keys.iter()).all(|(a, b)| a == b));
    assert!(input
        .history_ring
        .iter()
        .zip(before.history_ring.iter())
        .all(|(a, b)| a == b));
}
