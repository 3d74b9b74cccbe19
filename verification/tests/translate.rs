use xcbshow::event::{translate, Event, InteractDevice, InteractKind, Mouse, RawEvent};

fn raw(kind: u8) -> RawEvent {
    RawEvent { kind, width: 0, height: 0, x: 0, y: 0, state: 0, detail: 0 }
}

#[test]
fn unknown_kind_translates_to_noop() {
    for kind in [0u8, 7, 8, 100, 255] {
        let ev = translate(RawEvent { kind, width: 9, height: 9, x: 3, y: 4, state: 256, detail: 1 });
        assert!(matches!(ev, Event::Noop));
    }
}

#[test]
fn close_is_unconditional() {
    assert!(matches!(translate(raw(1)), Event::Close));
    let busy = RawEvent { kind: 1, width: 640, height: 480, x: -5, y: 77, state: 1024, detail: 5 };
    assert!(matches!(translate(busy), Event::Close));
}

#[test]
fn expose_needs_both_dimensions_above_one() {
    let ev = translate(RawEvent { width: 0, height: 0, ..raw(2) });
    assert!(matches!(ev, Event::Noop));
    let ev = translate(RawEvent { width: 2, height: 2, ..raw(2) });
    assert!(matches!(ev, Event::Expose { width: 2, height: 2 }));
    let ev = translate(RawEvent { width: 1, height: 5, ..raw(2) });
    assert!(matches!(ev, Event::Noop));
    let ev = translate(RawEvent { width: 5, height: 1, ..raw(2) });
    assert!(matches!(ev, Event::Noop));
    let ev = translate(RawEvent { width: 640, height: 480, ..raw(2) });
    assert!(matches!(ev, Event::Expose { width: 640, height: 480 }));
}

#[test]
fn motion_state_picks_the_mouse_device() {
    let ev = translate(RawEvent { state: 256, x: 10, y: 20, ..raw(3) });
    assert!(matches!(
        ev,
        Event::Interact(InteractKind::Move { state: InteractDevice::Mouse(Mouse::Left), pos: (10, 20) })
    ));
    let ev = translate(RawEvent { state: 512, x: -1, y: 2, ..raw(3) });
    assert!(matches!(
        ev,
        Event::Interact(InteractKind::Move { state: InteractDevice::Mouse(Mouse::Wheel), pos: (-1, 2) })
    ));
    let ev = translate(RawEvent { state: 1024, x: 0, y: 0, ..raw(3) });
    assert!(matches!(
        ev,
        Event::Interact(InteractKind::Move { state: InteractDevice::Mouse(Mouse::Right), pos: (0, 0) })
    ));
    let ev = translate(RawEvent { state: 999, x: 10, y: 20, ..raw(3) });
    assert!(matches!(ev, Event::Noop));
}

#[test]
fn press_details_map_to_buttons_and_wheel_steps() {
    let ev = translate(RawEvent { detail: 1, state: 3, x: 7, y: 8, ..raw(4) });
    assert!(matches!(
        ev,
        Event::Interact(InteractKind::LeftPress { state: InteractDevice::KeyBoard(3), pos: (7, 8) })
    ));
    let ev = translate(RawEvent { detail: 2, state: 17, ..raw(4) });
    assert!(matches!(
        ev,
        Event::Interact(InteractKind::Wheel { state: InteractDevice::KeyBoard(17), step: 0 })
    ));
    let ev = translate(RawEvent { detail: 3, state: 5, x: 1, y: 2, ..raw(4) });
    assert!(matches!(
        ev,
        Event::Interact(InteractKind::RightPress { state: InteractDevice::KeyBoard(5), pos: (1, 2) })
    ));
    let ev = translate(RawEvent { detail: 4, state: 17, ..raw(4) });
    assert!(matches!(
        ev,
        Event::Interact(InteractKind::Wheel { state: InteractDevice::KeyBoard(17), step: 1 })
    ));
    let ev = translate(RawEvent { detail: 5, state: 17, ..raw(4) });
    assert!(matches!(
        ev,
        Event::Interact(InteractKind::Wheel { state: InteractDevice::KeyBoard(17), step: -1 })
    ));
    let ev = translate(RawEvent { detail: 6, ..raw(4) });
    assert!(matches!(ev, Event::Noop));
}

#[test]
fn release_details_mirror_press_details() {
    let ev = translate(RawEvent { detail: 1, state: 3, x: 7, y: 8, ..raw(5) });
    assert!(matches!(
        ev,
        Event::Interact(InteractKind::LeftRelease { state: InteractDevice::KeyBoard(3), pos: (7, 8) })
    ));
    let ev = translate(RawEvent { detail: 2, state: 17, ..raw(5) });
    assert!(matches!(
        ev,
        Event::Interact(InteractKind::Wheel { state: InteractDevice::KeyBoard(17), step: 0 })
    ));
    let ev = translate(RawEvent { detail: 3, state: 5, x: 1, y: 2, ..raw(5) });
    assert!(matches!(
        ev,
        Event::Interact(InteractKind::RightRelease { state: InteractDevice::KeyBoard(5), pos: (1, 2) })
    ));
    let ev = translate(RawEvent { detail: 4, state: 17, ..raw(5) });
    assert!(matches!(
        ev,
        Event::Interact(InteractKind::Wheel { state: InteractDevice::KeyBoard(17), step: 1 })
    ));
    let ev = translate(RawEvent { detail: 5, state: 17, ..raw(5) });
    assert!(matches!(
        ev,
        Event::Interact(InteractKind::Wheel { state: InteractDevice::KeyBoard(17), step: -1 })
    ));
    let ev = translate(RawEvent { detail: 0, ..raw(5) });
    assert!(matches!(ev, Event::Noop));
}

#[test]
fn keyboard_key_carries_detail_and_state() {
    let ev = translate(RawEvent { detail: 65, state: 12, ..raw(6) });
    assert!(matches!(
        ev,
        Event::Interact(InteractKind::KeyPress { state: InteractDevice::KeyBoard(12), key: 65 })
    ));
    let ev = translate(RawEvent { detail: 0, state: 0, ..raw(6) });
    assert!(matches!(
        ev,
        Event::Interact(InteractKind::KeyPress { state: InteractDevice::KeyBoard(0), key: 0 })
    ));
}
