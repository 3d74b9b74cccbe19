//! The event translator: a pure, total mapping from the backend's fixed-shape
//! raw event records to the semantic event vocabulary.

use vstd::prelude::*;

verus! {

/// One low-level windowing event, as the display backend delivers it: a
/// primary integer tag (`kind`) plus secondary discriminants whose meaning
/// depends on the kind (`state` for pointer motion, `detail` for buttons and
/// keys). `width` and `height` are meaningful only for exposure events,
/// `x` and `y` only for pointer events.
#[derive(Clone, Copy, Debug)]
pub struct RawEvent {
    pub kind: u8,
    pub width: u16,
    pub height: u16,
    pub x: i16,
    pub y: i16,
    pub state: u16,
    pub detail: u8,
}

/// A semantic event, as the viewer's caller sees it. Raw records that carry
/// no recognized discriminant degrade to `Noop`; the translator never fails.
pub enum Event {
    Noop,
    Close,
    Expose { width: u16, height: u16 },
    Interact(InteractKind),
}

/// The interaction-event vocabulary. The `state` field carries the device
/// the interaction came from; `pos` is a signed pixel coordinate pair.
#[derive(Debug)]
pub enum InteractKind {
    KeyPress { state: InteractDevice, key: u8 },
    LeftPress { state: InteractDevice, pos: (i16, i16) },
    LeftRelease { state: InteractDevice, pos: (i16, i16) },
    Wheel { state: InteractDevice, step: i16 },
    RightPress { state: InteractDevice, pos: (i16, i16) },
    RightRelease { state: InteractDevice, pos: (i16, i16) },
    Move { state: InteractDevice, pos: (i16, i16) },
}

/// The device an interaction came from: a mouse button group, or the
/// keyboard together with the raw modifier mask it reported.
#[derive(Debug)]
pub enum InteractDevice {
    Mouse(Mouse),
    KeyBoard(u16),
}

/// The mouse button group a pointer-motion event reports.
#[derive(Debug)]
pub enum Mouse {
    Left,
    Right,
    Wheel,
}

/// What `translate` returns for a button press or release record (kinds 4
/// and 5 agree on this secondary mapping, differing only in whether detail
/// 1 and 3 become a press or a release). A wheel click (detail 2) yields a
/// zero-step wheel event rather than a dedicated button event; this oddity
/// comes from the source protocol and is kept deliberately.
pub open spec fn spec_translate_button(raw: RawEvent, press: bool) -> Event {
    if raw.detail == 1 {
        if press {
            Event::Interact(InteractKind::LeftPress {
                state: InteractDevice::KeyBoard(raw.state),
                pos: (raw.x, raw.y),
            })
        } else {
            Event::Interact(InteractKind::LeftRelease {
                state: InteractDevice::KeyBoard(raw.state),
                pos: (raw.x, raw.y),
            })
        }
    } else if raw.detail == 2 {
        Event::Interact(InteractKind::Wheel {
            state: InteractDevice::KeyBoard(raw.state),
            step: 0i16,
        })
    } else if raw.detail == 3 {
        if press {
            Event::Interact(InteractKind::RightPress {
                state: InteractDevice::KeyBoard(raw.state),
                pos: (raw.x, raw.y),
            })
        } else {
            Event::Interact(InteractKind::RightRelease {
                state: InteractDevice::KeyBoard(raw.state),
                pos: (raw.x, raw.y),
            })
        }
    } else if raw.detail == 4 {
        Event::Interact(InteractKind::Wheel {
            state: InteractDevice::KeyBoard(raw.state),
            step: 1i16,
        })
    } else if raw.detail == 5 {
        Event::Interact(InteractKind::Wheel {
            state: InteractDevice::KeyBoard(raw.state),
            step: -1i16,
        })
    } else {
        Event::Noop
    }
}

/// The full translation table: kind 1 closes, kind 2 exposes (only when both
/// dimensions exceed one), kind 3 is pointer motion keyed by the modifier
/// mask, kinds 4 and 5 are button press/release keyed by the detail code,
/// kind 6 is a keyboard key, and every other kind is a no-op.
pub open spec fn spec_translate(raw: RawEvent) -> Event {
    if raw.kind == 1 {
        Event::Close
    } else if raw.kind == 2 {
        if raw.width > 1 && raw.height > 1 {
            Event::Expose { width: raw.width, height: raw.height }
        } else {
            Event::Noop
        }
    } else if raw.kind == 3 {
        if raw.state == 256 {
            Event::Interact(InteractKind::Move {
                state: InteractDevice::Mouse(Mouse::Left),
                pos: (raw.x, raw.y),
            })
        } else if raw.state == 512 {
            Event::Interact(InteractKind::Move {
                state: InteractDevice::Mouse(Mouse::Wheel),
                pos: (raw.x, raw.y),
            })
        } else if raw.state == 1024 {
            Event::Interact(InteractKind::Move {
                state: InteractDevice::Mouse(Mouse::Right),
                pos: (raw.x, raw.y),
            })
        } else {
            Event::Noop
        }
    } else if raw.kind == 4 {
        spec_translate_button(raw, true)
    } else if raw.kind == 5 {
        spec_translate_button(raw, false)
    } else if raw.kind == 6 {
        Event::Interact(InteractKind::KeyPress {
            state: InteractDevice::KeyBoard(raw.state),
            key: raw.detail,
        })
    } else {
        Event::Noop
    }
}

/// Translates one raw event record into its semantic event. Pure and total:
/// unrecognized discriminants at either dispatch level yield `Noop`.
pub fn translate(raw: RawEvent) -> (ev: Event)
    ensures
        ev == spec_translate(raw),
{
    match raw.kind {
        1 => Event::Close,
        2 => {
            if raw.width > 1 && raw.height > 1 {
                Event::Expose { width: raw.width, height: raw.height }
            } else {
                Event::Noop
            }
        },
        3 => {
            match raw.state {
                256 => Event::Interact(InteractKind::Move {
                    state: InteractDevice::Mouse(Mouse::Left),
                    pos: (raw.x, raw.y),
                }),
                512 => Event::Interact(InteractKind::Move {
                    state: InteractDevice::Mouse(Mouse::Wheel),
                    pos: (raw.x, raw.y),
                }),
                1024 => Event::Interact(InteractKind::Move {
                    state: InteractDevice::Mouse(Mouse::Right),
                    pos: (raw.x, raw.y),
                }),
                _ => Event::Noop,
            }
        },
        4 => translate_button(raw, true),
        5 => translate_button(raw, false),
        6 => Event::Interact(InteractKind::KeyPress {
            state: InteractDevice::KeyBoard(raw.state),
            key: raw.detail,
        }),
        _ => Event::Noop,
    }
}

/// The secondary dispatch shared by button press (kind 4) and release
/// (kind 5) records.
fn translate_button(raw: RawEvent, press: bool) -> (ev: Event)
    ensures
        ev == spec_translate_button(raw, press),
{
    match raw.detail {
        1 => {
            if press {
                Event::Interact(InteractKind::LeftPress {
                    state: InteractDevice::KeyBoard(raw.state),
                    pos: (raw.x, raw.y),
                })
            } else {
                Event::Interact(InteractKind::LeftRelease {
                    state: InteractDevice::KeyBoard(raw.state),
                    pos: (raw.x, raw.y),
                })
            }
        },
        2 => Event::Interact(InteractKind::Wheel {
            state: InteractDevice::KeyBoard(raw.state),
            step: 0,
        }),
        3 => {
            if press {
                Event::Interact(InteractKind::RightPress {
                    state: InteractDevice::KeyBoard(raw.state),
                    pos: (raw.x, raw.y),
                })
            } else {
                Event::Interact(InteractKind::RightRelease {
                    state: InteractDevice::KeyBoard(raw.state),
                    pos: (raw.x, raw.y),
                })
            }
        },
        4 => Event::Interact(InteractKind::Wheel {
            state: InteractDevice::KeyBoard(raw.state),
            step: 1,
        }),
        5 => Event::Interact(InteractKind::Wheel {
            state: InteractDevice::KeyBoard(raw.state),
            step: -1,
        }),
        _ => Event::Noop,
    }
}

/// Law: every raw event whose kind tag is outside the recognized range
/// translates to `Noop`.
pub proof fn lemma_unknown_kind_is_noop(raw: RawEvent)
    requires
        raw.kind != 1,
        raw.kind != 2,
        raw.kind != 3,
        raw.kind != 4,
        raw.kind != 5,
        raw.kind != 6,
    ensures
        spec_translate(raw) == Event::Noop,
{
}

/// Law: a close record translates to `Close` whatever its other fields hold.
pub proof fn lemma_close_is_unconditional(raw: RawEvent)
    requires
        raw.kind == 1,
    ensures
        spec_translate(raw) == Event::Close,
{
}

/// Law: an exposure record becomes an expose event carrying its dimensions
/// exactly when both dimensions exceed one, and degrades to a no-op
/// otherwise.
pub proof fn lemma_expose_boundary(raw: RawEvent)
    requires
        raw.kind == 2,
    ensures
        raw.width > 1 && raw.height > 1 ==> spec_translate(raw) == (Event::Expose {
            width: raw.width,
            height: raw.height,
        }),
        !(raw.width > 1 && raw.height > 1) ==> spec_translate(raw) == Event::Noop,
{
}

/// Law: a pointer-motion record whose modifier mask is none of the three
/// recognized device masks degrades to a no-op.
pub proof fn lemma_unknown_motion_state_is_noop(raw: RawEvent)
    requires
        raw.kind == 3,
        raw.state != 256,
        raw.state != 512,
        raw.state != 1024,
    ensures
        spec_translate(raw) == Event::Noop,
{
}

/// Law: on press and release records alike, the wheel detail codes map to
/// steps zero, one and minus one, with the raw modifier mask carried through
/// as the keyboard device state.
pub proof fn lemma_wheel_detail_steps(raw: RawEvent)
    requires
        raw.kind == 4 || raw.kind == 5,
    ensures
        raw.detail == 2 ==> spec_translate(raw) == Event::Interact(InteractKind::Wheel {
            state: InteractDevice::KeyBoard(raw.state),
            step: 0i16,
        }),
        raw.detail == 4 ==> spec_translate(raw) == Event::Interact(InteractKind::Wheel {
            state: InteractDevice::KeyBoard(raw.state),
            step: 1i16,
        }),
        raw.detail == 5 ==> spec_translate(raw) == Event::Interact(InteractKind::Wheel {
            state: InteractDevice::KeyBoard(raw.state),
            step: -1i16,
        }),
{
}

/// Law: a keyboard-key record always becomes a key press carrying the raw
/// detail code as the key and the raw modifier mask as the device state.
pub proof fn lemma_key_record(raw: RawEvent)
    requires
        raw.kind == 6,
    ensures
        spec_translate(raw) == Event::Interact(InteractKind::KeyPress {
            state: InteractDevice::KeyBoard(raw.state),
            key: raw.detail,
        }),
{
}

/// Law: a release record (kind 5) mirrors the press record (kind 4) with the
/// same secondary fields on every detail code except 1 and 3, the two codes
/// that distinguish press from release; in particular the wheel detail-to-step
/// mapping (2 to 0, 4 to 1, 5 to -1) is shared.
pub proof fn lemma_release_mirrors_press(press: RawEvent, release: RawEvent)
    requires
        press.kind == 4,
        release.kind == 5,
        press.detail == release.detail,
        press.state == release.state,
        press.detail != 1,
        press.detail != 3,
    ensures
        spec_translate(press) == spec_translate(release),
{
}

} // verus!
