//! From the events of the X Window System, given as the plain values of
//! their fields, to the events of this library.

use crate::events::key_name;
use crate::events::make_key_name;
use crate::events::ActionType;
use crate::events::Event;
use crate::events::InputEventData;
use crate::events::KeyEventData;
use crate::events::Modifiers;
use crate::events::MouseButtonEventData;
use crate::events::MouseButtonId;
use crate::events::MouseMotionEventData;
use crate::events::MouseWheelEventData;
use crate::events::WindowConfigureEventData;
use crate::keysyms::map_x11_key_symbol;
use crate::keysyms::x11_key_symbol;
use vstd::prelude::*;

verus! {

/// Event type of a key press.
pub const KEY_PRESS: i32 = 2;

/// Event type of a key release.
pub const KEY_RELEASE: i32 = 3;

/// Event type of a button press.
pub const BUTTON_PRESS: i32 = 4;

/// Event type of a button release.
pub const BUTTON_RELEASE: i32 = 5;

/// Event type of a pointer motion.
pub const MOTION_NOTIFY: i32 = 6;

/// Event type of a change of visibility.
pub const VISIBILITY_NOTIFY: i32 = 15;

/// Event type of a change of size or place.
pub const CONFIGURE_NOTIFY: i32 = 22;

/// Event type of a message from another client.
pub const CLIENT_MESSAGE: i32 = 33;

/// Visibility state of a window that nothing covers.
pub const VISIBILITY_UNOBSCURED: i32 = 0;

/// State bit of the shift key.
pub const SHIFT_MASK: u32 = 0x0001;

/// State bit of the control key.
pub const CONTROL_MASK: u32 = 0x0004;

/// State bit of the first pointer button.
pub const BUTTON1_MASK: u32 = 0x0100;

/// State bit of the second pointer button.
pub const BUTTON2_MASK: u32 = 0x0200;

/// State bit of the third pointer button.
pub const BUTTON3_MASK: u32 = 0x0400;

/// State bit of the fourth pointer button.
pub const BUTTON4_MASK: u32 = 0x0800;

/// State bit of the fifth pointer button.
pub const BUTTON5_MASK: u32 = 0x1000;

/// What the main loop does with an event of a given type.
#[derive(Copy, Clone, Debug, PartialEq, Eq)]
pub enum EventKind {
    Visibility,
    ClientMessage,
    Configure,
    Key,
    Button,
    Motion,
    Other,
}

/// What the main loop does with an event of type `type_`.
pub open spec fn event_kind(type_: i32) -> EventKind {
    if type_ == VISIBILITY_NOTIFY {
        EventKind::Visibility
    } else if type_ == CLIENT_MESSAGE {
        EventKind::ClientMessage
    } else if type_ == CONFIGURE_NOTIFY {
        EventKind::Configure
    } else if type_ == KEY_PRESS || type_ == KEY_RELEASE {
        EventKind::Key
    } else if type_ == BUTTON_PRESS || type_ == BUTTON_RELEASE {
        EventKind::Button
    } else if type_ == MOTION_NOTIFY {
        EventKind::Motion
    } else {
        EventKind::Other
    }
}

/// What the main loop does with an event of type `type_`.
pub fn classify_event(type_: i32) -> (k: EventKind)
    ensures
        k == event_kind(type_),
{
    match type_ {
        VISIBILITY_NOTIFY => EventKind::Visibility,
        CLIENT_MESSAGE => EventKind::ClientMessage,
        CONFIGURE_NOTIFY => EventKind::Configure,
        KEY_PRESS | KEY_RELEASE => EventKind::Key,
        BUTTON_PRESS | BUTTON_RELEASE => EventKind::Button,
        MOTION_NOTIFY => EventKind::Motion,
        _ => EventKind::Other,
    }
}

/// Whether the window system speaks the version of its OpenGL extension
/// that the window needs, which is 1.4.
pub fn glx_version_supported(major: i32, minor: i32) -> (ok: bool)
    ensures
        ok == (major >= 1 && minor == 4),
{
    !(major < 1 || minor != 4)
}

/// The first place in `screen_numbers` that holds `root`, if any does: the
/// place of the primary screen among the screens that were found.
pub fn primary_screen_index(screen_numbers: &[i32], root: i32) -> (found: Option<usize>)
    ensures
        match found {
            Some(i) => {
                &&& i < screen_numbers@.len()
                &&& screen_numbers@[i as int] == root
                &&& forall|k: int| 0 <= k < i ==> screen_numbers@[k] != root
            },
            None => forall|k: int| 0 <= k < screen_numbers@.len() ==> screen_numbers@[k] != root,
        },
{
    let mut idx: usize = 0;
    while idx < screen_numbers.len()
        invariant
            idx <= screen_numbers@.len(),
            forall|k: int| 0 <= k < idx ==> screen_numbers@[k] != root,
        decreases screen_numbers@.len() - idx,
    {
        if screen_numbers[idx] == root {
            return Some(idx);
        }
        idx += 1;
    }
    None
}

/// The buttons and modifier keys that the state bits `state` report.
pub open spec fn modifiers_of(state: u32) -> Modifiers {
    Modifiers {
        button1: (state & BUTTON1_MASK) != 0,
        button2: (state & BUTTON2_MASK) != 0,
        button3: (state & BUTTON3_MASK) != 0,
        button4: (state & BUTTON4_MASK) != 0,
        button5: (state & BUTTON5_MASK) != 0,
        shift: (state & SHIFT_MASK) != 0,
        control: (state & CONTROL_MASK) != 0,
    }
}

/// The buttons and modifier keys that the state bits `state` report.
pub fn modifiers(state: u32) -> (m: Modifiers)
    ensures
        m == modifiers_of(state),
{
    Modifiers {
        button1: (state & BUTTON1_MASK) != 0,
        button2: (state & BUTTON2_MASK) != 0,
        button3: (state & BUTTON3_MASK) != 0,
        button4: (state & BUTTON4_MASK) != 0,
        button5: (state & BUTTON5_MASK) != 0,
        shift: (state & SHIFT_MASK) != 0,
        control: (state & CONTROL_MASK) != 0,
    }
}

/// Whether a client message whose first long is `first` asks the window,
/// whose delete atom is `delete_atom`, to close.
pub fn handle_client_message_event(first: i64, delete_atom: u64) -> (quit: bool)
    ensures
        quit == (first == delete_atom as i64),
{
    first == delete_atom as i64
}

/// Whether the window `own` should take the input focus on a visibility
/// event for the window `window`: it should where the event is its own and
/// nothing covers it.
pub fn handle_visibility_event(window: u64, own: u64, state: i32) -> (focus: bool)
    ensures
        focus == (window == own && state == VISIBILITY_UNOBSCURED),
{
    window == own && state == VISIBILITY_UNOBSCURED
}

/// The event for a window that is now `width` by `height`.
pub fn handle_configure_event(width: i32, height: i32) -> (e: Event)
    ensures
        e == Event::Configure(WindowConfigureEventData { width, height }),
{
    Event::Configure(WindowConfigureEventData { width, height })
}

/// Whether `ke` is the key event for these values of an X key event, the
/// key symbol that was looked up for it, and the text that key gives.
pub open spec fn is_key_event(
    ke: KeyEventData,
    x: i32,
    y: i32,
    state: u32,
    type_: i32,
    keysym: u64,
    desc: Seq<u8>,
) -> bool {
    let m = modifiers_of(state);
    &&& ke.pointer_x == x
    &&& ke.pointer_y == y
    &&& ke.keycode == x11_key_symbol(keysym)
    &&& ke.type_ == if type_ == KEY_PRESS {
        ActionType::Press
    } else {
        ActionType::Release
    }
    &&& ke.button1 == m.button1
    &&& ke.button2 == m.button2
    &&& ke.button3 == m.button3
    &&& ke.button4 == m.button4
    &&& ke.button5 == m.button5
    &&& ke.shift == m.shift
    &&& ke.control == m.control
    &&& ke.name@ == key_name(desc)
}

/// The event for a key that went down or up.
pub fn handle_key_event(x: i32, y: i32, state: u32, type_: i32, keysym: u64, desc: &[u8]) -> (e:
    Event)
    ensures
        e matches Event::Input(InputEventData::Key(ke)) && is_key_event(
            ke,
            x,
            y,
            state,
            type_,
            keysym,
            desc@,
        ),
{
    let m = modifiers(state);
    let ke = KeyEventData {
        pointer_x: x,
        pointer_y: y,
        keycode: map_x11_key_symbol(keysym),
        type_: if type_ == KEY_PRESS {
            ActionType::Press
        } else {
            ActionType::Release
        },
        button1: m.button1,
        button2: m.button2,
        button3: m.button3,
        button4: m.button4,
        button5: m.button5,
        shift: m.shift,
        control: m.control,
        name: make_key_name(desc),
    };
    Event::Input(InputEventData::Key(ke))
}

/// The event for values of an X button event. The first three buttons give
/// a button event; any other is the wheel, turned away by one notch for the
/// fourth button and toward the user for the rest.
pub open spec fn button_event(x: i32, y: i32, state: u32, type_: i32, button: u32) -> Event {
    let m = modifiers_of(state);
    if 1 <= button <= 3 {
        Event::Input(
            InputEventData::MouseButton(
                MouseButtonEventData {
                    pointer_x: x,
                    pointer_y: y,
                    button: if button == 1 {
                        MouseButtonId::Button1
                    } else if button == 2 {
                        MouseButtonId::Button2
                    } else {
                        MouseButtonId::Button3
                    },
                    type_: if type_ == BUTTON_PRESS {
                        ActionType::Press
                    } else {
                        ActionType::Release
                    },
                    button1: m.button1,
                    button2: m.button2,
                    button3: m.button3,
                    button4: m.button4,
                    button5: m.button5,
                    shift: m.shift,
                    control: m.control,
                },
            ),
        )
    } else {
        Event::Input(
            InputEventData::MouseWheel(
                MouseWheelEventData {
                    pointer_x: x,
                    pointer_y: y,
                    delta: if button == 4 {
                        -1i32
                    } else {
                        1i32
                    },
                    button1: m.button1,
                    button2: m.button2,
                    button3: m.button3,
                    button4: m.button4,
                    button5: m.button5,
                    shift: m.shift,
                    control: m.control,
                },
            ),
        )
    }
}

/// The event for a pointer button that went down or up.
pub fn handle_mouse_button_event(x: i32, y: i32, state: u32, type_: i32, button: u32) -> (e: Event)
    ensures
        e == button_event(x, y, state, type_, button),
{
    let mapped_btn = match button {
        1 => Some(MouseButtonId::Button1),
        2 => Some(MouseButtonId::Button2),
        3 => Some(MouseButtonId::Button3),
        _ => None,
    };
    let m = modifiers(state);
    match mapped_btn {
        None => {
            let mwe = MouseWheelEventData {
                pointer_x: x,
                pointer_y: y,
                delta: if button == 4 {
                    -1
                } else {
                    1
                },
                button1: m.button1,
                button2: m.button2,
                button3: m.button3,
                button4: m.button4,
                button5: m.button5,
                shift: m.shift,
                control: m.control,
            };
            Event::Input(InputEventData::MouseWheel(mwe))
        },
        Some(btn) => {
            let mbtn_evt = MouseButtonEventData {
                pointer_x: x,
                pointer_y: y,
                button: btn,
                type_: if type_ == BUTTON_PRESS {
                    ActionType::Press
                } else {
                    ActionType::Release
                },
                button1: m.button1,
                button2: m.button2,
                button3: m.button3,
                button4: m.button4,
                button5: m.button5,
                shift: m.shift,
                control: m.control,
            };
            Event::Input(InputEventData::MouseButton(mbtn_evt))
        },
    }
}

/// The event for a pointer that moved.
pub fn handle_mouse_motion_event(x: i32, y: i32, state: u32) -> (e: Event)
    ensures
        e == Event::Input(
            InputEventData::MouseMotion(
                MouseMotionEventData {
                    pointer_x: x,
                    pointer_y: y,
                    button1: modifiers_of(state).button1,
                    button2: modifiers_of(state).button2,
                    button3: modifiers_of(state).button3,
                    button4: modifiers_of(state).button4,
                    button5: modifiers_of(state).button5,
                    shift: modifiers_of(state).shift,
                    control: modifiers_of(state).control,
                },
            ),
        ),
{
    let m = modifiers(state);
    Event::Input(
        InputEventData::MouseMotion(
            MouseMotionEventData {
                pointer_x: x,
                pointer_y: y,
                button1: m.button1,
                button2: m.button2,
                button3: m.button3,
                button4: m.button4,
                button5: m.button5,
                shift: m.shift,
                control: m.control,
            },
        ),
    )
}

} // verus!
