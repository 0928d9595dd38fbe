//! From the window messages of Windows, given as their numbers and
//! parameters, to the events of this library.

use crate::events::key_name;
use crate::events::make_key_name;
use crate::events::ActionType;
use crate::events::Event;
use crate::events::InputEventData;
use crate::events::KeyEventData;
use crate::events::Modifiers;
use crate::events::MouseButtonEventData;
use crate::events::MouseButtonId;
use crate::events::MouseMotionEventData;
use crate::events::MouseWheelEventData;
use crate::events::WindowConfigureEventData;
use crate::keysyms::map_key_symbol;
use crate::keysyms::win32_key_symbol;
use vstd::prelude::*;

verus! {

/// Message numbers and key state bits, as Windows defines them.
pub const WM_DESTROY: u32 = 0x0002;

pub const WM_SIZE: u32 = 0x0005;

pub const WM_CLOSE: u32 = 0x0010;

pub const WM_WINDOWPOSCHANGED: u32 = 0x0047;

pub const WM_KEYDOWN: u32 = 0x0100;

pub const WM_KEYUP: u32 = 0x0101;

pub const WM_MOUSEMOVE: u32 = 0x0200;

pub const WM_LBUTTONDOWN: u32 = 0x0201;

pub const WM_LBUTTONUP: u32 = 0x0202;

pub const WM_RBUTTONDOWN: u32 = 0x0204;

pub const WM_RBUTTONUP: u32 = 0x0205;

pub const WM_MOUSEWHEEL: u32 = 0x020A;

pub const MK_LBUTTON: usize = 0x0001;

pub const MK_RBUTTON: usize = 0x0002;

pub const MK_SHIFT: usize = 0x0004;

pub const MK_CONTROL: usize = 0x0008;

pub const MK_MBUTTON: usize = 0x0010;

pub const MK_XBUTTON1: usize = 0x0020;

pub const MK_XBUTTON2: usize = 0x0040;

/// Wheel movement of one notch.
pub const WHEEL_DELTA: i32 = 120;

/// The size of the screen that a frame is drawn to.
#[derive(Copy, Clone, Debug, PartialEq, Eq)]
pub struct FrameContext {
    pub screen_width: i32,
    pub screen_height: i32,
}

/// What the window procedure does with a message of a given number.
#[derive(Copy, Clone, Debug, PartialEq, Eq)]
pub enum MessageKind {
    Close,
    Destroy,
    MouseButton,
    Key,
    MouseMove,
    MouseWheel,
    Size,
    WindowPosChanged,
    Other,
}

/// What the window procedure does with the message `msg`.
pub open spec fn message_kind(msg: u32) -> MessageKind {
    if msg == WM_CLOSE {
        MessageKind::Close
    } else if msg == WM_DESTROY {
        MessageKind::Destroy
    } else if msg == WM_LBUTTONDOWN || msg == WM_LBUTTONUP || msg == WM_RBUTTONDOWN || msg
        == WM_RBUTTONUP {
        MessageKind::MouseButton
    } else if msg == WM_KEYDOWN || msg == WM_KEYUP {
        MessageKind::Key
    } else if msg == WM_MOUSEMOVE {
        MessageKind::MouseMove
    } else if msg == WM_MOUSEWHEEL {
        MessageKind::MouseWheel
    } else if msg == WM_SIZE {
        MessageKind::Size
    } else if msg == WM_WINDOWPOSCHANGED {
        MessageKind::WindowPosChanged
    } else {
        MessageKind::Other
    }
}

/// What the window procedure does with the message `msg`.
pub fn classify_message(msg: u32) -> (k: MessageKind)
    ensures
        k == message_kind(msg),
{
    match msg {
        WM_CLOSE => MessageKind::Close,
        WM_DESTROY => MessageKind::Destroy,
        WM_LBUTTONDOWN | WM_LBUTTONUP | WM_RBUTTONDOWN | WM_RBUTTONUP => MessageKind::MouseButton,
        WM_KEYDOWN | WM_KEYUP => MessageKind::Key,
        WM_MOUSEMOVE => MessageKind::MouseMove,
        WM_MOUSEWHEEL => MessageKind::MouseWheel,
        WM_SIZE => MessageKind::Size,
        WM_WINDOWPOSCHANGED => MessageKind::WindowPosChanged,
        _ => MessageKind::Other,
    }
}

/// The 16 bit number `w` read as a signed one.
pub open spec fn signed_word(w: int) -> int {
    if w >= 0x8000 {
        w - 0x1_0000
    } else {
        w
    }
}

/// The low 16 bits of `l`.
pub fn loword(l: u32) -> (w: u16)
    ensures
        w == l % 0x1_0000,
{
    (l % 0x1_0000) as u16
}

/// The high 16 bits of `l`.
pub fn hiword(l: u32) -> (w: u16)
    ensures
        w == l / 0x1_0000,
{
    (l / 0x1_0000) as u16
}

fn word_as_signed(w: u16) -> (r: i32)
    ensures
        r == signed_word(w as int),
{
    if w >= 0x8000 {
        w as i32 - 0x1_0000
    } else {
        w as i32
    }
}

/// The low 32 bits of the long parameter `lp`.
fn low_dword(lp: isize) -> (d: u32)
    ensures
        d == lp as int % 0x1_0000_0000,
{
    let v: i64 = lp as i64;
    if v >= 0 {
        ((v as u64) % 0x1_0000_0000) as u32
    } else {
        let w: u64 = (-(v + 1)) as u64;
        (0xffff_ffff - (w % 0x1_0000_0000)) as u32
    }
}

/// The long parameter whose low word is `l` and whose high word is `h`:
/// the number `l + h * 65536` where a long parameter can hold it, as it can
/// where it is 64 bits wide.
#[allow(non_snake_case)]
pub fn MAKELPARAM(l: u16, h: u16) -> (lp: isize)
    ensures
        lp == ((l + h * 0x1_0000) as u32) as isize,
        l + h * 0x1_0000 <= isize::MAX ==> lp == l + h * 0x1_0000,
{
    let v: u32 = (l as u32) + (h as u32) * 0x1_0000;
    #[verifier::truncate]
    (v as isize)
}

/// The horizontal position in a long parameter: its low word, signed.
pub open spec fn x_of(lp: isize) -> int {
    signed_word(lp as int % 0x1_0000)
}

/// The vertical position in a long parameter: its second word, signed.
pub open spec fn y_of(lp: isize) -> int {
    signed_word((lp as int / 0x1_0000) % 0x1_0000)
}

/// The horizontal position in a long parameter.
pub fn get_x_lparam(lp: isize) -> (x: i32)
    ensures
        x == x_of(lp),
{
    word_as_signed(loword(low_dword(lp)))
}

/// The vertical position in a long parameter.
pub fn get_y_lparam(lp: isize) -> (y: i32)
    ensures
        y == y_of(lp),
{
    word_as_signed(hiword(low_dword(lp)))
}

/// The buttons and modifier keys that the key state bits `keys` report.
pub open spec fn modifiers_of(keys: usize) -> Modifiers {
    Modifiers {
        button1: (keys & MK_LBUTTON) != 0,
        button2: (keys & MK_MBUTTON) != 0,
        button3: (keys & MK_RBUTTON) != 0,
        button4: (keys & MK_XBUTTON1) != 0,
        button5: (keys & MK_XBUTTON2) != 0,
        shift: (keys & MK_SHIFT) != 0,
        control: (keys & MK_CONTROL) != 0,
    }
}

/// The buttons and modifier keys that the key state bits `keys` report.
pub fn modifiers(keys: usize) -> (m: Modifiers)
    ensures
        m == modifiers_of(keys),
{
    Modifiers {
        button1: (keys & MK_LBUTTON) != 0,
        button2: (keys & MK_MBUTTON) != 0,
        button3: (keys & MK_RBUTTON) != 0,
        button4: (keys & MK_XBUTTON1) != 0,
        button5: (keys & MK_XBUTTON2) != 0,
        shift: (keys & MK_SHIFT) != 0,
        control: (keys & MK_CONTROL) != 0,
    }
}

/// The event for a button message: a press for a button that went down,
/// of the first button for a message of the left one and of the third for
/// one of the right.
pub open spec fn mouse_button_event(ty: u32, wp: usize, lp: isize) -> Event {
    let m = modifiers_of(wp);
    Event::Input(
        InputEventData::MouseButton(
            MouseButtonEventData {
                pointer_x: x_of(lp) as i32,
                pointer_y: y_of(lp) as i32,
                button: if ty == WM_LBUTTONDOWN || ty == WM_LBUTTONUP {
                    MouseButtonId::Button1
                } else {
                    MouseButtonId::Button3
                },
                type_: if ty == WM_LBUTTONDOWN || ty == WM_RBUTTONDOWN {
                    ActionType::Press
                } else {
                    ActionType::Release
                },
                button1: m.button1,
                button2: m.button2,
                button3: m.button3,
                button4: m.button4,
                button5: m.button5,
                shift: m.shift,
                control: m.control,
            },
        ),
    )
}

/// The event for a button message.
pub fn event_mouse_button(ty: u32, wp: usize, lp: isize) -> (e: Event)
    ensures
        e == mouse_button_event(ty, wp, lp),
{
    let m = modifiers(wp);
    let mbe = MouseButtonEventData {
        pointer_x: get_x_lparam(lp),
        pointer_y: get_y_lparam(lp),
        button: if ty == WM_LBUTTONDOWN || ty == WM_LBUTTONUP {
            MouseButtonId::Button1
        } else {
            MouseButtonId::Button3
        },
        type_: if ty == WM_LBUTTONDOWN || ty == WM_RBUTTONDOWN {
            ActionType::Press
        } else {
            ActionType::Release
        },
        button1: m.button1,
        button2: m.button2,
        button3: m.button3,
        button4: m.button4,
        button5: m.button5,
        shift: m.shift,
        control: m.control,
    };
    Event::Input(InputEventData::MouseButton(mbe))
}

/// The event for a pointer that moved.
pub fn event_mouse_move(wp: usize, lp: isize) -> (e: Event)
    ensures
        e == Event::Input(
            InputEventData::MouseMotion(
                MouseMotionEventData {
                    pointer_x: x_of(lp) as i32,
                    pointer_y: y_of(lp) as i32,
                    button1: modifiers_of(wp).button1,
                    button2: modifiers_of(wp).button2,
                    button3: modifiers_of(wp).button3,
                    button4: modifiers_of(wp).button4,
                    button5: modifiers_of(wp).button5,
                    shift: modifiers_of(wp).shift,
                    control: modifiers_of(wp).control,
                },
            ),
        ),
{
    let m = modifiers(wp);
    Event::Input(
        InputEventData::MouseMotion(
            MouseMotionEventData {
                pointer_x: get_x_lparam(lp),
                pointer_y: get_y_lparam(lp),
                button1: m.button1,
                button2: m.button2,
                button3: m.button3,
                button4: m.button4,
                button5: m.button5,
                shift: m.shift,
                control: m.control,
            },
        ),
    )
}

/// The key state bits in the word parameter of a wheel message: its low
/// word.
pub open spec fn wheel_keys(wp: usize) -> usize {
    (wp % 0x1_0000) as usize
}

/// The notches that the wheel turned, from the word parameter of a wheel
/// message: its second word, signed, over the movement of one notch,
/// rounded toward zero.
pub open spec fn wheel_notches(wp: usize) -> int {
    let d = signed_word((wp as int / 0x1_0000) % 0x1_0000);
    if d >= 0 {
        d / 120
    } else {
        -((-d) / 120)
    }
}

/// The key state bits in the word parameter of a wheel message.
pub fn get_keystate_wparam(wp: usize) -> (keys: usize)
    ensures
        keys == wheel_keys(wp),
{
    let low: u32 = ((wp as u64) % 0x1_0000_0000) as u32;
    loword(low) as usize
}

/// The notches that the wheel turned, from the word parameter of a wheel
/// message.
pub fn get_wheel_notches(wp: usize) -> (notches: i32)
    ensures
        notches == wheel_notches(wp),
{
    let low: u32 = ((wp as u64) % 0x1_0000_0000) as u32;
    let high: u16 = hiword(low);
    assert(high == (wp as int / 0x1_0000) % 0x1_0000);
    let turned: i32 = word_as_signed(high);
    if turned >= 0 {
        turned / WHEEL_DELTA
    } else {
        -((-turned) / WHEEL_DELTA)
    }
}

/// The event for a wheel that turned.
pub fn event_mouse_wheel(wp: usize, lp: isize) -> (e: Event)
    ensures
        e == Event::Input(
            InputEventData::MouseWheel(
                MouseWheelEventData {
                    pointer_x: x_of(lp) as i32,
                    pointer_y: y_of(lp) as i32,
                    delta: wheel_notches(wp) as i32,
                    button1: modifiers_of(wheel_keys(wp)).button1,
                    button2: modifiers_of(wheel_keys(wp)).button2,
                    button3: modifiers_of(wheel_keys(wp)).button3,
                    button4: modifiers_of(wheel_keys(wp)).button4,
                    button5: modifiers_of(wheel_keys(wp)).button5,
                    shift: modifiers_of(wheel_keys(wp)).shift,
                    control: modifiers_of(wheel_keys(wp)).control,
                },
            ),
        ),
{
    let notches: i32 = get_wheel_notches(wp);
    let m = modifiers(get_keystate_wparam(wp));
    Event::Input(
        InputEventData::MouseWheel(
            MouseWheelEventData {
                pointer_x: get_x_lparam(lp),
                pointer_y: get_y_lparam(lp),
                delta: notches,
                button1: m.button1,
                button2: m.button2,
                button3: m.button3,
                button4: m.button4,
                button5: m.button5,
                shift: m.shift,
                control: m.control,
            },
        ),
    )
}

/// Whether `ke` is the key event for a key message with these parameters
/// and the text that names the key. A name longer than an event can carry
/// is left out whole.
pub open spec fn is_key_event(ke: KeyEventData, msg: u32, wp: usize, lp: isize, name: Seq<u8>) -> bool {
    let m = modifiers_of(wp);
    &&& ke.pointer_x == x_of(lp)
    &&& ke.pointer_y == y_of(lp)
    &&& ke.keycode == win32_key_symbol(wp as int)
    &&& ke.type_ == if msg == WM_KEYDOWN {
        ActionType::Press
    } else {
        ActionType::Release
    }
    &&& ke.button1 == m.button1
    &&& ke.button2 == m.button2
    &&& ke.button3 == m.button3
    &&& ke.button4 == m.button4
    &&& ke.button5 == m.button5
    &&& ke.shift == m.shift
    &&& ke.control == m.control
    &&& ke.name@ == if name.len() <= 32 {
        key_name(name)
    } else {
        key_name(Seq::empty())
    }
}

/// The event for a key that went down or up.
pub fn event_key(msg: u32, wp: usize, lp: isize, name: &[u8]) -> (e: Event)
    ensures
        e matches Event::Input(InputEventData::Key(ke)) && is_key_event(ke, msg, wp, lp, name@),
{
    let m = modifiers(wp);
    let empty: [u8; 0] = [];
    let ke = KeyEventData {
        pointer_x: get_x_lparam(lp),
        pointer_y: get_y_lparam(lp),
        keycode: map_key_symbol(wp),
        type_: if msg == WM_KEYDOWN {
            ActionType::Press
        } else {
            ActionType::Release
        },
        button1: m.button1,
        button2: m.button2,
        button3: m.button3,
        button4: m.button4,
        button5: m.button5,
        shift: m.shift,
        control: m.control,
        name: if name.len() <= 32 {
            make_key_name(name)
        } else {
            let none = make_key_name(empty.as_slice());
            assert(empty@ =~= Seq::<u8>::empty());
            none
        },
    };
    Event::Input(InputEventData::Key(ke))
}

/// The event for a window whose client area is now `width` by `height`.
pub fn event_wmsize(width: i32, height: i32) -> (e: Event)
    ensures
        e == Event::Configure(WindowConfigureEventData { width, height }),
{
    Event::Configure(WindowConfigureEventData { width, height })
}

} // verus!
