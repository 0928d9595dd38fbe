//! What the window tells the application: input, resizes, and the tick of
//! the main loop.

use crate::keysyms::KeySymbol;
use vstd::prelude::*;

verus! {

/// Whether a key or button went down or up.
#[derive(Copy, Debug, Clone, PartialEq, Eq, Hash)]
pub enum ActionType {
    Press,
    Release,
}

impl ActionType {
    /// The number of the action: zero for a press, one for a release.
    pub open spec fn number(self) -> u8 {
        match self {
            ActionType::Press => 0u8,
            ActionType::Release => 1u8,
        }
    }

    /// The number of the action: zero for a press, one for a release.
    pub fn to_u8(self) -> (n: u8)
        ensures
            n == self.number(),
    {
        match self {
            ActionType::Press => 0,
            ActionType::Release => 1,
        }
    }

    /// The action of the number `n`, if there is one.
    pub fn from_u8(n: u8) -> (a: Option<ActionType>)
        ensures
            a is Some <==> n < 2,
            a matches Some(v) ==> v.number() == n,
    {
        match n {
            0 => Some(ActionType::Press),
            1 => Some(ActionType::Release),
            _ => None,
        }
    }
}

/// A button of the pointer.
#[derive(Copy, Debug, Clone, PartialEq, Eq, Hash)]
pub enum MouseButtonId {
    Button1,
    Button2,
    Button3,
    Button4,
    Button5,
}

impl MouseButtonId {
    /// The number of the button, counted from zero.
    pub open spec fn number(self) -> u8 {
        match self {
            MouseButtonId::Button1 => 0u8,
            MouseButtonId::Button2 => 1u8,
            MouseButtonId::Button3 => 2u8,
            MouseButtonId::Button4 => 3u8,
            MouseButtonId::Button5 => 4u8,
        }
    }

    /// The number of the button, counted from zero.
    pub fn to_u8(self) -> (n: u8)
        ensures
            n == self.number(),
    {
        match self {
            MouseButtonId::Button1 => 0,
            MouseButtonId::Button2 => 1,
            MouseButtonId::Button3 => 2,
            MouseButtonId::Button4 => 3,
            MouseButtonId::Button5 => 4,
        }
    }

    /// The button of the number `n`, counted from zero, if there is one.
    pub fn from_u8(n: u8) -> (b: Option<MouseButtonId>)
        ensures
            b is Some <==> n < 5,
            b matches Some(v) ==> v.number() == n,
    {
        match n {
            0 => Some(MouseButtonId::Button1),
            1 => Some(MouseButtonId::Button2),
            2 => Some(MouseButtonId::Button3),
            3 => Some(MouseButtonId::Button4),
            4 => Some(MouseButtonId::Button5),
            _ => None,
        }
    }
}

/// Which buttons and modifier keys are held down.
#[derive(Copy, Debug, Clone, PartialEq, Eq)]
pub struct Modifiers {
    pub button1: bool,
    pub button2: bool,
    pub button3: bool,
    pub button4: bool,
    pub button5: bool,
    pub shift: bool,
    pub control: bool,
}

/// A key went down or up.
#[derive(Copy, Debug, Clone, PartialEq, Eq)]
pub struct KeyEventData {
    /// X pointer position (client coords)
    pub pointer_x: i32,
    /// Y pointer position (client coords)
    pub pointer_y: i32,
    /// Code of key that generated the event.
    pub keycode: KeySymbol,
    /// Press or release
    pub type_: ActionType,
    /// Active modifiers
    pub button1: bool,
    pub button2: bool,
    pub button3: bool,
    pub button4: bool,
    pub button5: bool,
    pub shift: bool,
    pub control: bool,
    pub name: [u8; 32],
}

impl Default for KeyEventData {
    fn default() -> (d: Self)
        ensures
            d.pointer_x == 0,
            d.pointer_y == 0,
            d.keycode == KeySymbol::Unknown,
            d.type_ == ActionType::Press,
            !d.button1 && !d.button2 && !d.button3 && !d.button4 && !d.button5,
            !d.shift && !d.control,
            d.name@ == key_name(Seq::empty()),
    {
        let name = [0u8; 32];
        assert(name@ =~= key_name(Seq::empty()));
        Self {
            pointer_x: 0,
            pointer_y: 0,
            keycode: KeySymbol::Unknown,
            type_: ActionType::Press,
            button1: false,
            button2: false,
            button3: false,
            button4: false,
            button5: false,
            shift: false,
            control: false,
            name,
        }
    }
}

/// A button of the pointer went down or up.
#[derive(Copy, Debug, Clone, PartialEq, Eq)]
pub struct MouseButtonEventData {
    /// X pointer position (client coords)
    pub pointer_x: i32,
    /// Y pointer position (client coords)
    pub pointer_y: i32,
    /// Code of button that generated the event.
    pub button: MouseButtonId,
    /// Press or release
    pub type_: ActionType,
    /// Active modifiers
    pub button1: bool,
    pub button2: bool,
    pub button3: bool,
    pub button4: bool,
    pub button5: bool,
    pub shift: bool,
    pub control: bool,
}

impl Default for MouseButtonEventData {
    fn default() -> (d: Self)
        ensures
            d == (Self {
                pointer_x: 0,
                pointer_y: 0,
                button: MouseButtonId::Button1,
                type_: ActionType::Press,
                button1: false,
                button2: false,
                button3: false,
                button4: false,
                button5: false,
                shift: false,
                control: false,
            }),
    {
        Self {
            pointer_x: 0,
            pointer_y: 0,
            button: MouseButtonId::Button1,
            type_: ActionType::Press,
            button1: false,
            button2: false,
            button3: false,
            button4: false,
            button5: false,
            shift: false,
            control: false,
        }
    }
}

/// The wheel turned.
#[derive(Copy, Debug, Clone, PartialEq, Eq)]
pub struct MouseWheelEventData {
    /// X pointer position (client coords)
    pub pointer_x: i32,
    /// Y pointer position (client coords)
    pub pointer_y: i32,
    /// Amount of movement.
    pub delta: i32,
    /// Active modifiers
    pub button1: bool,
    pub button2: bool,
    pub button3: bool,
    pub button4: bool,
    pub button5: bool,
    pub shift: bool,
    pub control: bool,
}

impl Default for MouseWheelEventData {
    fn default() -> (d: Self)
        ensures
            d == (Self {
                pointer_x: 0,
                pointer_y: 0,
                delta: 0,
                button1: false,
                button2: false,
                button3: false,
                button4: false,
                button5: false,
                shift: false,
                control: false,
            }),
    {
        Self {
            pointer_x: 0,
            pointer_y: 0,
            delta: 0,
            button1: false,
            button2: false,
            button3: false,
            button4: false,
            button5: false,
            shift: false,
            control: false,
        }
    }
}

/// The pointer moved.
#[derive(Copy, Debug, Clone, PartialEq, Eq)]
pub struct MouseMotionEventData {
    /// X pointer position (client coords)
    pub pointer_x: i32,
    /// Y pointer position (client coords)
    pub pointer_y: i32,
    /// Active modifiers
    pub button1: bool,
    pub button2: bool,
    pub button3: bool,
    pub button4: bool,
    pub button5: bool,
    pub shift: bool,
    pub control: bool,
}

impl Default for MouseMotionEventData {
    fn default() -> (d: Self)
        ensures
            d == (Self {
                pointer_x: 0,
                pointer_y: 0,
                button1: false,
                button2: false,
                button3: false,
                button4: false,
                button5: false,
                shift: false,
                control: false,
            }),
    {
        Self {
            pointer_x: 0,
            pointer_y: 0,
            button1: false,
            button2: false,
            button3: false,
            button4: false,
            button5: false,
            shift: false,
            control: false,
        }
    }
}

/// The window has a new size.
#[derive(Copy, Debug, Clone, PartialEq, Eq)]
pub struct WindowConfigureEventData {
    pub width: i32,
    pub height: i32,
}

impl Default for WindowConfigureEventData {
    fn default() -> (d: Self)
        ensures
            d == (Self {
                width: 0,
                height: 0,
            }),
    {
        Self {
            width: 0,
            height: 0,
        }
    }
}

/// One turn of the main loop: the sizes of the drawing surface and of the
/// window.
#[derive(Copy, Debug, Clone, PartialEq, Eq)]
pub struct LoopEventData {
    pub surface_width: i32,
    pub surface_height: i32,
    pub window_width: i32,
    pub window_height: i32,
}

impl Default for LoopEventData {
    fn default() -> (d: Self)
        ensures
            d == (Self {
                surface_width: 0,
                surface_height: 0,
                window_width: 0,
                window_height: 0,
            }),
    {
        Self {
            surface_width: 0,
            surface_height: 0,
            window_width: 0,
            window_height: 0,
        }
    }
}

/// An event of the keyboard or the pointer.
#[derive(Copy, Clone, Debug, PartialEq, Eq)]
pub enum InputEventData {
    MouseButton(MouseButtonEventData),
    MouseWheel(MouseWheelEventData),
    MouseMotion(MouseMotionEventData),
    Key(KeyEventData),
}

/// What the window tells the application.
#[derive(Copy, Debug, Clone, PartialEq, Eq)]
pub enum Event {
    Input(InputEventData),
    Configure(WindowConfigureEventData),
    Loop(LoopEventData),
    InputBegin,
    InputEnd,
}

/// The name of a key as an event carries it: the first 32 bytes of `desc`,
/// and zeros after them where it is shorter.
pub open spec fn key_name(desc: Seq<u8>) -> Seq<u8> {
    Seq::new(
        32,
        |i: int|
            if i < desc.len() {
                desc[i]
            } else {
                0u8
            },
    )
}

/// The name of a key as an event carries it: the first 32 bytes of `desc`,
/// and zeros after them where it is shorter.
pub fn make_key_name(desc: &[u8]) -> (name: [u8; 32])
    ensures
        name@ == key_name(desc@),
{
    let mut name = [0u8; 32];
    let mut i: usize = 0;
    while i < 32 && i < desc.len()
        invariant
            i <= 32,
            i <= desc@.len(),
            forall|k: int| 0 <= k < i ==> name@[k] == desc@[k],
            forall|k: int| i <= k < 32 ==> name@[k] == 0u8,
        decreases 32 - i,
    {
        name[i] = desc[i];
        i += 1;
    }
    assert(name@ =~= key_name(desc@));
    name
}

} // verus!
