//! Key symbols, and the tables that map the key codes of the X Window
//! System and of Windows to them.

use vstd::prelude::*;

verus! {

/// A key of the keyboard, whatever the platform calls it.
#[derive(Copy, Clone, Debug, PartialEq, Eq, Hash)]
pub enum KeySymbol {
    Unknown,
    Backspace,
    Tab,
    Clear,
    Enter,
    Pause,
    Escape,
    Space,
    PageUp,
    PageDown,
    End,
    Home,
    Left,
    Up,
    Right,
    Down,
    Select,
    PrintScreen,
    Insert,
    Del,
    Key0,
    Key1,
    Key2,
    Key3,
    Key4,
    Key5,
    Key6,
    Key7,
    Key8,
    Key9,
    KeyA,
    KeyB,
    KeyC,
    KeyD,
    KeyE,
    KeyF,
    KeyG,
    KeyH,
    KeyI,
    KeyJ,
    KeyK,
    KeyL,
    KeyM,
    KeyN,
    KeyO,
    KeyP,
    KeyQ,
    KeyR,
    KeyS,
    KeyT,
    KeyU,
    KeyV,
    KeyW,
    KeyX,
    KeyY,
    KeyZ,
    LeftWin,
    RightWin,
    Kp0,
    Kp1,
    Kp2,
    Kp3,
    Kp4,
    Kp5,
    Kp6,
    Kp7,
    Kp8,
    Kp9,
    KpMultiply,
    KpAdd,
    KpMinus,
    KpDivide,
    F1,
    F2,
    F3,
    F4,
    F5,
    F6,
    F7,
    F8,
    F9,
    F10,
    F11,
    F12,
    ScrolLock,
    LeftShift,
    RightShift,
    LeftControl,
    RightControl,
    LeftMenu,
    RightMenu,
    LeftAlt,
    RightAlt,
}

/// The key of the digit `n`.
pub open spec fn digit_key(n: int) -> KeySymbol {
    if n == 0 {
        KeySymbol::Key0
    } else if n == 1 {
        KeySymbol::Key1
    } else if n == 2 {
        KeySymbol::Key2
    } else if n == 3 {
        KeySymbol::Key3
    } else if n == 4 {
        KeySymbol::Key4
    } else if n == 5 {
        KeySymbol::Key5
    } else if n == 6 {
        KeySymbol::Key6
    } else if n == 7 {
        KeySymbol::Key7
    } else if n == 8 {
        KeySymbol::Key8
    } else if n == 9 {
        KeySymbol::Key9
    } else {
        KeySymbol::Unknown
    }
}

/// The key of the letter at `n` in the alphabet, counted from zero.
pub open spec fn letter_key(n: int) -> KeySymbol {
    if n == 0 {
        KeySymbol::KeyA
    } else if n == 1 {
        KeySymbol::KeyB
    } else if n == 2 {
        KeySymbol::KeyC
    } else if n == 3 {
        KeySymbol::KeyD
    } else if n == 4 {
        KeySymbol::KeyE
    } else if n == 5 {
        KeySymbol::KeyF
    } else if n == 6 {
        KeySymbol::KeyG
    } else if n == 7 {
        KeySymbol::KeyH
    } else if n == 8 {
        KeySymbol::KeyI
    } else if n == 9 {
        KeySymbol::KeyJ
    } else if n == 10 {
        KeySymbol::KeyK
    } else if n == 11 {
        KeySymbol::KeyL
    } else if n == 12 {
        KeySymbol::KeyM
    } else if n == 13 {
        KeySymbol::KeyN
    } else if n == 14 {
        KeySymbol::KeyO
    } else if n == 15 {
        KeySymbol::KeyP
    } else if n == 16 {
        KeySymbol::KeyQ
    } else if n == 17 {
        KeySymbol::KeyR
    } else if n == 18 {
        KeySymbol::KeyS
    } else if n == 19 {
        KeySymbol::KeyT
    } else if n == 20 {
        KeySymbol::KeyU
    } else if n == 21 {
        KeySymbol::KeyV
    } else if n == 22 {
        KeySymbol::KeyW
    } else if n == 23 {
        KeySymbol::KeyX
    } else if n == 24 {
        KeySymbol::KeyY
    } else if n == 25 {
        KeySymbol::KeyZ
    } else {
        KeySymbol::Unknown
    }
}

/// The key of the digit `n` on the keypad.
pub open spec fn keypad_key(n: int) -> KeySymbol {
    if n == 0 {
        KeySymbol::Kp0
    } else if n == 1 {
        KeySymbol::Kp1
    } else if n == 2 {
        KeySymbol::Kp2
    } else if n == 3 {
        KeySymbol::Kp3
    } else if n == 4 {
        KeySymbol::Kp4
    } else if n == 5 {
        KeySymbol::Kp5
    } else if n == 6 {
        KeySymbol::Kp6
    } else if n == 7 {
        KeySymbol::Kp7
    } else if n == 8 {
        KeySymbol::Kp8
    } else if n == 9 {
        KeySymbol::Kp9
    } else {
        KeySymbol::Unknown
    }
}

/// The function key of the number `n`.
pub open spec fn function_key(n: int) -> KeySymbol {
    if n == 1 {
        KeySymbol::F1
    } else if n == 2 {
        KeySymbol::F2
    } else if n == 3 {
        KeySymbol::F3
    } else if n == 4 {
        KeySymbol::F4
    } else if n == 5 {
        KeySymbol::F5
    } else if n == 6 {
        KeySymbol::F6
    } else if n == 7 {
        KeySymbol::F7
    } else if n == 8 {
        KeySymbol::F8
    } else if n == 9 {
        KeySymbol::F9
    } else if n == 10 {
        KeySymbol::F10
    } else if n == 11 {
        KeySymbol::F11
    } else if n == 12 {
        KeySymbol::F12
    } else {
        KeySymbol::Unknown
    }
}

/// The key for the code `i` of the Latin 1 page of X key symbols: the space
/// bar, the digits, and the letters of either case.
pub open spec fn x11_latin1_symbol(i: int) -> KeySymbol {
    if i == 32 {
        KeySymbol::Space
    } else if 48 <= i <= 57 {
        digit_key(i - 48)
    } else if 65 <= i <= 90 {
        letter_key(i - 65)
    } else if 97 <= i <= 122 {
        letter_key(i - 97)
    } else {
        KeySymbol::Unknown
    }
}

/// The key for the code `i` of the function page of X key symbols.
pub open spec fn x11_function_symbol(i: int) -> KeySymbol {
    if i == 8 {
        KeySymbol::Backspace
    } else if i == 9 {
        KeySymbol::Tab
    } else if i == 11 {
        KeySymbol::Clear
    } else if i == 13 {
        KeySymbol::Enter
    } else if i == 19 {
        KeySymbol::Pause
    } else if i == 20 {
        KeySymbol::ScrolLock
    } else if i == 27 {
        KeySymbol::Escape
    } else if i == 80 {
        KeySymbol::Home
    } else if i == 81 {
        KeySymbol::Left
    } else if i == 82 {
        KeySymbol::Up
    } else if i == 83 {
        KeySymbol::Right
    } else if i == 84 {
        KeySymbol::Down
    } else if i == 85 {
        KeySymbol::PageUp
    } else if i == 86 {
        KeySymbol::PageDown
    } else if i == 87 {
        KeySymbol::End
    } else if i == 96 {
        KeySymbol::Select
    } else if i == 97 {
        KeySymbol::PrintScreen
    } else if i == 99 {
        KeySymbol::Insert
    } else if i == 170 {
        KeySymbol::KpMultiply
    } else if i == 171 {
        KeySymbol::KpAdd
    } else if i == 173 {
        KeySymbol::KpMinus
    } else if i == 175 {
        KeySymbol::KpDivide
    } else if 176 <= i <= 185 {
        keypad_key(i - 176)
    } else if 190 <= i <= 201 {
        function_key(i - 189)
    } else if i == 225 {
        KeySymbol::LeftShift
    } else if i == 226 {
        KeySymbol::RightShift
    } else if i == 227 {
        KeySymbol::LeftControl
    } else if i == 228 {
        KeySymbol::RightControl
    } else if i == 231 {
        KeySymbol::LeftMenu
    } else if i == 232 {
        KeySymbol::RightMenu
    } else if i == 233 {
        KeySymbol::LeftAlt
    } else if i == 234 {
        KeySymbol::RightAlt
    } else if i == 235 {
        KeySymbol::LeftWin
    } else if i == 236 {
        KeySymbol::RightWin
    } else if i == 255 {
        KeySymbol::Del
    } else {
        KeySymbol::Unknown
    }
}

/// The key for the X key symbol `x11_key`. Its second byte names the page,
/// zero for Latin 1 and `0xFF` for function keys, and its first byte the
/// code in the page; higher bytes are not looked at.
pub open spec fn x11_key_symbol(x11_key: u64) -> KeySymbol {
    let page = (x11_key / 256) % 256;
    let code = x11_key % 256;
    if page == 0 {
        x11_latin1_symbol(code as int)
    } else if page == 255 {
        x11_function_symbol(code as int)
    } else {
        KeySymbol::Unknown
    }
}

/// The key for the Windows virtual key code `i`.
pub open spec fn win32_key_symbol(i: int) -> KeySymbol {
    if !(0 <= i < 256) {
        KeySymbol::Unknown
    } else if i == 8 {
        KeySymbol::Backspace
    } else if i == 9 {
        KeySymbol::Tab
    } else if i == 12 {
        KeySymbol::Clear
    } else if i == 13 {
        KeySymbol::Enter
    } else if i == 19 {
        KeySymbol::Pause
    } else if i == 27 {
        KeySymbol::Escape
    } else if i == 32 {
        KeySymbol::Space
    } else if i == 33 {
        KeySymbol::PageUp
    } else if i == 34 {
        KeySymbol::PageDown
    } else if i == 35 {
        KeySymbol::End
    } else if i == 36 {
        KeySymbol::Home
    } else if i == 37 {
        KeySymbol::Left
    } else if i == 38 {
        KeySymbol::Up
    } else if i == 39 {
        KeySymbol::Right
    } else if i == 40 {
        KeySymbol::Down
    } else if i == 41 {
        KeySymbol::Select
    } else if i == 42 {
        KeySymbol::PrintScreen
    } else if i == 45 {
        KeySymbol::Insert
    } else if i == 46 {
        KeySymbol::Del
    } else if 48 <= i <= 57 {
        digit_key(i - 48)
    } else if 65 <= i <= 90 {
        letter_key(i - 65)
    } else if i == 91 {
        KeySymbol::LeftWin
    } else if i == 92 {
        KeySymbol::RightWin
    } else if 96 <= i <= 105 {
        keypad_key(i - 96)
    } else if i == 106 {
        KeySymbol::KpMultiply
    } else if i == 107 {
        KeySymbol::KpAdd
    } else if i == 109 {
        KeySymbol::KpMinus
    } else if i == 111 {
        KeySymbol::KpDivide
    } else if 112 <= i <= 123 {
        function_key(i - 111)
    } else if i == 145 {
        KeySymbol::ScrolLock
    } else if i == 160 {
        KeySymbol::LeftShift
    } else if i == 161 {
        KeySymbol::RightShift
    } else if i == 162 {
        KeySymbol::LeftControl
    } else if i == 163 {
        KeySymbol::RightControl
    } else if i == 164 {
        KeySymbol::LeftMenu
    } else if i == 165 {
        KeySymbol::RightMenu
    } else {
        KeySymbol::Unknown
    }
}

const X11_LATIN1_KEYS_MAPPING_TABLE: [KeySymbol; 256] = [
    KeySymbol::Unknown, KeySymbol::Unknown, KeySymbol::Unknown, KeySymbol::Unknown,
    KeySymbol::Unknown, KeySymbol::Unknown, KeySymbol::Unknown, KeySymbol::Unknown,
    KeySymbol::Unknown, KeySymbol::Unknown, KeySymbol::Unknown, KeySymbol::Unknown,
    KeySymbol::Unknown, KeySymbol::Unknown, KeySymbol::Unknown, KeySymbol::Unknown,
    KeySymbol::Unknown, KeySymbol::Unknown, KeySymbol::Unknown, KeySymbol::Unknown,
    KeySymbol::Unknown, KeySymbol::Unknown, KeySymbol::Unknown, KeySymbol::Unknown,
    KeySymbol::Unknown, KeySymbol::Unknown, KeySymbol::Unknown, KeySymbol::Unknown,
    KeySymbol::Unknown, KeySymbol::Unknown, KeySymbol::Unknown, KeySymbol::Unknown,
    KeySymbol::Space, KeySymbol::Unknown, KeySymbol::Unknown, KeySymbol::Unknown,
    KeySymbol::Unknown, KeySymbol::Unknown, KeySymbol::Unknown, KeySymbol::Unknown,
    KeySymbol::Unknown, KeySymbol::Unknown, KeySymbol::Unknown, KeySymbol::Unknown,
    KeySymbol::Unknown, KeySymbol::Unknown, KeySymbol::Unknown, KeySymbol::Unknown,
    KeySymbol::Key0, KeySymbol::Key1, KeySymbol::Key2, KeySymbol::Key3,
    KeySymbol::Key4, KeySymbol::Key5, KeySymbol::Key6, KeySymbol::Key7,
    KeySymbol::Key8, KeySymbol::Key9, KeySymbol::Unknown, KeySymbol::Unknown,
    KeySymbol::Unknown, KeySymbol::Unknown, KeySymbol::Unknown, KeySymbol::Unknown,
    KeySymbol::Unknown, KeySymbol::KeyA, KeySymbol::KeyB, KeySymbol::KeyC,
    KeySymbol::KeyD, KeySymbol::KeyE, KeySymbol::KeyF, KeySymbol::KeyG,
    KeySymbol::KeyH, KeySymbol::KeyI, KeySymbol::KeyJ, KeySymbol::KeyK,
    KeySymbol::KeyL, KeySymbol::KeyM, KeySymbol::KeyN, KeySymbol::KeyO,
    KeySymbol::KeyP, KeySymbol::KeyQ, KeySymbol::KeyR, KeySymbol::KeyS,
    KeySymbol::KeyT, KeySymbol::KeyU, KeySymbol::KeyV, KeySymbol::KeyW,
    KeySymbol::KeyX, KeySymbol::KeyY, KeySymbol::KeyZ, KeySymbol::Unknown,
    KeySymbol::Unknown, KeySymbol::Unknown, KeySymbol::Unknown, KeySymbol::Unknown,
    KeySymbol::Unknown, KeySymbol::KeyA, KeySymbol::KeyB, KeySymbol::KeyC,
    KeySymbol::KeyD, KeySymbol::KeyE, KeySymbol::KeyF, KeySymbol::KeyG,
    KeySymbol::KeyH, KeySymbol::KeyI, KeySymbol::KeyJ, KeySymbol::KeyK,
    KeySymbol::KeyL, KeySymbol::KeyM, KeySymbol::KeyN, KeySymbol::KeyO,
    KeySymbol::KeyP, KeySymbol::KeyQ, KeySymbol::KeyR, KeySymbol::KeyS,
    KeySymbol::KeyT, KeySymbol::KeyU, KeySymbol::KeyV, KeySymbol::KeyW,
    KeySymbol::KeyX, KeySymbol::KeyY, KeySymbol::KeyZ, KeySymbol::Unknown,
    KeySymbol::Unknown, KeySymbol::Unknown, KeySymbol::Unknown, KeySymbol::Unknown,
    KeySymbol::Unknown, KeySymbol::Unknown, KeySymbol::Unknown, KeySymbol::Unknown,
    KeySymbol::Unknown, KeySymbol::Unknown, KeySymbol::Unknown, KeySymbol::Unknown,
    KeySymbol::Unknown, KeySymbol::Unknown, KeySymbol::Unknown, KeySymbol::Unknown,
    KeySymbol::Unknown, KeySymbol::Unknown, KeySymbol::Unknown, KeySymbol::Unknown,
    KeySymbol::Unknown, KeySymbol::Unknown, KeySymbol::Unknown, KeySymbol::Unknown,
    KeySymbol::Unknown, KeySymbol::Unknown, KeySymbol::Unknown, KeySymbol::Unknown,
    KeySymbol::Unknown, KeySymbol::Unknown, KeySymbol::Unknown, KeySymbol::Unknown,
    KeySymbol::Unknown, KeySymbol::Unknown, KeySymbol::Unknown, KeySymbol::Unknown,
    KeySymbol::Unknown, KeySymbol::Unknown, KeySymbol::Unknown, KeySymbol::Unknown,
    KeySymbol::Unknown, KeySymbol::Unknown, KeySymbol::Unknown, KeySymbol::Unknown,
    KeySymbol::Unknown, KeySymbol::Unknown, KeySymbol::Unknown, KeySymbol::Unknown,
    KeySymbol::Unknown, KeySymbol::Unknown, KeySymbol::Unknown, KeySymbol::Unknown,
    KeySymbol::Unknown, KeySymbol::Unknown, KeySymbol::Unknown, KeySymbol::Unknown,
    KeySymbol::Unknown, KeySymbol::Unknown, KeySymbol::Unknown, KeySymbol::Unknown,
    KeySymbol::Unknown, KeySymbol::Unknown, KeySymbol::Unknown, KeySymbol::Unknown,
    KeySymbol::Unknown, KeySymbol::Unknown, KeySymbol::Unknown, KeySymbol::Unknown,
    KeySymbol::Unknown, KeySymbol::Unknown, KeySymbol::Unknown, KeySymbol::Unknown,
    KeySymbol::Unknown, KeySymbol::Unknown, KeySymbol::Unknown, KeySymbol::Unknown,
    KeySymbol::Unknown, KeySymbol::Unknown, KeySymbol::Unknown, KeySymbol::Unknown,
    KeySymbol::Unknown, KeySymbol::Unknown, KeySymbol::Unknown, KeySymbol::Unknown,
    KeySymbol::Unknown, KeySymbol::Unknown, KeySymbol::Unknown, KeySymbol::Unknown,
    KeySymbol::Unknown, KeySymbol::Unknown, KeySymbol::Unknown, KeySymbol::Unknown,
    KeySymbol::Unknown, KeySymbol::Unknown, KeySymbol::Unknown, KeySymbol::Unknown,
    KeySymbol::Unknown, KeySymbol::Unknown, KeySymbol::Unknown, KeySymbol::Unknown,
    KeySymbol::Unknown, KeySymbol::Unknown, KeySymbol::Unknown, KeySymbol::Unknown,
    KeySymbol::Unknown, KeySymbol::Unknown, KeySymbol::Unknown, KeySymbol::Unknown,
    KeySymbol::Unknown, KeySymbol::Unknown, KeySymbol::Unknown, KeySymbol::Unknown,
    KeySymbol::Unknown, KeySymbol::Unknown, KeySymbol::Unknown, KeySymbol::Unknown,
    KeySymbol::Unknown, KeySymbol::Unknown, KeySymbol::Unknown, KeySymbol::Unknown,
    KeySymbol::Unknown, KeySymbol::Unknown, KeySymbol::Unknown, KeySymbol::Unknown,
    KeySymbol::Unknown, KeySymbol::Unknown, KeySymbol::Unknown, KeySymbol::Unknown,
    KeySymbol::Unknown, KeySymbol::Unknown, KeySymbol::Unknown, KeySymbol::Unknown,
];

const X11_MISC_FUNCTION_KEYS_MAPPING_TABLE: [KeySymbol; 256] = [
    KeySymbol::Unknown, KeySymbol::Unknown, KeySymbol::Unknown, KeySymbol::Unknown,
    KeySymbol::Unknown, KeySymbol::Unknown, KeySymbol::Unknown, KeySymbol::Unknown,
    KeySymbol::Backspace, KeySymbol::Tab, KeySymbol::Unknown, KeySymbol::Clear,
    KeySymbol::Unknown, KeySymbol::Enter, KeySymbol::Unknown, KeySymbol::Unknown,
    KeySymbol::Unknown, KeySymbol::Unknown, KeySymbol::Unknown, KeySymbol::Pause,
    KeySymbol::ScrolLock, KeySymbol::Unknown, KeySymbol::Unknown, KeySymbol::Unknown,
    KeySymbol::Unknown, KeySymbol::Unknown, KeySymbol::Unknown, KeySymbol::Escape,
    KeySymbol::Unknown, KeySymbol::Unknown, KeySymbol::Unknown, KeySymbol::Unknown,
    KeySymbol::Unknown, KeySymbol::Unknown, KeySymbol::Unknown, KeySymbol::Unknown,
    KeySymbol::Unknown, KeySymbol::Unknown, KeySymbol::Unknown, KeySymbol::Unknown,
    KeySymbol::Unknown, KeySymbol::Unknown, KeySymbol::Unknown, KeySymbol::Unknown,
    KeySymbol::Unknown, KeySymbol::Unknown, KeySymbol::Unknown, KeySymbol::Unknown,
    KeySymbol::Unknown, KeySymbol::Unknown, KeySymbol::Unknown, KeySymbol::Unknown,
    KeySymbol::Unknown, KeySymbol::Unknown, KeySymbol::Unknown, KeySymbol::Unknown,
    KeySymbol::Unknown, KeySymbol::Unknown, KeySymbol::Unknown, KeySymbol::Unknown,
    KeySymbol::Unknown, KeySymbol::Unknown, KeySymbol::Unknown, KeySymbol::Unknown,
    KeySymbol::Unknown, KeySymbol::Unknown, KeySymbol::Unknown, KeySymbol::Unknown,
    KeySymbol::Unknown, KeySymbol::Unknown, KeySymbol::Unknown, KeySymbol::Unknown,
    KeySymbol::Unknown, KeySymbol::Unknown, KeySymbol::Unknown, KeySymbol::Unknown,
    KeySymbol::Unknown, KeySymbol::Unknown, KeySymbol::Unknown, KeySymbol::Unknown,
    KeySymbol::Home, KeySymbol::Left, KeySymbol::Up, KeySymbol::Right,
    KeySymbol::Down, KeySymbol::PageUp, KeySymbol::PageDown, KeySymbol::End,
    KeySymbol::Unknown, KeySymbol::Unknown, KeySymbol::Unknown, KeySymbol::Unknown,
    KeySymbol::Unknown, KeySymbol::Unknown, KeySymbol::Unknown, KeySymbol::Unknown,
    KeySymbol::Select, KeySymbol::PrintScreen, KeySymbol::Unknown, KeySymbol::Insert,
    KeySymbol::Unknown, KeySymbol::Unknown, KeySymbol::Unknown, KeySymbol::Unknown,
    KeySymbol::Unknown, KeySymbol::Unknown, KeySymbol::Unknown, KeySymbol::Unknown,
    KeySymbol::Unknown, KeySymbol::Unknown, KeySymbol::Unknown, KeySymbol::Unknown,
    KeySymbol::Unknown, KeySymbol::Unknown, KeySymbol::Unknown, KeySymbol::Unknown,
    KeySymbol::Unknown, KeySymbol::Unknown, KeySymbol::Unknown, KeySymbol::Unknown,
    KeySymbol::Unknown, KeySymbol::Unknown, KeySymbol::Unknown, KeySymbol::Unknown,
    KeySymbol::Unknown, KeySymbol::Unknown, KeySymbol::Unknown, KeySymbol::Unknown,
    KeySymbol::Unknown, KeySymbol::Unknown, KeySymbol::Unknown, KeySymbol::Unknown,
    KeySymbol::Unknown, KeySymbol::Unknown, KeySymbol::Unknown, KeySymbol::Unknown,
    KeySymbol::Unknown, KeySymbol::Unknown, KeySymbol::Unknown, KeySymbol::Unknown,
    KeySymbol::Unknown, KeySymbol::Unknown, KeySymbol::Unknown, KeySymbol::Unknown,
    KeySymbol::Unknown, KeySymbol::Unknown, KeySymbol::Unknown, KeySymbol::Unknown,
    KeySymbol::Unknown, KeySymbol::Unknown, KeySymbol::Unknown, KeySymbol::Unknown,
    KeySymbol::Unknown, KeySymbol::Unknown, KeySymbol::Unknown, KeySymbol::Unknown,
    KeySymbol::Unknown, KeySymbol::Unknown, KeySymbol::Unknown, KeySymbol::Unknown,
    KeySymbol::Unknown, KeySymbol::Unknown, KeySymbol::Unknown, KeySymbol::Unknown,
    KeySymbol::Unknown, KeySymbol::Unknown, KeySymbol::Unknown, KeySymbol::Unknown,
    KeySymbol::Unknown, KeySymbol::Unknown, KeySymbol::KpMultiply, KeySymbol::KpAdd,
    KeySymbol::Unknown, KeySymbol::KpMinus, KeySymbol::Unknown, KeySymbol::KpDivide,
    KeySymbol::Kp0, KeySymbol::Kp1, KeySymbol::Kp2, KeySymbol::Kp3,
    KeySymbol::Kp4, KeySymbol::Kp5, KeySymbol::Kp6, KeySymbol::Kp7,
    KeySymbol::Kp8, KeySymbol::Kp9, KeySymbol::Unknown, KeySymbol::Unknown,
    KeySymbol::Unknown, KeySymbol::Unknown, KeySymbol::F1, KeySymbol::F2,
    KeySymbol::F3, KeySymbol::F4, KeySymbol::F5, KeySymbol::F6,
    KeySymbol::F7, KeySymbol::F8, KeySymbol::F9, KeySymbol::F10,
    KeySymbol::F11, KeySymbol::F12, KeySymbol::Unknown, KeySymbol::Unknown,
    KeySymbol::Unknown, KeySymbol::Unknown, KeySymbol::Unknown, KeySymbol::Unknown,
    KeySymbol::Unknown, KeySymbol::Unknown, KeySymbol::Unknown, KeySymbol::Unknown,
    KeySymbol::Unknown, KeySymbol::Unknown, KeySymbol::Unknown, KeySymbol::Unknown,
    KeySymbol::Unknown, KeySymbol::Unknown, KeySymbol::Unknown, KeySymbol::Unknown,
    KeySymbol::Unknown, KeySymbol::Unknown, KeySymbol::Unknown, KeySymbol::Unknown,
    KeySymbol::Unknown, KeySymbol::LeftShift, KeySymbol::RightShift, KeySymbol::LeftControl,
    KeySymbol::RightControl, KeySymbol::Unknown, KeySymbol::Unknown, KeySymbol::LeftMenu,
    KeySymbol::RightMenu, KeySymbol::LeftAlt, KeySymbol::RightAlt, KeySymbol::LeftWin,
    KeySymbol::RightWin, KeySymbol::Unknown, KeySymbol::Unknown, KeySymbol::Unknown,
    KeySymbol::Unknown, KeySymbol::Unknown, KeySymbol::Unknown, KeySymbol::Unknown,
    KeySymbol::Unknown, KeySymbol::Unknown, KeySymbol::Unknown, KeySymbol::Unknown,
    KeySymbol::Unknown, KeySymbol::Unknown, KeySymbol::Unknown, KeySymbol::Unknown,
    KeySymbol::Unknown, KeySymbol::Unknown, KeySymbol::Unknown, KeySymbol::Del,
];

const WIN32_KEYS_MAPPING_TABLE: [KeySymbol; 256] = [
    KeySymbol::Unknown, KeySymbol::Unknown, KeySymbol::Unknown, KeySymbol::Unknown,
    KeySymbol::Unknown, KeySymbol::Unknown, KeySymbol::Unknown, KeySymbol::Unknown,
    KeySymbol::Backspace, KeySymbol::Tab, KeySymbol::Unknown, KeySymbol::Unknown,
    KeySymbol::Clear, KeySymbol::Enter, KeySymbol::Unknown, KeySymbol::Unknown,
    KeySymbol::Unknown, KeySymbol::Unknown, KeySymbol::Unknown, KeySymbol::Pause,
    KeySymbol::Unknown, KeySymbol::Unknown, KeySymbol::Unknown, KeySymbol::Unknown,
    KeySymbol::Unknown, KeySymbol::Unknown, KeySymbol::Unknown, KeySymbol::Escape,
    KeySymbol::Unknown, KeySymbol::Unknown, KeySymbol::Unknown, KeySymbol::Unknown,
    KeySymbol::Space, KeySymbol::PageUp, KeySymbol::PageDown, KeySymbol::End,
    KeySymbol::Home, KeySymbol::Left, KeySymbol::Up, KeySymbol::Right,
    KeySymbol::Down, KeySymbol::Select, KeySymbol::PrintScreen, KeySymbol::Unknown,
    KeySymbol::Unknown, KeySymbol::Insert, KeySymbol::Del, KeySymbol::Unknown,
    KeySymbol::Key0, KeySymbol::Key1, KeySymbol::Key2, KeySymbol::Key3,
    KeySymbol::Key4, KeySymbol::Key5, KeySymbol::Key6, KeySymbol::Key7,
    KeySymbol::Key8, KeySymbol::Key9, KeySymbol::Unknown, KeySymbol::Unknown,
    KeySymbol::Unknown, KeySymbol::Unknown, KeySymbol::Unknown, KeySymbol::Unknown,
    KeySymbol::Unknown, KeySymbol::KeyA, KeySymbol::KeyB, KeySymbol::KeyC,
    KeySymbol::KeyD, KeySymbol::KeyE, KeySymbol::KeyF, KeySymbol::KeyG,
    KeySymbol::KeyH, KeySymbol::KeyI, KeySymbol::KeyJ, KeySymbol::KeyK,
    KeySymbol::KeyL, KeySymbol::KeyM, KeySymbol::KeyN, KeySymbol::KeyO,
    KeySymbol::KeyP, KeySymbol::KeyQ, KeySymbol::KeyR, KeySymbol::KeyS,
    KeySymbol::KeyT, KeySymbol::KeyU, KeySymbol::KeyV, KeySymbol::KeyW,
    KeySymbol::KeyX, KeySymbol::KeyY, KeySymbol::KeyZ, KeySymbol::LeftWin,
    KeySymbol::RightWin, KeySymbol::Unknown, KeySymbol::Unknown, KeySymbol::Unknown,
    KeySymbol::Kp0, KeySymbol::Kp1, KeySymbol::Kp2, KeySymbol::Kp3,
    KeySymbol::Kp4, KeySymbol::Kp5, KeySymbol::Kp6, KeySymbol::Kp7,
    KeySymbol::Kp8, KeySymbol::Kp9, KeySymbol::KpMultiply, KeySymbol::KpAdd,
    KeySymbol::Unknown, KeySymbol::KpMinus, KeySymbol::Unknown, KeySymbol::KpDivide,
    KeySymbol::F1, KeySymbol::F2, KeySymbol::F3, KeySymbol::F4,
    KeySymbol::F5, KeySymbol::F6, KeySymbol::F7, KeySymbol::F8,
    KeySymbol::F9, KeySymbol::F10, KeySymbol::F11, KeySymbol::F12,
    KeySymbol::Unknown, KeySymbol::Unknown, KeySymbol::Unknown, KeySymbol::Unknown,
    KeySymbol::Unknown, KeySymbol::Unknown, KeySymbol::Unknown, KeySymbol::Unknown,
    KeySymbol::Unknown, KeySymbol::Unknown, KeySymbol::Unknown, KeySymbol::Unknown,
    KeySymbol::Unknown, KeySymbol::Unknown, KeySymbol::Unknown, KeySymbol::Unknown,
    KeySymbol::Unknown, KeySymbol::Unknown, KeySymbol::Unknown, KeySymbol::Unknown,
    KeySymbol::Unknown, KeySymbol::ScrolLock, KeySymbol::Unknown, KeySymbol::Unknown,
    KeySymbol::Unknown, KeySymbol::Unknown, KeySymbol::Unknown, KeySymbol::Unknown,
    KeySymbol::Unknown, KeySymbol::Unknown, KeySymbol::Unknown, KeySymbol::Unknown,
    KeySymbol::Unknown, KeySymbol::Unknown, KeySymbol::Unknown, KeySymbol::Unknown,
    KeySymbol::LeftShift, KeySymbol::RightShift, KeySymbol::LeftControl, KeySymbol::RightControl,
    KeySymbol::LeftMenu, KeySymbol::RightMenu, KeySymbol::Unknown, KeySymbol::Unknown,
    KeySymbol::Unknown, KeySymbol::Unknown, KeySymbol::Unknown, KeySymbol::Unknown,
    KeySymbol::Unknown, KeySymbol::Unknown, KeySymbol::Unknown, KeySymbol::Unknown,
    KeySymbol::Unknown, KeySymbol::Unknown, KeySymbol::Unknown, KeySymbol::Unknown,
    KeySymbol::Unknown, KeySymbol::Unknown, KeySymbol::Unknown, KeySymbol::Unknown,
    KeySymbol::Unknown, KeySymbol::Unknown, KeySymbol::Unknown, KeySymbol::Unknown,
    KeySymbol::Unknown, KeySymbol::Unknown, KeySymbol::Unknown, KeySymbol::Unknown,
    KeySymbol::Unknown, KeySymbol::Unknown, KeySymbol::Unknown, KeySymbol::Unknown,
    KeySymbol::Unknown, KeySymbol::Unknown, KeySymbol::Unknown, KeySymbol::Unknown,
    KeySymbol::Unknown, KeySymbol::Unknown, KeySymbol::Unknown, KeySymbol::Unknown,
    KeySymbol::Unknown, KeySymbol::Unknown, KeySymbol::Unknown, KeySymbol::Unknown,
    KeySymbol::Unknown, KeySymbol::Unknown, KeySymbol::Unknown, KeySymbol::Unknown,
    KeySymbol::Unknown, KeySymbol::Unknown, KeySymbol::Unknown, KeySymbol::Unknown,
    KeySymbol::Unknown, KeySymbol::Unknown, KeySymbol::Unknown, KeySymbol::Unknown,
    KeySymbol::Unknown, KeySymbol::Unknown, KeySymbol::Unknown, KeySymbol::Unknown,
    KeySymbol::Unknown, KeySymbol::Unknown, KeySymbol::Unknown, KeySymbol::Unknown,
    KeySymbol::Unknown, KeySymbol::Unknown, KeySymbol::Unknown, KeySymbol::Unknown,
    KeySymbol::Unknown, KeySymbol::Unknown, KeySymbol::Unknown, KeySymbol::Unknown,
    KeySymbol::Unknown, KeySymbol::Unknown, KeySymbol::Unknown, KeySymbol::Unknown,
    KeySymbol::Unknown, KeySymbol::Unknown, KeySymbol::Unknown, KeySymbol::Unknown,
    KeySymbol::Unknown, KeySymbol::Unknown, KeySymbol::Unknown, KeySymbol::Unknown,
    KeySymbol::Unknown, KeySymbol::Unknown, KeySymbol::Unknown, KeySymbol::Unknown,
    KeySymbol::Unknown, KeySymbol::Unknown, KeySymbol::Unknown, KeySymbol::Unknown,
];

proof fn lemma_key_bytes(x11_key: u64)
    by (bit_vector)
    ensures
        (((x11_key as u16) & 0xFF00u16) >> 8u16) == (x11_key / 256) % 256,
        ((x11_key as u32) & 0xFFu32) == x11_key % 256,
{
}

/// The key for the X key symbol `x11_key`.
pub fn map_x11_key_symbol(x11_key: u64) -> (r: KeySymbol)
    ensures
        r == x11_key_symbol(x11_key),
{
    proof {
        lemma_key_bytes(x11_key);
    }
    let byte2: u16 = ((#[verifier::truncate] (x11_key as u16)) & 0xFF00u16) >> 8u16;
    let sym_idx: usize = ((#[verifier::truncate] (x11_key as u32)) & 0xFFu32) as usize;

    if byte2 == 0x00 {
        X11_LATIN1_KEYS_MAPPING_TABLE[sym_idx]
    } else if byte2 == 0xFF {
        X11_MISC_FUNCTION_KEYS_MAPPING_TABLE[sym_idx]
    } else {
        KeySymbol::Unknown
    }
}

/// The key for the Windows virtual key code `key_sym`; none is known for a
/// code past the table.
pub fn map_key_symbol(key_sym: usize) -> (r: KeySymbol)
    ensures
        r == win32_key_symbol(key_sym as int),
{
    if key_sym >= WIN32_KEYS_MAPPING_TABLE.len() {
        return KeySymbol::Unknown;
    }
    WIN32_KEYS_MAPPING_TABLE[key_sym]
}

} // verus!
