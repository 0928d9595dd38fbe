use particles::events::make_key_name;
use particles::events::ActionType;
use particles::events::Event;
use particles::events::InputEventData;
use particles::events::KeyEventData;
use particles::events::LoopEventData;
use particles::events::MouseButtonEventData;
use particles::events::MouseButtonId;
use particles::events::MouseMotionEventData;
use particles::events::MouseWheelEventData;
use particles::events::WindowConfigureEventData;
use particles::keysyms::map_key_symbol;
use particles::keysyms::map_x11_key_symbol;
use particles::keysyms::KeySymbol;
use particles::win32_input;
use particles::win32_input::MessageKind;
use particles::x11_input;
use particles::x11_input::EventKind;

#[test]
fn event_data_defaults() {
    let k = KeyEventData::default();
    assert_eq!((k.pointer_x, k.pointer_y), (0, 0));
    assert_eq!(k.keycode, KeySymbol::Unknown);
    assert_eq!(k.type_, ActionType::Press);
    assert!(!(k.button1 || k.button2 || k.button3 || k.button4 || k.button5));
    assert!(!(k.shift || k.control));
    assert_eq!(k.name, [0u8; 32]);
    let b = MouseButtonEventData::default();
    assert_eq!(b.button, MouseButtonId::Button1);
    assert_eq!(b.type_, ActionType::Press);
    assert_eq!((b.pointer_x, b.pointer_y, b.shift, b.button5), (0, 0, false, false));
    let w = MouseWheelEventData::default();
    assert_eq!((w.pointer_x, w.pointer_y, w.delta, w.control), (0, 0, 0, false));
    let m = MouseMotionEventData::default();
    assert_eq!((m.pointer_x, m.pointer_y, m.button1, m.shift), (0, 0, false, false));
    assert_eq!(
        WindowConfigureEventData::default(),
        WindowConfigureEventData { width: 0, height: 0 }
    );
    assert_eq!(
        LoopEventData::default(),
        LoopEventData {
            surface_width: 0,
            surface_height: 0,
            window_width: 0,
            window_height: 0
        }
    );
}

#[test]
fn actions_and_buttons_have_numbers() {
    assert_eq!(ActionType::Press.to_u8(), 0);
    assert_eq!(ActionType::Release.to_u8(), 1);
    assert_eq!(ActionType::from_u8(0), Some(ActionType::Press));
    assert_eq!(ActionType::from_u8(1), Some(ActionType::Release));
    assert_eq!(ActionType::from_u8(2), None);
    for n in 0..5u8 {
        assert_eq!(MouseButtonId::from_u8(n).unwrap().to_u8(), n);
    }
    assert_eq!(MouseButtonId::from_u8(4), Some(MouseButtonId::Button5));
    assert_eq!(MouseButtonId::from_u8(5), None);
}

#[test]
fn key_names_are_cut_and_padded() {
    assert_eq!(make_key_name(b""), [0u8; 32]);
    let mut expected = [0u8; 32];
    expected[..3].copy_from_slice(b"abc");
    assert_eq!(make_key_name(b"abc"), expected);
    let long: Vec<u8> = (1..=40).collect();
    let name = make_key_name(&long);
    assert_eq!(&name[..], &long[..32]);
}

#[test]
fn x11_latin1_keys() {
    assert_eq!(map_x11_key_symbol(0x20), KeySymbol::Space);
    assert_eq!(map_x11_key_symbol(0x30), KeySymbol::Key0);
    assert_eq!(map_x11_key_symbol(0x39), KeySymbol::Key9);
    assert_eq!(map_x11_key_symbol(0x41), KeySymbol::KeyA);
    assert_eq!(map_x11_key_symbol(0x5a), KeySymbol::KeyZ);
    assert_eq!(map_x11_key_symbol(0x61), KeySymbol::KeyA);
    assert_eq!(map_x11_key_symbol(0x7a), KeySymbol::KeyZ);
    assert_eq!(map_x11_key_symbol(0x2f), KeySymbol::Unknown);
    assert_eq!(map_x11_key_symbol(0x5b), KeySymbol::Unknown);
    assert_eq!(map_x11_key_symbol(0x00), KeySymbol::Unknown);
    assert_eq!(map_x11_key_symbol(0xff), KeySymbol::Unknown);
}

#[test]
fn x11_function_keys() {
    assert_eq!(map_x11_key_symbol(0xff08), KeySymbol::Backspace);
    assert_eq!(map_x11_key_symbol(0xff09), KeySymbol::Tab);
    assert_eq!(map_x11_key_symbol(0xff0d), KeySymbol::Enter);
    assert_eq!(map_x11_key_symbol(0xff1b), KeySymbol::Escape);
    assert_eq!(map_x11_key_symbol(0xff50), KeySymbol::Home);
    assert_eq!(map_x11_key_symbol(0xff51), KeySymbol::Left);
    assert_eq!(map_x11_key_symbol(0xff52), KeySymbol::Up);
    assert_eq!(map_x11_key_symbol(0xff53), KeySymbol::Right);
    assert_eq!(map_x11_key_symbol(0xff54), KeySymbol::Down);
    assert_eq!(map_x11_key_symbol(0xffb0), KeySymbol::Kp0);
    assert_eq!(map_x11_key_symbol(0xffb9), KeySymbol::Kp9);
    assert_eq!(map_x11_key_symbol(0xffbe), KeySymbol::F1);
    assert_eq!(map_x11_key_symbol(0xffc9), KeySymbol::F12);
    assert_eq!(map_x11_key_symbol(0xffca), KeySymbol::Unknown);
    assert_eq!(map_x11_key_symbol(0xffe1), KeySymbol::LeftShift);
    assert_eq!(map_x11_key_symbol(0xffea), KeySymbol::RightAlt);
    assert_eq!(map_x11_key_symbol(0xffff), KeySymbol::Del);
}

#[test]
fn x11_pages_and_high_bytes() {
    assert_eq!(map_x11_key_symbol(0x0141), KeySymbol::Unknown);
    assert_eq!(map_x11_key_symbol(0xfe41), KeySymbol::Unknown);
    assert_eq!(map_x11_key_symbol(0x0100_0041), KeySymbol::KeyA);
    assert_eq!(map_x11_key_symbol(0xffff_ffff_ffff_ff0d), KeySymbol::Enter);
}

#[test]
fn win32_keys() {
    assert_eq!(map_key_symbol(0x08), KeySymbol::Backspace);
    assert_eq!(map_key_symbol(0x0d), KeySymbol::Enter);
    assert_eq!(map_key_symbol(0x20), KeySymbol::Space);
    assert_eq!(map_key_symbol(0x2e), KeySymbol::Del);
    assert_eq!(map_key_symbol(0x30), KeySymbol::Key0);
    assert_eq!(map_key_symbol(0x41), KeySymbol::KeyA);
    assert_eq!(map_key_symbol(0x5a), KeySymbol::KeyZ);
    assert_eq!(map_key_symbol(0x61), KeySymbol::Kp1);
    assert_eq!(map_key_symbol(0x70), KeySymbol::F1);
    assert_eq!(map_key_symbol(0x7b), KeySymbol::F12);
    assert_eq!(map_key_symbol(0x91), KeySymbol::ScrolLock);
    assert_eq!(map_key_symbol(0xa5), KeySymbol::RightMenu);
    assert_eq!(map_key_symbol(0xa6), KeySymbol::Unknown);
    assert_eq!(map_key_symbol(0xff), KeySymbol::Unknown);
    assert_eq!(map_key_symbol(0x100), KeySymbol::Unknown);
    assert_eq!(map_key_symbol(usize::MAX), KeySymbol::Unknown);
}

#[test]
fn x11_event_kinds() {
    assert_eq!(x11_input::classify_event(2), EventKind::Key);
    assert_eq!(x11_input::classify_event(3), EventKind::Key);
    assert_eq!(x11_input::classify_event(4), EventKind::Button);
    assert_eq!(x11_input::classify_event(5), EventKind::Button);
    assert_eq!(x11_input::classify_event(6), EventKind::Motion);
    assert_eq!(x11_input::classify_event(15), EventKind::Visibility);
    assert_eq!(x11_input::classify_event(22), EventKind::Configure);
    assert_eq!(x11_input::classify_event(33), EventKind::ClientMessage);
    assert_eq!(x11_input::classify_event(12), EventKind::Other);
    assert_eq!(x11_input::classify_event(-1), EventKind::Other);
}

#[test]
fn x11_window_events() {
    assert_eq!(
        x11_input::handle_configure_event(640, 480),
        Event::Configure(WindowConfigureEventData {
            width: 640,
            height: 480
        })
    );
    assert!(x11_input::handle_client_message_event(77, 77));
    assert!(!x11_input::handle_client_message_event(78, 77));
    assert!(x11_input::handle_client_message_event(-1, u64::MAX));
    assert!(x11_input::handle_visibility_event(5, 5, 0));
    assert!(!x11_input::handle_visibility_event(5, 6, 0));
    assert!(!x11_input::handle_visibility_event(5, 5, 1));
    assert!(x11_input::glx_version_supported(1, 4));
    assert!(x11_input::glx_version_supported(2, 4));
    assert!(!x11_input::glx_version_supported(1, 3));
    assert!(!x11_input::glx_version_supported(0, 4));
    assert_eq!(x11_input::primary_screen_index(&[3, 1, 0, 1], 1), Some(1));
    assert_eq!(x11_input::primary_screen_index(&[3, 1, 0, 1], 0), Some(2));
    assert_eq!(x11_input::primary_screen_index(&[3, 1, 0, 1], 2), None);
    assert_eq!(x11_input::primary_screen_index(&[], 0), None);
}

#[test]
fn x11_modifier_bits() {
    let none = x11_input::modifiers(0);
    assert!(!(none.button1 || none.button2 || none.button3 || none.button4 || none.button5));
    assert!(!(none.shift || none.control));
    let m = x11_input::modifiers(0x0100 | 0x0400 | 0x0001);
    assert!(m.button1 && m.button3 && m.shift);
    assert!(!(m.button2 || m.button4 || m.button5 || m.control));
    let m = x11_input::modifiers(0x0200 | 0x0800 | 0x1000 | 0x0004);
    assert!(m.button2 && m.button4 && m.button5 && m.control);
    assert!(!(m.button1 || m.button3 || m.shift));
    let m = x11_input::modifiers(0x0002 | 0x0008 | 0x2000);
    assert!(!(m.shift || m.control || m.button1 || m.button5));
}

#[test]
fn x11_key_events() {
    let e = x11_input::handle_key_event(10, -20, 0x0001 | 0x0200, 2, 0x61, b"a");
    let mut name = [0u8; 32];
    name[0] = b'a';
    assert_eq!(
        e,
        Event::Input(InputEventData::Key(KeyEventData {
            pointer_x: 10,
            pointer_y: -20,
            keycode: KeySymbol::KeyA,
            type_: ActionType::Press,
            button1: false,
            button2: true,
            button3: false,
            button4: false,
            button5: false,
            shift: true,
            control: false,
            name,
        }))
    );
    match x11_input::handle_key_event(0, 0, 0, 3, 0xff1b, b"") {
        Event::Input(InputEventData::Key(k)) => {
            assert_eq!(k.type_, ActionType::Release);
            assert_eq!(k.keycode, KeySymbol::Escape);
            assert_eq!(k.name, [0u8; 32]);
        }
        other => panic!("not a key event: {:?}", other),
    }
}

#[test]
fn x11_button_events() {
    let button = |number: u32, type_: i32| x11_input::handle_mouse_button_event(3, 4, 0x0004, type_, number);
    let expect_button = |id: MouseButtonId, type_: ActionType| {
        Event::Input(InputEventData::MouseButton(MouseButtonEventData {
            pointer_x: 3,
            pointer_y: 4,
            button: id,
            type_,
            button1: false,
            button2: false,
            button3: false,
            button4: false,
            button5: false,
            shift: false,
            control: true,
        }))
    };
    let expect_wheel = |delta: i32| {
        Event::Input(InputEventData::MouseWheel(MouseWheelEventData {
            pointer_x: 3,
            pointer_y: 4,
            delta,
            button1: false,
            button2: false,
            button3: false,
            button4: false,
            button5: false,
            shift: false,
            control: true,
        }))
    };
    assert_eq!(button(1, 4), expect_button(MouseButtonId::Button1, ActionType::Press));
    assert_eq!(button(2, 5), expect_button(MouseButtonId::Button2, ActionType::Release));
    assert_eq!(button(3, 4), expect_button(MouseButtonId::Button3, ActionType::Press));
    assert_eq!(button(3, 0), expect_button(MouseButtonId::Button3, ActionType::Release));
    assert_eq!(button(4, 4), expect_wheel(-1));
    assert_eq!(button(5, 4), expect_wheel(1));
    assert_eq!(button(0, 4), expect_wheel(1));
    assert_eq!(button(9, 5), expect_wheel(1));
}

#[test]
fn x11_motion_events() {
    assert_eq!(
        x11_input::handle_mouse_motion_event(-7, 9, 0x1000 | 0x0001),
        Event::Input(InputEventData::MouseMotion(MouseMotionEventData {
            pointer_x: -7,
            pointer_y: 9,
            button1: false,
            button2: false,
            button3: false,
            button4: false,
            button5: true,
            shift: true,
            control: false,
        }))
    );
}

#[test]
fn win32_message_kinds() {
    assert_eq!(win32_input::classify_message(0x0010), MessageKind::Close);
    assert_eq!(win32_input::classify_message(0x0002), MessageKind::Destroy);
    assert_eq!(win32_input::classify_message(0x0201), MessageKind::MouseButton);
    assert_eq!(win32_input::classify_message(0x0202), MessageKind::MouseButton);
    assert_eq!(win32_input::classify_message(0x0204), MessageKind::MouseButton);
    assert_eq!(win32_input::classify_message(0x0205), MessageKind::MouseButton);
    assert_eq!(win32_input::classify_message(0x0203), MessageKind::Other);
    assert_eq!(win32_input::classify_message(0x0100), MessageKind::Key);
    assert_eq!(win32_input::classify_message(0x0101), MessageKind::Key);
    assert_eq!(win32_input::classify_message(0x0200), MessageKind::MouseMove);
    assert_eq!(win32_input::classify_message(0x020A), MessageKind::MouseWheel);
    assert_eq!(win32_input::classify_message(0x0005), MessageKind::Size);
    assert_eq!(win32_input::classify_message(0x0047), MessageKind::WindowPosChanged);
    assert_eq!(win32_input::classify_message(0), MessageKind::Other);
}

#[test]
fn win32_words() {
    assert_eq!(win32_input::loword(0x1234_5678), 0x5678);
    assert_eq!(win32_input::hiword(0x1234_5678), 0x1234);
    assert_eq!(win32_input::loword(u32::MAX), 0xffff);
    assert_eq!(win32_input::hiword(0xffff), 0);
    assert_eq!(win32_input::MAKELPARAM(0x5678, 0x1234), 0x1234_5678);
    assert_eq!(win32_input::MAKELPARAM(0, 0), 0);
    assert_eq!(win32_input::MAKELPARAM(0xffff, 0xffff), 0xffff_ffff);
    assert_eq!(win32_input::get_x_lparam(0x0002_0001), 1);
    assert_eq!(win32_input::get_y_lparam(0x0002_0001), 2);
    assert_eq!(win32_input::get_x_lparam(0x0002_ffff), -1);
    assert_eq!(win32_input::get_y_lparam(0x8000_0005), -32768);
    assert_eq!(win32_input::get_x_lparam(-1), -1);
    assert_eq!(win32_input::get_y_lparam(-1), -1);
    assert_eq!(win32_input::get_x_lparam(-65536), 0);
    assert_eq!(win32_input::get_y_lparam(-65536), -1);
    assert_eq!(win32_input::get_x_lparam(isize::MIN), 0);
    assert_eq!(win32_input::get_x_lparam(isize::MAX), -1);
    assert_eq!(win32_input::get_x_lparam(0x7_0000_7fff), 0x7fff);
}

#[test]
fn win32_button_events() {
    let at = win32_input::MAKELPARAM(100, 200);
    let event = |ty: u32, wp: usize| match win32_input::event_mouse_button(ty, wp, at) {
        Event::Input(InputEventData::MouseButton(b)) => b,
        other => panic!("not a button event: {:?}", other),
    };
    let down = event(0x0201, 0x0001 | 0x0004);
    assert_eq!((down.pointer_x, down.pointer_y), (100, 200));
    assert_eq!(down.button, MouseButtonId::Button1);
    assert_eq!(down.type_, ActionType::Press);
    assert!(down.button1 && down.shift);
    assert!(!(down.button2 || down.button3 || down.button4 || down.button5 || down.control));
    let up = event(0x0202, 0);
    assert_eq!((up.button, up.type_), (MouseButtonId::Button1, ActionType::Release));
    let right_down = event(0x0204, 0x0002 | 0x0010 | 0x0020 | 0x0040 | 0x0008);
    assert_eq!(
        (right_down.button, right_down.type_),
        (MouseButtonId::Button3, ActionType::Press)
    );
    assert!(right_down.button2 && right_down.button3 && right_down.button4);
    assert!(right_down.button5 && right_down.control);
    assert!(!(right_down.button1 || right_down.shift));
    let right_up = event(0x0205, 0);
    assert_eq!(
        (right_up.button, right_up.type_),
        (MouseButtonId::Button3, ActionType::Release)
    );
}

#[test]
fn win32_move_and_wheel_events() {
    assert_eq!(
        win32_input::event_mouse_move(0x0010, win32_input::MAKELPARAM(0xfffe, 3)),
        Event::Input(InputEventData::MouseMotion(MouseMotionEventData {
            pointer_x: -2,
            pointer_y: 3,
            button1: false,
            button2: true,
            button3: false,
            button4: false,
            button5: false,
            shift: false,
            control: false,
        }))
    );
    let wheel = |wp: usize| match win32_input::event_mouse_wheel(wp, 0) {
        Event::Input(InputEventData::MouseWheel(w)) => w,
        other => panic!("not a wheel event: {:?}", other),
    };
    assert_eq!(wheel(120 << 16).delta, 1);
    assert_eq!(wheel(240 << 16).delta, 2);
    assert_eq!(wheel(119 << 16).delta, 0);
    assert_eq!(wheel((0x1_0000 - 120) << 16).delta, -1);
    assert_eq!(wheel((0x1_0000 - 119) << 16).delta, 0);
    assert_eq!(wheel((0x1_0000 - 360) << 16).delta, -3);
    assert_eq!(wheel(0x8000 << 16).delta, -273);
    let held = wheel((120 << 16) | 0x0008 | 0x0001);
    assert!(held.control && held.button1);
    assert!(!(held.shift || held.button2 || held.button3));
    assert_eq!(win32_input::get_keystate_wparam(0x0078_000c), 0x000c);
    assert_eq!(win32_input::get_wheel_notches(0x0078_000c), 1);
}

#[test]
fn win32_key_events() {
    let key = |msg: u32, wp: usize, name: &[u8]| match win32_input::event_key(msg, wp, 0x0005_0004, name) {
        Event::Input(InputEventData::Key(k)) => k,
        other => panic!("not a key event: {:?}", other),
    };
    let k = key(0x0100, 0x41, b"A");
    assert_eq!((k.pointer_x, k.pointer_y), (4, 5));
    assert_eq!(k.keycode, KeySymbol::KeyA);
    assert_eq!(k.type_, ActionType::Press);
    assert_eq!(k.name[0], b'A');
    assert_eq!(&k.name[1..], &[0u8; 31]);
    assert!(k.button1 && k.button5);
    assert!(!(k.shift || k.control || k.button2 || k.button3 || k.button4));
    let k = key(0x0101, 0x1b, b"");
    assert_eq!(k.keycode, KeySymbol::Escape);
    assert_eq!(k.type_, ActionType::Release);
    assert_eq!(k.name, [0u8; 32]);
    let exactly = [7u8; 32];
    assert_eq!(key(0x0100, 0x41, &exactly).name, exactly);
    let too_long = [7u8; 33];
    assert_eq!(key(0x0100, 0x41, &too_long).name, [0u8; 32]);
    assert_eq!(
        win32_input::event_wmsize(800, 600),
        Event::Configure(WindowConfigureEventData {
            width: 800,
            height: 600
        })
    );
}
