//! A keycode is a platform independent way to refer to
//! keys on the keyboard.

use vstd::prelude::*;

verus! {

/// The keys of a keyboard, independent of the platform.
#[derive(Clone, Copy, PartialEq, Eq, Hash, Debug, Structural)]
pub enum VirtualKeyCode {
    Key1,
    Key2,
    Key3,
    Key4,
    Key5,
    Key6,
    Key7,
    Key8,
    Key9,
    Key0,
    A,
    B,
    C,
    D,
    E,
    F,
    G,
    H,
    I,
    J,
    K,
    L,
    M,
    N,
    O,
    P,
    Q,
    R,
    S,
    T,
    U,
    V,
    W,
    X,
    Y,
    Z,
    Escape,
    F1,
    F2,
    F3,
    F4,
    F5,
    F6,
    F7,
    F8,
    F9,
    F10,
    F11,
    F12,
    F13,
    F14,
    F15,
    Snapshot,
    Scroll,
    Pause,
    Insert,
    Home,
    Delete,
    End,
    PageDown,
    PageUp,
    Left,
    Up,
    Right,
    Down,
    Back,
    Return,
    Space,
    Numlock,
    Numpad0,
    Numpad1,
    Numpad2,
    Numpad3,
    Numpad4,
    Numpad5,
    Numpad6,
    Numpad7,
    Numpad8,
    Numpad9,
    AbntC1,
    AbntC2,
    Add,
    Apostrophe,
    Apps,
    At,
    Ax,
    Backslash,
    Calculator,
    Capital,
    Colon,
    Comma,
    Convert,
    Decimal,
    Divide,
    Equals,
    Grave,
    Kana,
    Kanji,
    LAlt,
    LBracket,
    LControl,
    LMenu,
    LShift,
    LWin,
    Mail,
    MediaSelect,
    MediaStop,
    Minus,
    Multiply,
    Mute,
    MyComputer,
    NextTrack,
    NoConvert,
    NumpadComma,
    NumpadEnter,
    NumpadEquals,
    OEM102,
    Period,
    Playpause,
    Power,
    Prevtrack,
    RAlt,
    RBracket,
    RControl,
    RMenu,
    RShift,
    RWin,
    Semicolon,
    Slash,
    Sleep,
    Stop,
    Subtract,
    Sysrq,
    Tab,
    Underline,
    Unlabeled,
    VolumeDown,
    VolumeUp,
    Wake,
    Webback,
    WebFavorites,
    WebForward,
    WebHome,
    WebRefresh,
    WebSearch,
    WebStop,
    Yen,
}

/// The character that a key stands for, if any.
pub open spec fn keycode_char(vk: VirtualKeyCode) -> Option<char> {
    match vk {
        VirtualKeyCode::Key0 | VirtualKeyCode::Numpad0 => Some('0'),
        VirtualKeyCode::Key1 | VirtualKeyCode::Numpad1 => Some('1'),
        VirtualKeyCode::Key2 | VirtualKeyCode::Numpad2 => Some('2'),
        VirtualKeyCode::Key3 | VirtualKeyCode::Numpad3 => Some('3'),
        VirtualKeyCode::Key4 | VirtualKeyCode::Numpad4 => Some('4'),
        VirtualKeyCode::Key5 | VirtualKeyCode::Numpad5 => Some('5'),
        VirtualKeyCode::Key6 | VirtualKeyCode::Numpad6 => Some('6'),
        VirtualKeyCode::Key7 | VirtualKeyCode::Numpad7 => Some('7'),
        VirtualKeyCode::Key8 | VirtualKeyCode::Numpad8 => Some('8'),
        VirtualKeyCode::Key9 | VirtualKeyCode::Numpad9 => Some('9'),
        VirtualKeyCode::A => Some('a'),
        VirtualKeyCode::B => Some('b'),
        VirtualKeyCode::C => Some('c'),
        VirtualKeyCode::D => Some('d'),
        VirtualKeyCode::E => Some('e'),
        VirtualKeyCode::F => Some('f'),
        VirtualKeyCode::G => Some('g'),
        VirtualKeyCode::H => Some('h'),
        VirtualKeyCode::I => Some('i'),
        VirtualKeyCode::J => Some('j'),
        VirtualKeyCode::K => Some('k'),
        VirtualKeyCode::L => Some('l'),
        VirtualKeyCode::M => Some('m'),
        VirtualKeyCode::N => Some('n'),
        VirtualKeyCode::O => Some('o'),
        VirtualKeyCode::P => Some('p'),
        VirtualKeyCode::Q => Some('q'),
        VirtualKeyCode::R => Some('r'),
        VirtualKeyCode::S => Some('s'),
        VirtualKeyCode::T => Some('t'),
        VirtualKeyCode::U => Some('u'),
        VirtualKeyCode::V => Some('v'),
        VirtualKeyCode::W => Some('w'),
        VirtualKeyCode::X => Some('x'),
        VirtualKeyCode::Y => Some('y'),
        VirtualKeyCode::Z => Some('z'),
        VirtualKeyCode::Return => Some('\n'),
        VirtualKeyCode::Space => Some(' '),
        VirtualKeyCode::Add => Some('+'),
        VirtualKeyCode::Apostrophe => Some('\''),
        VirtualKeyCode::At => Some('@'),
        VirtualKeyCode::Backslash => Some('\\'),
        VirtualKeyCode::Colon => Some(':'),
        VirtualKeyCode::Comma => Some(','),
        VirtualKeyCode::Divide => Some('/'),
        VirtualKeyCode::Equals => Some('='),
        VirtualKeyCode::Grave => Some('`'),
        VirtualKeyCode::LBracket => Some('['),
        VirtualKeyCode::Minus => Some('-'),
        VirtualKeyCode::Multiply => Some('*'),
        VirtualKeyCode::NumpadComma => Some(','),
        VirtualKeyCode::NumpadEnter => Some('\n'),
        VirtualKeyCode::NumpadEquals => Some('='),
        VirtualKeyCode::Period => Some('.'),
        VirtualKeyCode::RBracket => Some(']'),
        VirtualKeyCode::Semicolon => Some(';'),
        VirtualKeyCode::Subtract => Some('-'),
        VirtualKeyCode::Tab => Some('\t'),
        VirtualKeyCode::Underline => Some('_'),
        _ => None,
    }
}

/// Converts a virtual key code into the character it stands for: digits
/// (from the main row or the number pad), lower-case letters, and the
/// printable keys and whitespace keys that have one.
pub fn keycode_to_char(vk: VirtualKeyCode) -> (r: Option<char>)
    ensures
        r == keycode_char(vk),
{
    Some(
        match vk {
            VirtualKeyCode::Key0 | VirtualKeyCode::Numpad0 => '0',
            VirtualKeyCode::Key1 | VirtualKeyCode::Numpad1 => '1',
            VirtualKeyCode::Key2 | VirtualKeyCode::Numpad2 => '2',
            VirtualKeyCode::Key3 | VirtualKeyCode::Numpad3 => '3',
            VirtualKeyCode::Key4 | VirtualKeyCode::Numpad4 => '4',
            VirtualKeyCode::Key5 | VirtualKeyCode::Numpad5 => '5',
            VirtualKeyCode::Key6 | VirtualKeyCode::Numpad6 => '6',
            VirtualKeyCode::Key7 | VirtualKeyCode::Numpad7 => '7',
            VirtualKeyCode::Key8 | VirtualKeyCode::Numpad8 => '8',
            VirtualKeyCode::Key9 | VirtualKeyCode::Numpad9 => '9',
            VirtualKeyCode::A => 'a',
            VirtualKeyCode::B => 'b',
            VirtualKeyCode::C => 'c',
            VirtualKeyCode::D => 'd',
            VirtualKeyCode::E => 'e',
            VirtualKeyCode::F => 'f',
            VirtualKeyCode::G => 'g',
            VirtualKeyCode::H => 'h',
            VirtualKeyCode::I => 'i',
            VirtualKeyCode::J => 'j',
            VirtualKeyCode::K => 'k',
            VirtualKeyCode::L => 'l',
            VirtualKeyCode::M => 'm',
            VirtualKeyCode::N => 'n',
            VirtualKeyCode::O => 'o',
            VirtualKeyCode::P => 'p',
            VirtualKeyCode::Q => 'q',
            VirtualKeyCode::R => 'r',
            VirtualKeyCode::S => 's',
            VirtualKeyCode::T => 't',
            VirtualKeyCode::U => 'u',
            VirtualKeyCode::V => 'v',
            VirtualKeyCode::W => 'w',
            VirtualKeyCode::X => 'x',
            VirtualKeyCode::Y => 'y',
            VirtualKeyCode::Z => 'z',
            VirtualKeyCode::Return => '\n',
            VirtualKeyCode::Space => ' ',
            VirtualKeyCode::Add => '+',
            VirtualKeyCode::Apostrophe => '\'',
            VirtualKeyCode::At => '@',
            VirtualKeyCode::Backslash => '\\',
            VirtualKeyCode::Colon => ':',
            VirtualKeyCode::Comma => ',',
            VirtualKeyCode::Divide => '/',
            VirtualKeyCode::Equals => '=',
            VirtualKeyCode::Grave => '`',
            VirtualKeyCode::LBracket => '[',
            VirtualKeyCode::Minus => '-',
            VirtualKeyCode::Multiply => '*',
            VirtualKeyCode::NumpadComma => ',',
            VirtualKeyCode::NumpadEnter => '\n',
            VirtualKeyCode::NumpadEquals => '=',
            VirtualKeyCode::Period => '.',
            VirtualKeyCode::RBracket => ']',
            VirtualKeyCode::Semicolon => ';',
            VirtualKeyCode::Subtract => '-',
            VirtualKeyCode::Tab => '\t',
            VirtualKeyCode::Underline => '_',
            VirtualKeyCode::Apps | VirtualKeyCode::Ax | VirtualKeyCode::Slash => return None,
            _ => return None,
        },
    )
}


/// The number that names a key: its place in the list of keys.
pub open spec fn key_index(vk: VirtualKeyCode) -> u32 {
    match vk {
        VirtualKeyCode::Key1 => 0,
        VirtualKeyCode::Key2 => 1,
        VirtualKeyCode::Key3 => 2,
        VirtualKeyCode::Key4 => 3,
        VirtualKeyCode::Key5 => 4,
        VirtualKeyCode::Key6 => 5,
        VirtualKeyCode::Key7 => 6,
        VirtualKeyCode::Key8 => 7,
        VirtualKeyCode::Key9 => 8,
        VirtualKeyCode::Key0 => 9,
        VirtualKeyCode::A => 10,
        VirtualKeyCode::B => 11,
        VirtualKeyCode::C => 12,
        VirtualKeyCode::D => 13,
        VirtualKeyCode::E => 14,
        VirtualKeyCode::F => 15,
        VirtualKeyCode::G => 16,
        VirtualKeyCode::H => 17,
        VirtualKeyCode::I => 18,
        VirtualKeyCode::J => 19,
        VirtualKeyCode::K => 20,
        VirtualKeyCode::L => 21,
        VirtualKeyCode::M => 22,
        VirtualKeyCode::N => 23,
        VirtualKeyCode::O => 24,
        VirtualKeyCode::P => 25,
        VirtualKeyCode::Q => 26,
        VirtualKeyCode::R => 27,
        VirtualKeyCode::S => 28,
        VirtualKeyCode::T => 29,
        VirtualKeyCode::U => 30,
        VirtualKeyCode::V => 31,
        VirtualKeyCode::W => 32,
        VirtualKeyCode::X => 33,
        VirtualKeyCode::Y => 34,
        VirtualKeyCode::Z => 35,
        VirtualKeyCode::Escape => 36,
        VirtualKeyCode::F1 => 37,
        VirtualKeyCode::F2 => 38,
        VirtualKeyCode::F3 => 39,
        VirtualKeyCode::F4 => 40,
        VirtualKeyCode::F5 => 41,
        VirtualKeyCode::F6 => 42,
        VirtualKeyCode::F7 => 43,
        VirtualKeyCode::F8 => 44,
        VirtualKeyCode::F9 => 45,
        VirtualKeyCode::F10 => 46,
        VirtualKeyCode::F11 => 47,
        VirtualKeyCode::F12 => 48,
        VirtualKeyCode::F13 => 49,
        VirtualKeyCode::F14 => 50,
        VirtualKeyCode::F15 => 51,
        VirtualKeyCode::Snapshot => 52,
        VirtualKeyCode::Scroll => 53,
        VirtualKeyCode::Pause => 54,
        VirtualKeyCode::Insert => 55,
        VirtualKeyCode::Home => 56,
        VirtualKeyCode::Delete => 57,
        VirtualKeyCode::End => 58,
        VirtualKeyCode::PageDown => 59,
        VirtualKeyCode::PageUp => 60,
        VirtualKeyCode::Left => 61,
        VirtualKeyCode::Up => 62,
        VirtualKeyCode::Right => 63,
        VirtualKeyCode::Down => 64,
        VirtualKeyCode::Back => 65,
        VirtualKeyCode::Return => 66,
        VirtualKeyCode::Space => 67,
        VirtualKeyCode::Numlock => 68,
        VirtualKeyCode::Numpad0 => 69,
        VirtualKeyCode::Numpad1 => 70,
        VirtualKeyCode::Numpad2 => 71,
        VirtualKeyCode::Numpad3 => 72,
        VirtualKeyCode::Numpad4 => 73,
        VirtualKeyCode::Numpad5 => 74,
        VirtualKeyCode::Numpad6 => 75,
        VirtualKeyCode::Numpad7 => 76,
        VirtualKeyCode::Numpad8 => 77,
        VirtualKeyCode::Numpad9 => 78,
        VirtualKeyCode::AbntC1 => 79,
        VirtualKeyCode::AbntC2 => 80,
        VirtualKeyCode::Add => 81,
        VirtualKeyCode::Apostrophe => 82,
        VirtualKeyCode::Apps => 83,
        VirtualKeyCode::At => 84,
        VirtualKeyCode::Ax => 85,
        VirtualKeyCode::Backslash => 86,
        VirtualKeyCode::Calculator => 87,
        VirtualKeyCode::Capital => 88,
        VirtualKeyCode::Colon => 89,
        VirtualKeyCode::Comma => 90,
        VirtualKeyCode::Convert => 91,
        VirtualKeyCode::Decimal => 92,
        VirtualKeyCode::Divide => 93,
        VirtualKeyCode::Equals => 94,
        VirtualKeyCode::Grave => 95,
        VirtualKeyCode::Kana => 96,
        VirtualKeyCode::Kanji => 97,
        VirtualKeyCode::LAlt => 98,
        VirtualKeyCode::LBracket => 99,
        VirtualKeyCode::LControl => 100,
        VirtualKeyCode::LMenu => 101,
        VirtualKeyCode::LShift => 102,
        VirtualKeyCode::LWin => 103,
        VirtualKeyCode::Mail => 104,
        VirtualKeyCode::MediaSelect => 105,
        VirtualKeyCode::MediaStop => 106,
        VirtualKeyCode::Minus => 107,
        VirtualKeyCode::Multiply => 108,
        VirtualKeyCode::Mute => 109,
        VirtualKeyCode::MyComputer => 110,
        VirtualKeyCode::NextTrack => 111,
        VirtualKeyCode::NoConvert => 112,
        VirtualKeyCode::NumpadComma => 113,
        VirtualKeyCode::NumpadEnter => 114,
        VirtualKeyCode::NumpadEquals => 115,
        VirtualKeyCode::OEM102 => 116,
        VirtualKeyCode::Period => 117,
        VirtualKeyCode::Playpause => 118,
        VirtualKeyCode::Power => 119,
        VirtualKeyCode::Prevtrack => 120,
        VirtualKeyCode::RAlt => 121,
        VirtualKeyCode::RBracket => 122,
        VirtualKeyCode::RControl => 123,
        VirtualKeyCode::RMenu => 124,
        VirtualKeyCode::RShift => 125,
        VirtualKeyCode::RWin => 126,
        VirtualKeyCode::Semicolon => 127,
        VirtualKeyCode::Slash => 128,
        VirtualKeyCode::Sleep => 129,
        VirtualKeyCode::Stop => 130,
        VirtualKeyCode::Subtract => 131,
        VirtualKeyCode::Sysrq => 132,
        VirtualKeyCode::Tab => 133,
        VirtualKeyCode::Underline => 134,
        VirtualKeyCode::Unlabeled => 135,
        VirtualKeyCode::VolumeDown => 136,
        VirtualKeyCode::VolumeUp => 137,
        VirtualKeyCode::Wake => 138,
        VirtualKeyCode::Webback => 139,
        VirtualKeyCode::WebFavorites => 140,
        VirtualKeyCode::WebForward => 141,
        VirtualKeyCode::WebHome => 142,
        VirtualKeyCode::WebRefresh => 143,
        VirtualKeyCode::WebSearch => 144,
        VirtualKeyCode::WebStop => 145,
        VirtualKeyCode::Yen => 146,
    }
}

/// The key that a number names, if any.
pub open spec fn key_at(i: u32) -> Option<VirtualKeyCode> {
    match i {
        0 => Some(VirtualKeyCode::Key1),
        1 => Some(VirtualKeyCode::Key2),
        2 => Some(VirtualKeyCode::Key3),
        3 => Some(VirtualKeyCode::Key4),
        4 => Some(VirtualKeyCode::Key5),
        5 => Some(VirtualKeyCode::Key6),
        6 => Some(VirtualKeyCode::Key7),
        7 => Some(VirtualKeyCode::Key8),
        8 => Some(VirtualKeyCode::Key9),
        9 => Some(VirtualKeyCode::Key0),
        10 => Some(VirtualKeyCode::A),
        11 => Some(VirtualKeyCode::B),
        12 => Some(VirtualKeyCode::C),
        13 => Some(VirtualKeyCode::D),
        14 => Some(VirtualKeyCode::E),
        15 => Some(VirtualKeyCode::F),
        16 => Some(VirtualKeyCode::G),
        17 => Some(VirtualKeyCode::H),
        18 => Some(VirtualKeyCode::I),
        19 => Some(VirtualKeyCode::J),
        20 => Some(VirtualKeyCode::K),
        21 => Some(VirtualKeyCode::L),
        22 => Some(VirtualKeyCode::M),
        23 => Some(VirtualKeyCode::N),
        24 => Some(VirtualKeyCode::O),
        25 => Some(VirtualKeyCode::P),
        26 => Some(VirtualKeyCode::Q),
        27 => Some(VirtualKeyCode::R),
        28 => Some(VirtualKeyCode::S),
        29 => Some(VirtualKeyCode::T),
        30 => Some(VirtualKeyCode::U),
        31 => Some(VirtualKeyCode::V),
        32 => Some(VirtualKeyCode::W),
        33 => Some(VirtualKeyCode::X),
        34 => Some(VirtualKeyCode::Y),
        35 => Some(VirtualKeyCode::Z),
        36 => Some(VirtualKeyCode::Escape),
        37 => Some(VirtualKeyCode::F1),
        38 => Some(VirtualKeyCode::F2),
        39 => Some(VirtualKeyCode::F3),
        40 => Some(VirtualKeyCode::F4),
        41 => Some(VirtualKeyCode::F5),
        42 => Some(VirtualKeyCode::F6),
        43 => Some(VirtualKeyCode::F7),
        44 => Some(VirtualKeyCode::F8),
        45 => Some(VirtualKeyCode::F9),
        46 => Some(VirtualKeyCode::F10),
        47 => Some(VirtualKeyCode::F11),
        48 => Some(VirtualKeyCode::F12),
        49 => Some(VirtualKeyCode::F13),
        50 => Some(VirtualKeyCode::F14),
        51 => Some(VirtualKeyCode::F15),
        52 => Some(VirtualKeyCode::Snapshot),
        53 => Some(VirtualKeyCode::Scroll),
        54 => Some(VirtualKeyCode::Pause),
        55 => Some(VirtualKeyCode::Insert),
        56 => Some(VirtualKeyCode::Home),
        57 => Some(VirtualKeyCode::Delete),
        58 => Some(VirtualKeyCode::End),
        59 => Some(VirtualKeyCode::PageDown),
        60 => Some(VirtualKeyCode::PageUp),
        61 => Some(VirtualKeyCode::Left),
        62 => Some(VirtualKeyCode::Up),
        63 => Some(VirtualKeyCode::Right),
        64 => Some(VirtualKeyCode::Down),
        65 => Some(VirtualKeyCode::Back),
        66 => Some(VirtualKeyCode::Return),
        67 => Some(VirtualKeyCode::Space),
        68 => Some(VirtualKeyCode::Numlock),
        69 => Some(VirtualKeyCode::Numpad0),
        70 => Some(VirtualKeyCode::Numpad1),
        71 => Some(VirtualKeyCode::Numpad2),
        72 => Some(VirtualKeyCode::Numpad3),
        73 => Some(VirtualKeyCode::Numpad4),
        74 => Some(VirtualKeyCode::Numpad5),
        75 => Some(VirtualKeyCode::Numpad6),
        76 => Some(VirtualKeyCode::Numpad7),
        77 => Some(VirtualKeyCode::Numpad8),
        78 => Some(VirtualKeyCode::Numpad9),
        79 => Some(VirtualKeyCode::AbntC1),
        80 => Some(VirtualKeyCode::AbntC2),
        81 => Some(VirtualKeyCode::Add),
        82 => Some(VirtualKeyCode::Apostrophe),
        83 => Some(VirtualKeyCode::Apps),
        84 => Some(VirtualKeyCode::At),
        85 => Some(VirtualKeyCode::Ax),
        86 => Some(VirtualKeyCode::Backslash),
        87 => Some(VirtualKeyCode::Calculator),
        88 => Some(VirtualKeyCode::Capital),
        89 => Some(VirtualKeyCode::Colon),
        90 => Some(VirtualKeyCode::Comma),
        91 => Some(VirtualKeyCode::Convert),
        92 => Some(VirtualKeyCode::Decimal),
        93 => Some(VirtualKeyCode::Divide),
        94 => Some(VirtualKeyCode::Equals),
        95 => Some(VirtualKeyCode::Grave),
        96 => Some(VirtualKeyCode::Kana),
        97 => Some(VirtualKeyCode::Kanji),
        98 => Some(VirtualKeyCode::LAlt),
        99 => Some(VirtualKeyCode::LBracket),
        100 => Some(VirtualKeyCode::LControl),
        101 => Some(VirtualKeyCode::LMenu),
        102 => Some(VirtualKeyCode::LShift),
        103 => Some(VirtualKeyCode::LWin),
        104 => Some(VirtualKeyCode::Mail),
        105 => Some(VirtualKeyCode::MediaSelect),
        106 => Some(VirtualKeyCode::MediaStop),
        107 => Some(VirtualKeyCode::Minus),
        108 => Some(VirtualKeyCode::Multiply),
        109 => Some(VirtualKeyCode::Mute),
        110 => Some(VirtualKeyCode::MyComputer),
        111 => Some(VirtualKeyCode::NextTrack),
        112 => Some(VirtualKeyCode::NoConvert),
        113 => Some(VirtualKeyCode::NumpadComma),
        114 => Some(VirtualKeyCode::NumpadEnter),
        115 => Some(VirtualKeyCode::NumpadEquals),
        116 => Some(VirtualKeyCode::OEM102),
        117 => Some(VirtualKeyCode::Period),
        118 => Some(VirtualKeyCode::Playpause),
        119 => Some(VirtualKeyCode::Power),
        120 => Some(VirtualKeyCode::Prevtrack),
        121 => Some(VirtualKeyCode::RAlt),
        122 => Some(VirtualKeyCode::RBracket),
        123 => Some(VirtualKeyCode::RControl),
        124 => Some(VirtualKeyCode::RMenu),
        125 => Some(VirtualKeyCode::RShift),
        126 => Some(VirtualKeyCode::RWin),
        127 => Some(VirtualKeyCode::Semicolon),
        128 => Some(VirtualKeyCode::Slash),
        129 => Some(VirtualKeyCode::Sleep),
        130 => Some(VirtualKeyCode::Stop),
        131 => Some(VirtualKeyCode::Subtract),
        132 => Some(VirtualKeyCode::Sysrq),
        133 => Some(VirtualKeyCode::Tab),
        134 => Some(VirtualKeyCode::Underline),
        135 => Some(VirtualKeyCode::Unlabeled),
        136 => Some(VirtualKeyCode::VolumeDown),
        137 => Some(VirtualKeyCode::VolumeUp),
        138 => Some(VirtualKeyCode::Wake),
        139 => Some(VirtualKeyCode::Webback),
        140 => Some(VirtualKeyCode::WebFavorites),
        141 => Some(VirtualKeyCode::WebForward),
        142 => Some(VirtualKeyCode::WebHome),
        143 => Some(VirtualKeyCode::WebRefresh),
        144 => Some(VirtualKeyCode::WebSearch),
        145 => Some(VirtualKeyCode::WebStop),
        146 => Some(VirtualKeyCode::Yen),
        _ => None,
    }
}

/// The number that names a key.
pub fn key_number(vk: VirtualKeyCode) -> (r: u32)
    ensures
        r == key_index(vk),
{
    match vk {
        VirtualKeyCode::Key1 => 0,
        VirtualKeyCode::Key2 => 1,
        VirtualKeyCode::Key3 => 2,
        VirtualKeyCode::Key4 => 3,
        VirtualKeyCode::Key5 => 4,
        VirtualKeyCode::Key6 => 5,
        VirtualKeyCode::Key7 => 6,
        VirtualKeyCode::Key8 => 7,
        VirtualKeyCode::Key9 => 8,
        VirtualKeyCode::Key0 => 9,
        VirtualKeyCode::A => 10,
        VirtualKeyCode::B => 11,
        VirtualKeyCode::C => 12,
        VirtualKeyCode::D => 13,
        VirtualKeyCode::E => 14,
        VirtualKeyCode::F => 15,
        VirtualKeyCode::G => 16,
        VirtualKeyCode::H => 17,
        VirtualKeyCode::I => 18,
        VirtualKeyCode::J => 19,
        VirtualKeyCode::K => 20,
        VirtualKeyCode::L => 21,
        VirtualKeyCode::M => 22,
        VirtualKeyCode::N => 23,
        VirtualKeyCode::O => 24,
        VirtualKeyCode::P => 25,
        VirtualKeyCode::Q => 26,
        VirtualKeyCode::R => 27,
        VirtualKeyCode::S => 28,
        VirtualKeyCode::T => 29,
        VirtualKeyCode::U => 30,
        VirtualKeyCode::V => 31,
        VirtualKeyCode::W => 32,
        VirtualKeyCode::X => 33,
        VirtualKeyCode::Y => 34,
        VirtualKeyCode::Z => 35,
        VirtualKeyCode::Escape => 36,
        VirtualKeyCode::F1 => 37,
        VirtualKeyCode::F2 => 38,
        VirtualKeyCode::F3 => 39,
        VirtualKeyCode::F4 => 40,
        VirtualKeyCode::F5 => 41,
        VirtualKeyCode::F6 => 42,
        VirtualKeyCode::F7 => 43,
        VirtualKeyCode::F8 => 44,
        VirtualKeyCode::F9 => 45,
        VirtualKeyCode::F10 => 46,
        VirtualKeyCode::F11 => 47,
        VirtualKeyCode::F12 => 48,
        VirtualKeyCode::F13 => 49,
        VirtualKeyCode::F14 => 50,
        VirtualKeyCode::F15 => 51,
        VirtualKeyCode::Snapshot => 52,
        VirtualKeyCode::Scroll => 53,
        VirtualKeyCode::Pause => 54,
        VirtualKeyCode::Insert => 55,
        VirtualKeyCode::Home => 56,
        VirtualKeyCode::Delete => 57,
        VirtualKeyCode::End => 58,
        VirtualKeyCode::PageDown => 59,
        VirtualKeyCode::PageUp => 60,
        VirtualKeyCode::Left => 61,
        VirtualKeyCode::Up => 62,
        VirtualKeyCode::Right => 63,
        VirtualKeyCode::Down => 64,
        VirtualKeyCode::Back => 65,
        VirtualKeyCode::Return => 66,
        VirtualKeyCode::Space => 67,
        VirtualKeyCode::Numlock => 68,
        VirtualKeyCode::Numpad0 => 69,
        VirtualKeyCode::Numpad1 => 70,
        VirtualKeyCode::Numpad2 => 71,
        VirtualKeyCode::Numpad3 => 72,
        VirtualKeyCode::Numpad4 => 73,
        VirtualKeyCode::Numpad5 => 74,
        VirtualKeyCode::Numpad6 => 75,
        VirtualKeyCode::Numpad7 => 76,
        VirtualKeyCode::Numpad8 => 77,
        VirtualKeyCode::Numpad9 => 78,
        VirtualKeyCode::AbntC1 => 79,
        VirtualKeyCode::AbntC2 => 80,
        VirtualKeyCode::Add => 81,
        VirtualKeyCode::Apostrophe => 82,
        VirtualKeyCode::Apps => 83,
        VirtualKeyCode::At => 84,
        VirtualKeyCode::Ax => 85,
        VirtualKeyCode::Backslash => 86,
        VirtualKeyCode::Calculator => 87,
        VirtualKeyCode::Capital => 88,
        VirtualKeyCode::Colon => 89,
        VirtualKeyCode::Comma => 90,
        VirtualKeyCode::Convert => 91,
        VirtualKeyCode::Decimal => 92,
        VirtualKeyCode::Divide => 93,
        VirtualKeyCode::Equals => 94,
        VirtualKeyCode::Grave => 95,
        VirtualKeyCode::Kana => 96,
        VirtualKeyCode::Kanji => 97,
        VirtualKeyCode::LAlt => 98,
        VirtualKeyCode::LBracket => 99,
        VirtualKeyCode::LControl => 100,
        VirtualKeyCode::LMenu => 101,
        VirtualKeyCode::LShift => 102,
        VirtualKeyCode::LWin => 103,
        VirtualKeyCode::Mail => 104,
        VirtualKeyCode::MediaSelect => 105,
        VirtualKeyCode::MediaStop => 106,
        VirtualKeyCode::Minus => 107,
        VirtualKeyCode::Multiply => 108,
        VirtualKeyCode::Mute => 109,
        VirtualKeyCode::MyComputer => 110,
        VirtualKeyCode::NextTrack => 111,
        VirtualKeyCode::NoConvert => 112,
        VirtualKeyCode::NumpadComma => 113,
        VirtualKeyCode::NumpadEnter => 114,
        VirtualKeyCode::NumpadEquals => 115,
        VirtualKeyCode::OEM102 => 116,
        VirtualKeyCode::Period => 117,
        VirtualKeyCode::Playpause => 118,
        VirtualKeyCode::Power => 119,
        VirtualKeyCode::Prevtrack => 120,
        VirtualKeyCode::RAlt => 121,
        VirtualKeyCode::RBracket => 122,
        VirtualKeyCode::RControl => 123,
        VirtualKeyCode::RMenu => 124,
        VirtualKeyCode::RShift => 125,
        VirtualKeyCode::RWin => 126,
        VirtualKeyCode::Semicolon => 127,
        VirtualKeyCode::Slash => 128,
        VirtualKeyCode::Sleep => 129,
        VirtualKeyCode::Stop => 130,
        VirtualKeyCode::Subtract => 131,
        VirtualKeyCode::Sysrq => 132,
        VirtualKeyCode::Tab => 133,
        VirtualKeyCode::Underline => 134,
        VirtualKeyCode::Unlabeled => 135,
        VirtualKeyCode::VolumeDown => 136,
        VirtualKeyCode::VolumeUp => 137,
        VirtualKeyCode::Wake => 138,
        VirtualKeyCode::Webback => 139,
        VirtualKeyCode::WebFavorites => 140,
        VirtualKeyCode::WebForward => 141,
        VirtualKeyCode::WebHome => 142,
        VirtualKeyCode::WebRefresh => 143,
        VirtualKeyCode::WebSearch => 144,
        VirtualKeyCode::WebStop => 145,
        VirtualKeyCode::Yen => 146,
    }
}

/// Each key has a number of its own: the number names the key back.
pub proof fn lemma_key_index_names_the_key(vk: VirtualKeyCode)
    ensures
        key_at(key_index(vk)) == Some(vk),
{
}

/// Two keys with the same number are the same key.
pub proof fn lemma_key_index_injective(a: VirtualKeyCode, b: VirtualKeyCode)
    ensures
        key_index(a) == key_index(b) ==> a == b,
{
    lemma_key_index_names_the_key(a);
    lemma_key_index_names_the_key(b);
}

} // verus!
