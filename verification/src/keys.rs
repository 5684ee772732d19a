use vstd::prelude::*;

verus! {

/// A key of the computer keyboard, as the window reports it: one variant for
/// each virtual key code of the windowing layer, in its order.
#[derive(Clone, Copy, Debug, PartialEq, Eq, Structural)]
pub enum Key {
    Key1,
    Key2,
    Key3,
    Key4,
    Key5,
    Key6,
    Key7,
    Key8,
    Key9,
    Key0,
    A,
    B,
    C,
    D,
    E,
    F,
    G,
    H,
    I,
    J,
    K,
    L,
    M,
    N,
    O,
    P,
    Q,
    R,
    S,
    T,
    U,
    V,
    W,
    X,
    Y,
    Z,
    Escape,
    F1,
    F2,
    F3,
    F4,
    F5,
    F6,
    F7,
    F8,
    F9,
    F10,
    F11,
    F12,
    F13,
    F14,
    F15,
    F16,
    F17,
    F18,
    F19,
    F20,
    F21,
    F22,
    F23,
    F24,
    Snapshot,
    Scroll,
    Pause,
    Insert,
    Home,
    Delete,
    End,
    PageDown,
    PageUp,
    Left,
    Up,
    Right,
    Down,
    Back,
    Return,
    Space,
    Compose,
    Caret,
    Numlock,
    Numpad0,
    Numpad1,
    Numpad2,
    Numpad3,
    Numpad4,
    Numpad5,
    Numpad6,
    Numpad7,
    Numpad8,
    Numpad9,
    AbntC1,
    AbntC2,
    Add,
    Apostrophe,
    Apps,
    At,
    Ax,
    Backslash,
    Calculator,
    Capital,
    Colon,
    Comma,
    Convert,
    Decimal,
    Divide,
    Equals,
    Grave,
    Kana,
    Kanji,
    LAlt,
    LBracket,
    LControl,
    LShift,
    LWin,
    Mail,
    MediaSelect,
    MediaStop,
    Minus,
    Multiply,
    Mute,
    MyComputer,
    NavigateForward,
    NavigateBackward,
    NextTrack,
    NoConvert,
    NumpadComma,
    NumpadEnter,
    NumpadEquals,
    OEM102,
    Period,
    PlayPause,
    Power,
    PrevTrack,
    RAlt,
    RBracket,
    RControl,
    RShift,
    RWin,
    Semicolon,
    Slash,
    Sleep,
    Stop,
    Subtract,
    Sysrq,
    Tab,
    Underline,
    Unlabeled,
    VolumeDown,
    VolumeUp,
    Wake,
    WebBack,
    WebFavorites,
    WebForward,
    WebHome,
    WebRefresh,
    WebSearch,
    WebStop,
    Yen,
    Copy,
    Paste,
    Cut,
}

/// The keys that the musical keyboard reads: the note keys (a piano octave and
/// a half laid over the home row and the row above it), then the octave keys
/// `Z` and `X` and the velocity keys `C` and `V`.
#[derive(Clone, Copy, Debug, PartialEq, Eq, Structural)]
pub enum KeyboardKey {
    A,
    W,
    S,
    E,
    D,
    F,
    T,
    G,
    Y,
    H,
    U,
    J,
    K,
    O,
    L,
    P,
    Semicolon,
    Quote,
    Z,
    X,
    C,
    V,
}

/// The musical-keyboard key that a computer key stands for, if any: the
/// letter keys of the same name, `;` and `'` for the last two note keys.
pub open spec fn keyboard_key_of(key: Key) -> Option<KeyboardKey> {
    match key {
        Key::A => Some(KeyboardKey::A),
        Key::W => Some(KeyboardKey::W),
        Key::S => Some(KeyboardKey::S),
        Key::E => Some(KeyboardKey::E),
        Key::D => Some(KeyboardKey::D),
        Key::F => Some(KeyboardKey::F),
        Key::T => Some(KeyboardKey::T),
        Key::G => Some(KeyboardKey::G),
        Key::Y => Some(KeyboardKey::Y),
        Key::H => Some(KeyboardKey::H),
        Key::U => Some(KeyboardKey::U),
        Key::J => Some(KeyboardKey::J),
        Key::K => Some(KeyboardKey::K),
        Key::O => Some(KeyboardKey::O),
        Key::L => Some(KeyboardKey::L),
        Key::P => Some(KeyboardKey::P),
        Key::Semicolon => Some(KeyboardKey::Semicolon),
        Key::Apostrophe => Some(KeyboardKey::Quote),
        Key::Z => Some(KeyboardKey::Z),
        Key::X => Some(KeyboardKey::X),
        Key::C => Some(KeyboardKey::C),
        Key::V => Some(KeyboardKey::V),
        _ => None,
    }
}

/// Converts a key reported by the window into the musical-keyboard key it
/// stands for; keys that play no part in the instrument give `None`.
pub fn convert_key(key: Key) -> (k: Option<KeyboardKey>)
    ensures
        k == keyboard_key_of(key),
{
    let k = match key {
        Key::A => KeyboardKey::A,
        Key::W => KeyboardKey::W,
        Key::S => KeyboardKey::S,
        Key::E => KeyboardKey::E,
        Key::D => KeyboardKey::D,
        Key::F => KeyboardKey::F,
        Key::T => KeyboardKey::T,
        Key::G => KeyboardKey::G,
        Key::Y => KeyboardKey::Y,
        Key::H => KeyboardKey::H,
        Key::U => KeyboardKey::U,
        Key::J => KeyboardKey::J,
        Key::K => KeyboardKey::K,
        Key::O => KeyboardKey::O,
        Key::L => KeyboardKey::L,
        Key::P => KeyboardKey::P,
        Key::Semicolon => KeyboardKey::Semicolon,
        Key::Apostrophe => KeyboardKey::Quote,
        Key::Z => KeyboardKey::Z,
        Key::X => KeyboardKey::X,
        Key::C => KeyboardKey::C,
        Key::V => KeyboardKey::V,
        _ => return None,
    };
    Some(k)
}

/// Distinct computer keys that stand for a keyboard key stand for distinct
/// keyboard keys.
pub proof fn lemma_convert_key_injective(a: Key, b: Key)
    requires
        keyboard_key_of(a) is Some,
        keyboard_key_of(a) == keyboard_key_of(b),
    ensures
        a == b,
{
}

/// Every keyboard key can be played from the computer keyboard.
pub proof fn lemma_every_keyboard_key_reachable(k: KeyboardKey)
    ensures
        exists|key: Key| keyboard_key_of(key) == Some(k),
{
    let key = match k {
        KeyboardKey::A => Key::A,
        KeyboardKey::W => Key::W,
        KeyboardKey::S => Key::S,
        KeyboardKey::E => Key::E,
        KeyboardKey::D => Key::D,
        KeyboardKey::F => Key::F,
        KeyboardKey::T => Key::T,
        KeyboardKey::G => Key::G,
        KeyboardKey::Y => Key::Y,
        KeyboardKey::H => Key::H,
        KeyboardKey::U => Key::U,
        KeyboardKey::J => Key::J,
        KeyboardKey::K => Key::K,
        KeyboardKey::O => Key::O,
        KeyboardKey::L => Key::L,
        KeyboardKey::P => Key::P,
        KeyboardKey::Semicolon => Key::Semicolon,
        KeyboardKey::Quote => Key::Apostrophe,
        KeyboardKey::Z => Key::Z,
        KeyboardKey::X => Key::X,
        KeyboardKey::C => Key::C,
        KeyboardKey::V => Key::V,
    };
    assert(keyboard_key_of(key) == Some(k));
}

} // verus!
