use vstd::prelude::*;

verus! {

/// The button of a mouse event.
#[derive(Clone, Copy, Debug, PartialEq, Eq)]
pub enum MouseAction {
    Left,
    Right,
    Middle,
    Button4,
    Button5,
}

/// The key of a keyboard event.
#[derive(Clone, Copy, Debug, PartialEq, Eq)]
pub enum KeyboardActionKey {
    // Modifier keys
    CapsLock,
    Shift,
    Command,
    Option,
    Control,
    Fn,
    Alt,
    Meta,
    // Function keys
    F1,
    F2,
    F3,
    F4,
    F5,
    F6,
    F7,
    F8,
    F9,
    F10,
    F11,
    F12,
    // Letters
    A,
    B,
    C,
    D,
    E,
    F,
    G,
    H,
    I,
    J,
    K,
    L,
    M,
    N,
    O,
    P,
    Q,
    R,
    S,
    T,
    U,
    V,
    W,
    X,
    Y,
    Z,
    // Digits
    Num0,
    Num1,
    Num2,
    Num3,
    Num4,
    Num5,
    Num6,
    Num7,
    Num8,
    Num9,
    // Navigation keys
    ArrowUp,
    ArrowDown,
    ArrowLeft,
    ArrowRight,
    Home,
    End,
    PageUp,
    PageDown,
    // Special keys
    Escape,
    Enter,
    Tab,
    Space,
    Backspace,
    Insert,
    Delete,
    NumLock,
    ScrollLock,
    Pause,
    PrintScreen,
    // Symbols
    Grave,
    Minus,
    Equals,
    BracketLeft,
    BracketRight,
    Semicolon,
    Quote,
    Comma,
    Period,
    Slash,
    Backslash,
}

/// A key and how long it was held, in milliseconds.
#[derive(Clone, Copy, Debug, PartialEq, Eq)]
pub struct KeyboardAction {
    pub key: KeyboardActionKey,
    pub duration: i32,
}

/// A scroll by `x` and `y` and how long it took, in milliseconds.
#[derive(Clone, Copy, Debug, PartialEq, Eq)]
pub struct ScrollAction {
    pub x: i32,
    pub y: i32,
    pub duration: i32,
}

/// The name under which a mouse button is stored and sent.
pub open spec fn mouse_action_name(action: MouseAction) -> Seq<char> {
    match action {
        MouseAction::Left => "left"@,
        MouseAction::Right => "right"@,
        MouseAction::Middle => "middle"@,
        MouseAction::Button4 => "button4"@,
        MouseAction::Button5 => "button5"@,
    }
}

impl MouseAction {
    /// The name under which this button is stored and sent.
    pub fn name(&self) -> (name: String)
        ensures
            name@ == mouse_action_name(*self),
    {
        match self {
            MouseAction::Left => String::from_str("left"),
            MouseAction::Right => String::from_str("right"),
            MouseAction::Middle => String::from_str("middle"),
            MouseAction::Button4 => String::from_str("button4"),
            MouseAction::Button5 => String::from_str("button5"),
        }
    }
}

} // verus!
