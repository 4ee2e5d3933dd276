use vstd::prelude::*;

verus! {

/// Whether a key or a button went down or came up.
#[derive(Clone, Copy, Debug, PartialEq, Eq, Structural)]
pub enum ButtonState {
    Pressed,
    Released,
}

/// The keys the viewer knows, and one name for all the others.
#[derive(Clone, Copy, Debug, PartialEq, Eq, Structural)]
pub enum Key {
    /// The key "-".
    Minus,
    /// The key "=".
    Equals,
    Space,
    Up,
    Down,
    Left,
    Right,
    /// Any other key.
    Other,
}

/// The mouse buttons the viewer knows, and one name for all the others.
#[derive(Clone, Copy, Debug, PartialEq, Eq, Structural)]
pub enum MouseButton {
    Left,
    /// Any other button.
    Other,
}

/// An input event as a windowing backend delivers it.
#[derive(Clone, Copy, Debug, PartialEq, Eq)]
pub enum InputEvent {
    /// The window was closed.
    Closed,
    /// A key went down or came up. `key` is `None` where the backend could
    /// not tell which key it was.
    KeyboardInput { state: ButtonState, key: Option<Key> },
    /// A mouse button went down or came up.
    MouseInput { state: ButtonState, button: MouseButton },
    /// The pointer moved to the pixel `(x, y)` of the surface.
    MouseMoved { x: i32, y: i32 },
    /// The surface now measures `width` by `height` pixels.
    Resized { width: u32, height: u32 },
    /// Anything else.
    Other,
}

} // verus!
