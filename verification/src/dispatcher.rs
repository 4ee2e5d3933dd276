use crate::event::{ButtonState, InputEvent, Key, MouseButton};
use crate::mutation::Mutation;
use crate::viewport::Viewport;
use vstd::prelude::*;

verus! {

/// What the main loop is to do about one input event.
#[derive(Clone, Copy, Debug, PartialEq, Eq, Structural)]
pub enum Action {
    /// Leave the main loop.
    Exit,
    /// Carry this mutation out on the viewport.
    Mutate(Mutation),
    /// Leave the viewport alone and note the key that was pressed.
    LogKey,
    /// Leave the viewport alone and note the event.
    LogEvent,
    /// Leave the viewport alone. The event changed at most the dispatcher.
    Nothing,
}

impl Action {
    /// The viewport after the action has been taken on `v`: the mutation
    /// carried out where the action asks for one, `v` itself where not.
    pub open spec fn effect(self, v: Viewport) -> Viewport {
        match self {
            Action::Mutate(m) => m.apply(v),
            _ => v,
        }
    }
}

/// What a key does when it goes down.
pub open spec fn key_action(key: Key) -> Action {
    match key {
        Key::Minus => Action::Mutate(Mutation::zoom_out()),
        Key::Equals => Action::Mutate(Mutation::zoom_in()),
        Key::Space => Action::Mutate(Mutation::reset()),
        Key::Up => Action::Mutate(Mutation::scroll(0, -1i32)),
        Key::Down => Action::Mutate(Mutation::scroll(0, 1)),
        Key::Left => Action::Mutate(Mutation::scroll(-1i32, 0)),
        Key::Right => Action::Mutate(Mutation::scroll(1, 0)),
        Key::Other => Action::LogKey,
    }
}

/// Turns input events into actions. It remembers whether the left mouse
/// button is down and where the pointer was last seen, and nothing else.
#[derive(Clone, Copy, Debug, PartialEq, Eq)]
pub struct Dispatcher {
    pub mouse_button_down: bool,
    pub last_mouse_position: (i32, i32),
}

impl Dispatcher {
    /// The dispatcher before any event: button up, pointer at the origin.
    pub open spec fn initial() -> Dispatcher {
        Dispatcher { mouse_button_down: false, last_mouse_position: (0, 0) }
    }

    /// The action that answers `event` in this state.
    pub open spec fn action(self, event: InputEvent) -> Action {
        match event {
            InputEvent::Closed => Action::Exit,
            InputEvent::KeyboardInput { state: ButtonState::Pressed, key: Some(key) } => {
                key_action(key)
            },
            InputEvent::MouseInput { button: MouseButton::Left, .. } => Action::Nothing,
            InputEvent::MouseMoved { x, y } => if self.mouse_button_down {
                Action::Mutate(
                    Mutation::pan(
                        (self.last_mouse_position.0 - x) as i64,
                        (self.last_mouse_position.1 - y) as i64,
                    ),
                )
            } else {
                Action::Nothing
            },
            InputEvent::Resized { width, height } => Action::Mutate(Mutation::resize(width, height)),
            _ => Action::LogEvent,
        }
    }

    /// The state after `event`.
    pub open spec fn next(self, event: InputEvent) -> Dispatcher {
        match event {
            InputEvent::MouseInput { state, button: MouseButton::Left } => Dispatcher {
                mouse_button_down: state == ButtonState::Pressed,
                ..self
            },
            InputEvent::MouseMoved { x, y } => Dispatcher { last_mouse_position: (x, y), ..self },
            _ => self,
        }
    }

    /// A dispatcher in its initial state.
    pub fn new() -> (d: Dispatcher)
        ensures
            d == Dispatcher::initial(),
    {
        Dispatcher { mouse_button_down: false, last_mouse_position: (0, 0) }
    }

    /// Takes one event: updates the drag state and says what is to be done.
    pub fn handle(&mut self, event: InputEvent) -> (action: Action)
        ensures
            action == old(self).action(event),
            *final(self) == old(self).next(event),
            action matches Action::Mutate(m) ==> m.well_formed(),
            event matches InputEvent::MouseMoved { x, y } ==> {
                &&& final(self).last_mouse_position == (x, y)
                &&& final(self).mouse_button_down == old(self).mouse_button_down
                &&& !old(self).mouse_button_down ==> action == Action::Nothing
            },
            event == (InputEvent::KeyboardInput {
                state: ButtonState::Pressed,
                key: Some(Key::Other),
            }) ==> {
                &&& action == Action::LogKey
                &&& *final(self) == *old(self)
            },
            event == InputEvent::Other ==> {
                &&& action == Action::LogEvent
                &&& *final(self) == *old(self)
            },
    {
        match event {
            InputEvent::Closed => Action::Exit,
            InputEvent::KeyboardInput { state, key } => match (state, key) {
                (ButtonState::Pressed, Some(key)) => match key {
                    Key::Minus => Action::Mutate(Mutation::zoom_out()),
                    Key::Equals => Action::Mutate(Mutation::zoom_in()),
                    Key::Space => Action::Mutate(Mutation::reset()),
                    Key::Up => Action::Mutate(Mutation::scroll(0, -1)),
                    Key::Down => Action::Mutate(Mutation::scroll(0, 1)),
                    Key::Left => Action::Mutate(Mutation::scroll(-1, 0)),
                    Key::Right => Action::Mutate(Mutation::scroll(1, 0)),
                    Key::Other => Action::LogKey,
                },
                _ => Action::LogEvent,
            },
            InputEvent::MouseInput { state, button } => match button {
                MouseButton::Left => {
                    self.mouse_button_down = match state {
                        ButtonState::Pressed => true,
                        ButtonState::Released => false,
                    };
                    Action::Nothing
                },
                MouseButton::Other => Action::LogEvent,
            },
            InputEvent::MouseMoved { x, y } => {
                let action = if self.mouse_button_down {
                    let dx: i64 = self.last_mouse_position.0 as i64 - x as i64;
                    let dy: i64 = self.last_mouse_position.1 as i64 - y as i64;
                    Action::Mutate(Mutation::pan(dx, dy))
                } else {
                    Action::Nothing
                };
                self.last_mouse_position = (x, y);
                action
            },
            InputEvent::Resized { width, height } => Action::Mutate(Mutation::resize(width, height)),
            InputEvent::Other => Action::LogEvent,
        }
    }
}

} // verus!
