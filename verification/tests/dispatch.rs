use mandelbrot_viewer::dispatcher::{Action, Dispatcher};
use mandelbrot_viewer::event::{ButtonState, InputEvent, Key, MouseButton};
use mandelbrot_viewer::mutation::Mutation;

fn press(key: Key) -> InputEvent {
    InputEvent::KeyboardInput { state: ButtonState::Pressed, key: Some(key) }
}

fn left(state: ButtonState) -> InputEvent {
    InputEvent::MouseInput { state, button: MouseButton::Left }
}

#[test]
fn new_dispatcher_is_idle_at_origin() {
    let d = Dispatcher::new();
    assert!(!d.mouse_button_down);
    assert_eq!(d.last_mouse_position, (0, 0));
}

#[test]
fn close_ends_the_loop() {
    let mut d = Dispatcher::new();
    assert_eq!(d.handle(InputEvent::Closed), Action::Exit);
    assert_eq!(d, Dispatcher::new());
}

#[test]
fn minus_zooms_out() {
    let mut d = Dispatcher::new();
    assert_eq!(d.handle(press(Key::Minus)), Action::Mutate(Mutation::zoom_out()));
    assert_eq!(d, Dispatcher::new());
}

#[test]
fn equals_zooms_in() {
    let mut d = Dispatcher::new();
    assert_eq!(d.handle(press(Key::Equals)), Action::Mutate(Mutation::zoom_in()));
}

#[test]
fn space_resets() {
    let mut d = Dispatcher::new();
    assert_eq!(d.handle(press(Key::Space)), Action::Mutate(Mutation::reset()));
}

#[test]
fn arrows_scroll_one_step() {
    let mut d = Dispatcher::new();
    assert_eq!(d.handle(press(Key::Up)), Action::Mutate(Mutation::scroll(0, -1)));
    assert_eq!(d.handle(press(Key::Down)), Action::Mutate(Mutation::scroll(0, 1)));
    assert_eq!(d.handle(press(Key::Left)), Action::Mutate(Mutation::scroll(-1, 0)));
    assert_eq!(d.handle(press(Key::Right)), Action::Mutate(Mutation::scroll(1, 0)));
    assert_eq!(d, Dispatcher::new());
}

#[test]
fn arrow_keys_give_exact_shifts() {
    let mut d = Dispatcher::new();
    assert_eq!(
        d.handle(press(Key::Up)),
        Action::Mutate(Mutation::Shift { dx_min: 0, dx_max: 0, dy_min: -100, dy_max: -100 })
    );
    assert_eq!(
        d.handle(press(Key::Right)),
        Action::Mutate(Mutation::Shift { dx_min: 100, dx_max: 100, dy_min: 0, dy_max: 0 })
    );
}

#[test]
fn unknown_key_is_logged_and_changes_nothing() {
    let mut d = Dispatcher { mouse_button_down: true, last_mouse_position: (7, -3) };
    let before = d;
    assert_eq!(d.handle(press(Key::Other)), Action::LogKey);
    assert_eq!(d, before);
}

#[test]
fn key_release_is_logged_as_event() {
    let mut d = Dispatcher::new();
    let released = InputEvent::KeyboardInput { state: ButtonState::Released, key: Some(Key::Space) };
    assert_eq!(d.handle(released), Action::LogEvent);
    assert_eq!(d, Dispatcher::new());
}

#[test]
fn unnamed_key_is_logged_as_event() {
    let mut d = Dispatcher::new();
    let unnamed = InputEvent::KeyboardInput { state: ButtonState::Pressed, key: None };
    assert_eq!(d.handle(unnamed), Action::LogEvent);
    assert_eq!(d, Dispatcher::new());
}

#[test]
fn other_event_is_logged_and_changes_nothing() {
    let mut d = Dispatcher { mouse_button_down: true, last_mouse_position: (12, 34) };
    let before = d;
    assert_eq!(d.handle(InputEvent::Other), Action::LogEvent);
    assert_eq!(d, before);
}

#[test]
fn other_mouse_button_is_logged_and_changes_nothing() {
    let mut d = Dispatcher::new();
    let other = InputEvent::MouseInput { state: ButtonState::Pressed, button: MouseButton::Other };
    assert_eq!(d.handle(other), Action::LogEvent);
    assert_eq!(d, Dispatcher::new());
}

#[test]
fn left_button_sets_and_clears_drag_state() {
    let mut d = Dispatcher::new();
    assert_eq!(d.handle(left(ButtonState::Pressed)), Action::Nothing);
    assert!(d.mouse_button_down);
    assert_eq!(d.last_mouse_position, (0, 0));
    assert_eq!(d.handle(left(ButtonState::Released)), Action::Nothing);
    assert!(!d.mouse_button_down);
}

#[test]
fn move_without_button_only_notes_position() {
    let mut d = Dispatcher::new();
    assert_eq!(d.handle(InputEvent::MouseMoved { x: 100, y: 100 }), Action::Nothing);
    assert_eq!(d.last_mouse_position, (100, 100));
    assert!(!d.mouse_button_down);
    assert_eq!(d.handle(InputEvent::MouseMoved { x: -5, y: 2 }), Action::Nothing);
    assert_eq!(d.last_mouse_position, (-5, 2));
}

#[test]
fn drag_pans_by_pixel_distance() {
    let mut d = Dispatcher::new();
    assert_eq!(d.handle(InputEvent::MouseMoved { x: 100, y: 100 }), Action::Nothing);
    assert_eq!(d.handle(left(ButtonState::Pressed)), Action::Nothing);
    let action = d.handle(InputEvent::MouseMoved { x: 90, y: 110 });
    assert_eq!(action, Action::Mutate(Mutation::pan(10, -10)));
    assert_eq!(
        action,
        Action::Mutate(Mutation::Shift { dx_min: 10, dx_max: 10, dy_min: -10, dy_max: -10 })
    );
    assert_eq!(d.last_mouse_position, (90, 110));
    assert!(d.mouse_button_down);
}

#[test]
fn drag_continues_from_last_position() {
    let mut d = Dispatcher::new();
    d.handle(left(ButtonState::Pressed));
    assert_eq!(
        d.handle(InputEvent::MouseMoved { x: 3, y: 4 }),
        Action::Mutate(Mutation::pan(-3, -4))
    );
    assert_eq!(
        d.handle(InputEvent::MouseMoved { x: 5, y: 1 }),
        Action::Mutate(Mutation::pan(-2, 3))
    );
    assert_eq!(d.handle(InputEvent::MouseMoved { x: 5, y: 1 }), Action::Mutate(Mutation::pan(0, 0)));
}

#[test]
fn release_ends_the_drag() {
    let mut d = Dispatcher::new();
    d.handle(left(ButtonState::Pressed));
    d.handle(InputEvent::MouseMoved { x: 10, y: 10 });
    d.handle(left(ButtonState::Released));
    assert_eq!(d.handle(InputEvent::MouseMoved { x: 20, y: 20 }), Action::Nothing);
    assert_eq!(d.last_mouse_position, (20, 20));
}

#[test]
fn drag_across_the_whole_pixel_range() {
    let mut d = Dispatcher { mouse_button_down: true, last_mouse_position: (i32::MIN, i32::MAX) };
    let action = d.handle(InputEvent::MouseMoved { x: i32::MAX, y: i32::MIN });
    assert_eq!(action, Action::Mutate(Mutation::pan(-4294967295, 4294967295)));
    assert_eq!(d.last_mouse_position, (i32::MAX, i32::MIN));
}

#[test]
fn resize_event_resizes() {
    let mut d = Dispatcher { mouse_button_down: true, last_mouse_position: (1, 2) };
    let before = d;
    assert_eq!(
        d.handle(InputEvent::Resized { width: 800, height: 600 }),
        Action::Mutate(Mutation::Resize { width: 800, height: 600 })
    );
    assert_eq!(d, before);
}

#[test]
fn resize_to_nothing_is_passed_on() {
    let mut d = Dispatcher::new();
    assert_eq!(
        d.handle(InputEvent::Resized { width: 0, height: 0 }),
        Action::Mutate(Mutation::resize(0, 0))
    );
}

#[test]
fn keys_do_not_touch_drag_state() {
    let mut d = Dispatcher { mouse_button_down: true, last_mouse_position: (40, 50) };
    let before = d;
    d.handle(press(Key::Minus));
    d.handle(press(Key::Equals));
    d.handle(press(Key::Space));
    d.handle(press(Key::Left));
    assert_eq!(d, before);
}
