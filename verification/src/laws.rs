use crate::dispatcher::{Action, Dispatcher};
use crate::event::{ButtonState, InputEvent, Key, MouseButton};
use crate::mutation::{shifted, Mutation};
use crate::viewport::{StartRegion, Viewport};
use vstd::prelude::*;

verus! {

/// The viewport after the mutations of `ms` have been carried out on `v`,
/// first to last.
pub open spec fn apply_all(ms: Seq<Mutation>, v: Viewport) -> Viewport
    decreases ms.len(),
{
    if ms.len() == 0 {
        v
    } else {
        ms.last().apply(apply_all(ms.drop_last(), v))
    }
}

/// The dispatcher and the viewport after the events of `events` have been
/// handled, first to last, each action taken on the viewport as it came.
pub open spec fn replay(d: Dispatcher, v: Viewport, events: Seq<InputEvent>) -> (
    Dispatcher,
    Viewport,
)
    decreases events.len(),
{
    if events.len() == 0 {
        (d, v)
    } else {
        let before = replay(d, v, events.drop_last());
        (before.0.next(events.last()), before.0.action(events.last()).effect(before.1))
    }
}

/// Two edges of one axis that move towards each other by less than the span
/// between them stay in order.
pub proof fn shift_keeps_order(lo: real, hi: real, a: int, b: int)
    requires
        lo < hi,
        a - b < 1000,
    ensures
        shifted(lo, a, hi - lo) < shifted(hi, b, hi - lo),
{
    let s = hi - lo;
    let ra = a as real;
    let rb = b as real;
    assert(ra - rb < 1000real);
    assert(lo + (ra / 100real) * (s / 10real) < hi + (rb / 100real) * (s / 10real))
        by (nonlinear_arith)
        requires
            s == hi - lo,
            s > 0real,
            ra - rb < 1000real,
    ;
}

/// Every start region is a proper rectangle.
pub proof fn initial_viewport_is_valid(start: StartRegion, width: int, height: int)
    ensures
        Viewport::initialize(start, width, height).valid(),
        Viewport::initialize(start, width, height).width == width,
        Viewport::initialize(start, width, height).height == height,
{
}

/// A well-formed mutation keeps a valid viewport valid.
pub proof fn mutation_keeps_valid(m: Mutation, v: Viewport)
    requires
        m.well_formed(),
        v.valid(),
    ensures
        m.apply(v).valid(),
{
    match m {
        Mutation::Shift { dx_min, dx_max, dy_min, dy_max } => {
            shift_keeps_order(v.x_min, v.x_max, dx_min as int, dx_max as int);
            shift_keeps_order(v.y_min, v.y_max, dy_min as int, dy_max as int);
        },
        _ => {},
    }
}

/// Resetting, scrolling, panning and zooming each keep a valid viewport
/// valid, by whatever amount; resetting makes any viewport valid.
pub proof fn operations_keep_valid(v: Viewport, fx: real, fy: real, dx: int, dy: int)
    ensures
        v.reset().valid(),
        v.valid() ==> v.scroll(fx, fy).valid(),
        v.valid() ==> v.pan(dx, dy).valid(),
        v.valid() ==> v.zoom_in().valid(),
        v.valid() ==> v.zoom_out().valid(),
{
}

/// However many well-formed mutations are carried out on a valid viewport,
/// it is valid after each of them.
pub proof fn valid_after_each_mutation(ms: Seq<Mutation>, v: Viewport, k: int)
    requires
        v.valid(),
        forall|i: int| 0 <= i < ms.len() ==> (#[trigger] ms[i]).well_formed(),
        0 <= k <= ms.len(),
    ensures
        apply_all(ms.take(k), v).valid(),
    decreases k,
{
    let prefix = ms.take(k);
    if k > 0 {
        assert(prefix.drop_last() == ms.take(k - 1));
        assert(prefix.last() == ms[k - 1]);
        valid_after_each_mutation(ms, v, k - 1);
        mutation_keeps_valid(ms[k - 1], apply_all(ms.take(k - 1), v));
    }
}

/// Every mutation the dispatcher asks for is well formed, so that taking
/// its action keeps a valid viewport valid.
pub proof fn action_keeps_valid(d: Dispatcher, event: InputEvent, v: Viewport)
    requires
        v.valid(),
    ensures
        d.action(event) matches Action::Mutate(m) ==> m.well_formed(),
        d.action(event).effect(v).valid(),
{
    match d.action(event) {
        Action::Mutate(m) => {
            Mutation::reset_meaning(v);
            mutation_keeps_valid(m, v);
        },
        _ => {},
    }
}

/// Whatever events arrive, in whatever order, a valid viewport is valid
/// after each of them.
pub proof fn valid_after_each_event(d: Dispatcher, v: Viewport, events: Seq<InputEvent>, k: int)
    requires
        v.valid(),
        0 <= k <= events.len(),
    ensures
        replay(d, v, events.take(k)).1.valid(),
    decreases k,
{
    let prefix = events.take(k);
    if k > 0 {
        assert(prefix.drop_last() == events.take(k - 1));
        assert(prefix.last() == events[k - 1]);
        valid_after_each_event(d, v, events, k - 1);
        let before = replay(d, v, events.take(k - 1));
        action_keeps_valid(before.0, events[k - 1], before.1);
    }
}

/// Resetting is absolute: whatever the viewport showed, it then shows x from
/// -2 to 1 and y from -1 to 1, and the pixel size is as before.
pub proof fn reset_is_absolute(v: Viewport)
    ensures
        v.reset().x_min == -2real,
        v.reset().x_max == 1real,
        v.reset().y_min == -1real,
        v.reset().y_max == 1real,
        v.reset().width == v.width,
        v.reset().height == v.height,
{
}

/// Resetting after any mutations gives what resetting at once gives, as far
/// as the rectangle goes, and resetting twice is resetting once.
pub proof fn reset_forgets_history(ms: Seq<Mutation>, v: Viewport)
    ensures
        apply_all(ms, v).reset().same_bounds(v.reset()),
        Mutation::reset().apply(apply_all(ms, v)).same_bounds(v.reset()),
        v.reset().reset() == v.reset(),
{
    Mutation::reset_meaning(apply_all(ms, v));
}

/// Zooming in and then out keeps the centre and the pixel size, and leaves
/// twenty-four twenty-fifths of the span on each axis. So the bounds come
/// back to what they were only where the rectangle had no extent at all.
pub proof fn zoom_in_then_out(v: Viewport)
    ensures
        v.zoom_in().zoom_out().x_min + v.zoom_in().zoom_out().x_max == v.x_min + v.x_max,
        v.zoom_in().zoom_out().y_min + v.zoom_in().zoom_out().y_max == v.y_min + v.y_max,
        v.zoom_in().zoom_out().span_x() == v.span_x() * 24real / 25real,
        v.zoom_in().zoom_out().span_y() == v.span_y() * 24real / 25real,
        v.zoom_in().zoom_out().width == v.width,
        v.zoom_in().zoom_out().height == v.height,
        v.zoom_in().zoom_out() == v <==> v.span_x() == 0real && v.span_y() == 0real,
{
}

/// Scrolling leaves the spans and the pixel size as they are.
pub proof fn scroll_keeps_span(v: Viewport, dx: real, dy: real)
    ensures
        v.scroll(dx, dy).span_x() == v.span_x(),
        v.scroll(dx, dy).span_y() == v.span_y(),
        v.scroll(dx, dy).width == v.width,
        v.scroll(dx, dy).height == v.height,
{
}

/// Scrolling by some amount and then by the opposite amount gives the
/// viewport back, on either axis and on both.
pub proof fn scroll_there_and_back(v: Viewport, dx: real, dy: real)
    ensures
        v.scroll(dx, dy).scroll(-dx, -dy) == v,
{
    let s_x = v.span_x() / 10real;
    let s_y = v.span_y() / 10real;
    scroll_keeps_span(v, dx, dy);
    assert((-dx) * s_x == -(dx * s_x)) by (nonlinear_arith);
    assert((-dy) * s_y == -(dy * s_y)) by (nonlinear_arith);
}

/// Panning by a pixel distance is scrolling by a hundredth of a step for
/// each pixel, and the instruction for the one is the instruction for the
/// other where the distance is a whole number of steps.
pub proof fn pan_is_scroll(v: Viewport, dx: i64, dy: i64, steps_x: i32, steps_y: i32)
    ensures
        v.pan(dx as int, dy as int) == v.scroll(dx as real / 100real, dy as real / 100real),
        Mutation::pan(dx, dy).apply(v) == v.scroll(dx as real / 100real, dy as real / 100real),
        Mutation::pan((100 * steps_x) as i64, (100 * steps_y) as i64) == Mutation::scroll(
            steps_x,
            steps_y,
        ),
{
    Mutation::pan_meaning(dx, dy, v);
}

/// Resizing changes the pixel size and nothing else.
pub proof fn resize_changes_size_only(v: Viewport, width: u32, height: u32)
    ensures
        Mutation::resize(width, height).apply(v).same_bounds(v),
        Mutation::resize(width, height).apply(v).width == width,
        Mutation::resize(width, height).apply(v).height == height,
        v.resize(width as int, height as int).same_bounds(v),
{
}

/// A pointer that moves while the button is up moves no viewport: the
/// dispatcher notes the new position and that is all.
pub proof fn idle_move_changes_no_viewport(d: Dispatcher, x: i32, y: i32, v: Viewport)
    requires
        !d.mouse_button_down,
    ensures
        d.action(InputEvent::MouseMoved { x, y }) == Action::Nothing,
        d.action(InputEvent::MouseMoved { x, y }).effect(v) == v,
        d.next(InputEvent::MouseMoved { x, y }).last_mouse_position == (x, y),
        !d.next(InputEvent::MouseMoved { x, y }).mouse_button_down,
{
}

/// A pointer that moves while the button is down pans by the distance from
/// where it was to where it is now, and the new position is noted.
pub proof fn drag_pans_by_distance(d: Dispatcher, x: i32, y: i32, v: Viewport)
    requires
        d.mouse_button_down,
    ensures
        d.action(InputEvent::MouseMoved { x, y }).effect(v) == v.pan(
            d.last_mouse_position.0 - x,
            d.last_mouse_position.1 - y,
        ),
        d.next(InputEvent::MouseMoved { x, y }).last_mouse_position == (x, y),
        d.next(InputEvent::MouseMoved { x, y }).mouse_button_down,
{
    let dx = (d.last_mouse_position.0 - x) as i64;
    let dy = (d.last_mouse_position.1 - y) as i64;
    Mutation::pan_meaning(dx, dy, v);
}

/// The events that mean nothing to the viewer: a key it does not know, a key
/// that comes up, a key the backend could not name, a button other than the
/// left one, and any event of another kind.
pub open spec fn unrecognized(event: InputEvent) -> bool {
    match event {
        InputEvent::KeyboardInput { state: ButtonState::Pressed, key: Some(key) } => key
            == Key::Other,
        InputEvent::KeyboardInput { .. } => true,
        InputEvent::MouseInput { button, .. } => button == MouseButton::Other,
        InputEvent::Other => true,
        _ => false,
    }
}

/// An unrecognized event changes neither the viewport nor the dispatcher;
/// it is logged, an unknown key as a key and the rest as events.
pub proof fn unrecognized_changes_nothing(d: Dispatcher, event: InputEvent, v: Viewport)
    requires
        unrecognized(event),
    ensures
        d.action(event).effect(v) == v,
        d.next(event) == d,
        d.action(event) == Action::LogKey || d.action(event) == Action::LogEvent,
        d.action(event) == Action::LogKey <==> event == (InputEvent::KeyboardInput {
            state: ButtonState::Pressed,
            key: Some(Key::Other),
        }),
{
}

/// What each key does to the viewport when it goes down.
pub proof fn key_bindings(d: Dispatcher, key: Key, v: Viewport)
    ensures
        ({
            let pressed = InputEvent::KeyboardInput {
                state: ButtonState::Pressed,
                key: Some(key),
            };
            let after = d.action(pressed).effect(v);
            &&& d.next(pressed) == d
            &&& key == Key::Minus ==> after == v.zoom_out()
            &&& key == Key::Equals ==> after == v.zoom_in()
            &&& key == Key::Space ==> after == v.reset()
            &&& key == Key::Up ==> after == v.scroll(0real, -1real)
            &&& key == Key::Down ==> after == v.scroll(0real, 1real)
            &&& key == Key::Left ==> after == v.scroll(-1real, 0real)
            &&& key == Key::Right ==> after == v.scroll(1real, 0real)
            &&& key == Key::Other ==> after == v
        }),
{
    Mutation::zoom_out_meaning(v);
    Mutation::zoom_in_meaning(v);
    Mutation::reset_meaning(v);
    Mutation::scroll_meaning(0, -1i32, v);
    Mutation::scroll_meaning(0, 1, v);
    Mutation::scroll_meaning(-1i32, 0, v);
    Mutation::scroll_meaning(1, 0, v);
}

/// What the other events do: closing the window ends the loop, the left
/// button sets the drag state, a new surface size resizes the viewport.
pub proof fn event_bindings(d: Dispatcher, state: ButtonState, width: u32, height: u32, v: Viewport)
    ensures
        d.action(InputEvent::Closed) == Action::Exit,
        d.next(InputEvent::Closed) == d,
        d.action(InputEvent::MouseInput { state, button: MouseButton::Left }) == Action::Nothing,
        d.next(InputEvent::MouseInput { state, button: MouseButton::Left }) == (Dispatcher {
            mouse_button_down: state == ButtonState::Pressed,
            last_mouse_position: d.last_mouse_position,
        }),
        d.action(InputEvent::Resized { width, height }).effect(v) == v.resize(
            width as int,
            height as int,
        ),
        d.next(InputEvent::Resized { width, height }) == d,
{
}

} // verus!
