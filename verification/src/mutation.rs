use crate::decimal::{pow10, whole_value, Decimal};
use crate::viewport::{StartRegion, Viewport};
use vstd::prelude::*;

verus! {

/// One change to a viewport, as an instruction with integer operands.
///
/// The dispatcher answers an input event with such an instruction. What it
/// does to a viewport is given by [`Mutation::apply`]; whoever holds the
/// viewport in another number format carries it out there.
#[derive(Clone, Copy, Debug, PartialEq, Eq, Structural)]
pub enum Mutation {
    /// Replace the rectangle by the one with these bounds.
    Place { x_min: Decimal, x_max: Decimal, y_min: Decimal, y_max: Decimal },
    /// Move each edge by a multiple of the step on its axis, the step being
    /// a tenth of the span. The operands count hundredths of a step; a
    /// positive one moves the edge towards larger coordinates.
    Shift { dx_min: i64, dx_max: i64, dy_min: i64, dy_max: i64 },
    /// Take over a new pixel size.
    Resize { width: u32, height: u32 },
}

/// The coordinate of an edge after it has moved by `hundredths` hundredths of
/// a step, on an axis whose span was `span`.
pub open spec fn shifted(edge: real, hundredths: int, span: real) -> real {
    edge + (hundredths as real / 100real) * (span / 10real)
}

/// A hundred hundredths are one step: the edge moves by a tenth of the span,
/// forwards or backwards.
pub proof fn shifted_one_step(edge: real, span: real)
    ensures
        shifted(edge, 100, span) == edge + span / 10real,
        shifted(edge, -100, span) == edge - span / 10real,
{
    let step = span / 10real;
    assert((100 as real / 100real) * step == step) by (nonlinear_arith);
    assert(((-100) as real / 100real) * step == -step) by (nonlinear_arith);
}

impl Mutation {
    /// The viewport after this instruction has been carried out on `v`.
    pub open spec fn apply(self, v: Viewport) -> Viewport {
        match self {
            Mutation::Place { x_min, x_max, y_min, y_max } => Viewport {
                x_min: x_min.value(),
                x_max: x_max.value(),
                y_min: y_min.value(),
                y_max: y_max.value(),
                ..v
            },
            Mutation::Shift { dx_min, dx_max, dy_min, dy_max } => Viewport {
                x_min: shifted(v.x_min, dx_min as int, v.span_x()),
                x_max: shifted(v.x_max, dx_max as int, v.span_x()),
                y_min: shifted(v.y_min, dy_min as int, v.span_y()),
                y_max: shifted(v.y_max, dy_max as int, v.span_y()),
                ..v
            },
            Mutation::Resize { width, height } => v.resize(width as int, height as int),
        }
    }

    /// The instruction cannot collapse or invert a rectangle: a placement
    /// names a proper rectangle, and a shift moves the two edges of an axis
    /// towards each other by less than the span.
    pub open spec fn well_formed(self) -> bool {
        match self {
            Mutation::Place { x_min, x_max, y_min, y_max } => {
                x_min.value() < x_max.value() && y_min.value() < y_max.value()
            },
            Mutation::Shift { dx_min, dx_max, dy_min, dy_max } => {
                dx_min - dx_max < 1000 && dy_min - dy_max < 1000
            },
            Mutation::Resize { .. } => true,
        }
    }

    /// The instruction that returns to the full view, as a value.
    pub open spec fn spec_reset() -> Mutation {
        Mutation::Place {
            x_min: Decimal { digits: -2i64, scale: 0 },
            x_max: Decimal { digits: 1, scale: 0 },
            y_min: Decimal { digits: -1i64, scale: 0 },
            y_max: Decimal { digits: 1, scale: 0 },
        }
    }

    /// The instruction that places a start region, as a value.
    pub open spec fn spec_place(start: StartRegion) -> Mutation {
        match start {
            StartRegion::FullView => Self::spec_reset(),
            StartRegion::DeepZoom => Mutation::Place {
                x_min: Decimal { digits: -7832642347569785i64, scale: 16 },
                x_max: Decimal { digits: -7832642347569401i64, scale: 16 },
                y_min: Decimal { digits: -12973931718080114i64, scale: 17 },
                y_max: Decimal { digits: -12973931718077555i64, scale: 17 },
            },
        }
    }

    /// The instruction that scrolls by whole steps, as a value.
    pub open spec fn spec_scroll(dx: i32, dy: i32) -> Mutation {
        Mutation::Shift {
            dx_min: (100 * dx) as i64,
            dx_max: (100 * dx) as i64,
            dy_min: (100 * dy) as i64,
            dy_max: (100 * dy) as i64,
        }
    }

    /// The instruction that scrolls by a pixel distance, as a value.
    pub open spec fn spec_pan(dx: i64, dy: i64) -> Mutation {
        Mutation::Shift { dx_min: dx, dx_max: dx, dy_min: dy, dy_max: dy }
    }

    /// The instruction that zooms in by one notch, as a value.
    pub open spec fn spec_zoom_in() -> Mutation {
        Mutation::Shift { dx_min: 100, dx_max: -100i64, dy_min: 100, dy_max: -100i64 }
    }

    /// The instruction that zooms out by one notch, as a value.
    pub open spec fn spec_zoom_out() -> Mutation {
        Mutation::Shift { dx_min: -100i64, dx_max: 100, dy_min: -100i64, dy_max: 100 }
    }

    /// The instruction that takes over a new pixel size, as a value.
    pub open spec fn spec_resize(width: u32, height: u32) -> Mutation {
        Mutation::Resize { width, height }
    }

    /// Resetting is well formed and gives the full view, whatever was shown.
    pub proof fn reset_meaning(v: Viewport)
        ensures
            Self::spec_reset().well_formed(),
            Self::spec_reset().apply(v) == v.reset(),
    {
        whole_value(-2i64);
        whole_value(-1i64);
        whole_value(1);
    }

    /// Placing a start region is well formed and shows that region,
    /// whatever was shown; the pixel size stays.
    pub proof fn place_meaning(start: StartRegion, v: Viewport)
        ensures
            Self::spec_place(start).well_formed(),
            Self::spec_place(start).apply(v) == Viewport::initialize(start, v.width, v.height),
    {
        match start {
            StartRegion::FullView => {
                Self::reset_meaning(v);
            },
            StartRegion::DeepZoom => {
                assert(pow10(16) == 10000000000000000real) by {
                    reveal_with_fuel(pow10, 17);
                }
                assert(pow10(17) == 100000000000000000real) by {
                    reveal_with_fuel(pow10, 18);
                }
            },
        }
    }

    /// Scrolling by `dx` and `dy` whole steps is well formed and shifts the
    /// rectangle by that many tenths of its span.
    pub proof fn scroll_meaning(dx: i32, dy: i32, v: Viewport)
        ensures
            Self::spec_scroll(dx, dy).well_formed(),
            Self::spec_scroll(dx, dy).apply(v) == v.scroll(dx as real, dy as real),
    {
    }

    /// Panning by a pixel distance is well formed and scrolls by a hundredth
    /// of a step for each pixel.
    pub proof fn pan_meaning(dx: i64, dy: i64, v: Viewport)
        ensures
            Self::spec_pan(dx, dy).well_formed(),
            Self::spec_pan(dx, dy).apply(v) == v.pan(dx as int, dy as int),
            Self::spec_pan(dx, dy).apply(v) == v.scroll(dx as real / 100real, dy as real / 100real),
    {
    }

    /// Zooming in is well formed and moves every edge inwards by a tenth of
    /// the span.
    pub proof fn zoom_in_meaning(v: Viewport)
        ensures
            Self::spec_zoom_in().well_formed(),
            Self::spec_zoom_in().apply(v) == v.zoom_in(),
    {
        shifted_one_step(v.x_min, v.span_x());
        shifted_one_step(v.x_max, v.span_x());
        shifted_one_step(v.y_min, v.span_y());
        shifted_one_step(v.y_max, v.span_y());
    }

    /// Zooming out is well formed and moves every edge outwards by a tenth of
    /// the span.
    pub proof fn zoom_out_meaning(v: Viewport)
        ensures
            Self::spec_zoom_out().well_formed(),
            Self::spec_zoom_out().apply(v) == v.zoom_out(),
    {
        shifted_one_step(v.x_min, v.span_x());
        shifted_one_step(v.x_max, v.span_x());
        shifted_one_step(v.y_min, v.span_y());
        shifted_one_step(v.y_max, v.span_y());
    }

    /// Resizing is well formed and changes the pixel size only.
    pub proof fn resize_meaning(width: u32, height: u32, v: Viewport)
        ensures
            Self::spec_resize(width, height).well_formed(),
            Self::spec_resize(width, height).apply(v) == v.resize(width as int, height as int),
            Self::spec_resize(width, height).apply(v).same_bounds(v),
    {
    }

    /// The instruction that returns to the full view.
    #[verifier::when_used_as_spec(spec_reset)]
    pub fn reset() -> (m: Mutation)
        ensures
            m == Self::spec_reset(),
            m.well_formed(),
            forall|v: Viewport| #[trigger] m.apply(v) == v.reset(),
    {
        assert forall|v: Viewport| #[trigger] Self::spec_reset().apply(v) == v.reset() by {
            Self::reset_meaning(v);
        }
        Mutation::Place {
            x_min: Decimal::whole(-2),
            x_max: Decimal::whole(1),
            y_min: Decimal::whole(-1),
            y_max: Decimal::whole(1),
        }
    }

    /// The instruction that scrolls by whole steps: `dx` to the right, `dy`
    /// down.
    #[verifier::when_used_as_spec(spec_scroll)]
    pub fn scroll(dx: i32, dy: i32) -> (m: Mutation)
        ensures
            m == Self::spec_scroll(dx, dy),
            m.well_formed(),
            forall|v: Viewport| #[trigger] m.apply(v) == v.scroll(dx as real, dy as real),
    {
        let x: i64 = 100 * (dx as i64);
        let y: i64 = 100 * (dy as i64);
        Mutation::Shift { dx_min: x, dx_max: x, dy_min: y, dy_max: y }
    }

    /// The instruction that scrolls by a pixel distance: a hundred pixels
    /// are one step.
    #[verifier::when_used_as_spec(spec_pan)]
    pub fn pan(dx: i64, dy: i64) -> (m: Mutation)
        ensures
            m == Self::spec_pan(dx, dy),
            m.well_formed(),
            forall|v: Viewport| #[trigger] m.apply(v) == v.pan(dx as int, dy as int),
    {
        Mutation::Shift { dx_min: dx, dx_max: dx, dy_min: dy, dy_max: dy }
    }

    /// The instruction that zooms in by one notch.
    #[verifier::when_used_as_spec(spec_zoom_in)]
    pub fn zoom_in() -> (m: Mutation)
        ensures
            m == Self::spec_zoom_in(),
            m.well_formed(),
            forall|v: Viewport| #[trigger] m.apply(v) == v.zoom_in(),
    {
        let m = Mutation::Shift { dx_min: 100, dx_max: -100, dy_min: 100, dy_max: -100 };
        assert forall|v: Viewport| #[trigger] m.apply(v) == v.zoom_in() by {
            Self::zoom_in_meaning(v);
        }
        m
    }

    /// The instruction that zooms out by one notch.
    #[verifier::when_used_as_spec(spec_zoom_out)]
    pub fn zoom_out() -> (m: Mutation)
        ensures
            m == Self::spec_zoom_out(),
            m.well_formed(),
            forall|v: Viewport| #[trigger] m.apply(v) == v.zoom_out(),
    {
        let m = Mutation::Shift { dx_min: -100, dx_max: 100, dy_min: -100, dy_max: 100 };
        assert forall|v: Viewport| #[trigger] m.apply(v) == v.zoom_out() by {
            Self::zoom_out_meaning(v);
        }
        m
    }

    /// The instruction that takes over a new pixel size.
    #[verifier::when_used_as_spec(spec_resize)]
    pub fn resize(width: u32, height: u32) -> (m: Mutation)
        ensures
            m == Self::spec_resize(width, height),
            m.well_formed(),
            forall|v: Viewport| #[trigger] m.apply(v) == v.resize(width as int, height as int),
    {
        Mutation::Resize { width, height }
    }

    /// The instruction that places a start region.
    #[verifier::when_used_as_spec(spec_place)]
    pub fn place(start: StartRegion) -> (m: Mutation)
        ensures
            m == Self::spec_place(start),
            m.well_formed(),
            forall|v: Viewport| #[trigger]
                m.apply(v) == Viewport::initialize(start, v.width, v.height),
    {
        proof {
            let m = Self::spec_place(start);
            assert forall|v: Viewport| #[trigger]
                m.apply(v) == Viewport::initialize(start, v.width, v.height) by {
                Self::place_meaning(start, v);
            }
            Self::place_meaning(start, Viewport::initialize(start, 0, 0));
        }
        match start {
            StartRegion::FullView => Mutation::reset(),
            StartRegion::DeepZoom => Mutation::Place {
                x_min: Decimal { digits: -7832642347569785, scale: 16 },
                x_max: Decimal { digits: -7832642347569401, scale: 16 },
                y_min: Decimal { digits: -12973931718080114, scale: 17 },
                y_max: Decimal { digits: -12973931718077555, scale: 17 },
            },
        }
    }

    /// The two instructions that set a viewport up: the first places the
    /// start region, the second takes over the pixel size of the surface.
    /// Carried out in this order on any viewport, they give the initial one.
    pub fn initialize(start: StartRegion, width: u32, height: u32) -> (setup: (Mutation, Mutation))
        ensures
            setup.0 == Self::spec_place(start),
            setup.1 == Self::spec_resize(width, height),
            setup.0.well_formed(),
            setup.1.well_formed(),
            forall|v: Viewport| #[trigger]
                setup.1.apply(setup.0.apply(v)) == Viewport::initialize(
                    start,
                    width as int,
                    height as int,
                ),
    {
        (Mutation::place(start), Mutation::resize(width, height))
    }
}

} // verus!
