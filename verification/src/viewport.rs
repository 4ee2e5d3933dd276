use vstd::prelude::*;

verus! {

/// The regions a viewer can start from.
#[derive(Clone, Copy, Debug, PartialEq, Eq, Structural)]
pub enum StartRegion {
    /// The whole set: x from -2 to 1, y from -1 to 1.
    FullView,
    /// A small window deep inside the set, near -0.78326 - 0.12974i.
    DeepZoom,
}

/// The viewport in exact arithmetic: the visible rectangle of the plane and
/// the pixel size of the surface it is drawn on.
///
/// This is the model that the contracts of this crate speak of. A renderer
/// keeps the same six numbers in floating point.
pub struct Viewport {
    pub x_min: real,
    pub x_max: real,
    pub y_min: real,
    pub y_max: real,
    pub width: int,
    pub height: int,
}

impl Viewport {
    /// The rectangle is neither collapsed nor inverted.
    pub open spec fn valid(self) -> bool {
        self.x_min < self.x_max && self.y_min < self.y_max
    }

    /// Width of the visible rectangle.
    pub open spec fn span_x(self) -> real {
        self.x_max - self.x_min
    }

    /// Height of the visible rectangle.
    pub open spec fn span_y(self) -> real {
        self.y_max - self.y_min
    }

    /// Same rectangle as `other`, whatever the pixel sizes.
    pub open spec fn same_bounds(self, other: Viewport) -> bool {
        &&& self.x_min == other.x_min
        &&& self.x_max == other.x_max
        &&& self.y_min == other.y_min
        &&& self.y_max == other.y_max
    }

    /// The viewport a viewer starts with: the chosen region on a surface of
    /// the given pixel size.
    pub open spec fn initialize(start: StartRegion, width: int, height: int) -> Viewport {
        match start {
            StartRegion::FullView => Viewport {
                x_min: -2real,
                x_max: 1real,
                y_min: -1real,
                y_max: 1real,
                width,
                height,
            },
            StartRegion::DeepZoom => Viewport {
                x_min: -7832642347569785real / 10000000000000000real,
                x_max: -7832642347569401real / 10000000000000000real,
                y_min: -12973931718080114real / 100000000000000000real,
                y_max: -12973931718077555real / 100000000000000000real,
                width,
                height,
            },
        }
    }

    /// The full view of the set: x from -2 to 1, y from -1 to 1.
    pub open spec fn reset(self) -> Viewport {
        Viewport { x_min: -2real, x_max: 1real, y_min: -1real, y_max: 1real, ..self }
    }

    /// Shifts the rectangle by `dx` steps to the right and `dy` steps down,
    /// a step being a tenth of the span on that axis.
    pub open spec fn scroll(self, dx: real, dy: real) -> Viewport {
        let s_x = self.span_x() / 10real;
        let s_y = self.span_y() / 10real;
        Viewport {
            x_min: self.x_min + dx * s_x,
            x_max: self.x_max + dx * s_x,
            y_min: self.y_min + dy * s_y,
            y_max: self.y_max + dy * s_y,
            ..self
        }
    }

    /// Shifts the rectangle by a pixel distance: a hundred pixels are one step.
    pub open spec fn pan(self, dx: int, dy: int) -> Viewport {
        self.scroll(dx as real / 100real, dy as real / 100real)
    }

    /// Moves every edge inwards by a tenth of the span on its axis.
    pub open spec fn zoom_in(self) -> Viewport {
        let s_x = self.span_x() / 10real;
        let s_y = self.span_y() / 10real;
        Viewport {
            x_min: self.x_min + s_x,
            x_max: self.x_max - s_x,
            y_min: self.y_min + s_y,
            y_max: self.y_max - s_y,
            ..self
        }
    }

    /// Moves every edge outwards by a tenth of the span on its axis.
    pub open spec fn zoom_out(self) -> Viewport {
        let s_x = self.span_x() / 10real;
        let s_y = self.span_y() / 10real;
        Viewport {
            x_min: self.x_min - s_x,
            x_max: self.x_max + s_x,
            y_min: self.y_min - s_y,
            y_max: self.y_max + s_y,
            ..self
        }
    }

    /// Takes over a new pixel size and leaves the rectangle alone.
    pub open spec fn resize(self, width: int, height: int) -> Viewport {
        Viewport { width, height, ..self }
    }
}

} // verus!
