//! The interactive core of a Mandelbrot-set viewer.
//!
//! A viewer shows a rectangle of the complex plane on a pixel surface and lets
//! the user move and scale that rectangle with the keyboard and the mouse.
//! This crate holds the part of such a viewer that decides: which input event
//! changes the viewport, and how.
//!
//! * [`viewport`] is the mathematical model: a rectangle with exact (real)
//!   bounds, a pixel size, and the operations on them.
//! * [`decimal`] holds exact decimal constants, used for the bounds of the
//!   regions a viewer can start from or return to.
//! * [`mutation`] is the executable form of a viewport change: a small
//!   instruction with integer operands, whose meaning on the model is fixed
//!   here and which a renderer evaluates in its own number format.
//! * [`event`] names the input events a windowing backend delivers.
//! * [`dispatcher`] turns each event into at most one mutation or into a
//!   control action, and keeps the drag state of the mouse.
//! * [`laws`] states what holds of these together.

pub mod decimal;
pub mod viewport;
pub mod mutation;
pub mod event;
pub mod dispatcher;
pub mod laws;
