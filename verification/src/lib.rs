//! The verified core of an interactive Mandelbrot-set viewer.
//!
//! Everything here works on integers: the viewport is kept in fixed point, the
//! frame is a vector of plot commands, the palette is assembled from wave
//! samples, and the escape-time loop is reduced to the counter that decides
//! when it stops. The floating-point orbit and sine wave, the worker threads
//! and the window live with the caller.

pub mod color;
pub mod palette;
pub mod viewport;
pub mod render;
pub mod command;
pub mod escape;
