//! A fixed-timestep scheduler for interactive simulations.
//!
//! The library decouples the rate at which a simulation advances from the
//! rate at which frames are rendered.  A `Timer` measures wall time, the
//! scheduler in `engine::step` folds that time into a bounded number of
//! fixed-size simulation steps, and an interpolation fraction describes how
//! far the current frame falls into the step that has not been applied yet.

pub mod animation;
pub mod duration;
pub mod engine;
pub mod font;
pub mod geom;
pub mod input;
pub mod renderer;
pub mod state;
pub mod texture;
pub mod timer;

pub use crate::state::{Never, State};

use vstd::prelude::*;

verus! {

/// A run-or-quit signal whose quit payload cannot be produced.
pub type RunState<S> = State<S, Never>;

/// The error channel of the library: an exceptional condition (a failed
/// draw conversion, a backend failure) that aborts the current frame and
/// propagates out of the run loop.  Quitting is not an error; it travels
/// through `state::State` instead.
#[derive(Debug)]
pub struct Error {
    pub message: String,
}

impl Error {
    pub fn new(message: String) -> (r: Error)
        ensures
            r.message == message,
    {
        Error { message }
    }
}

} // verus!
