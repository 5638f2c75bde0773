//! The parameter model for tuning a pointer-acceleration curve: fixed-point
//! values and their text, the registry of parameters and their rules, the
//! context that holds the live values, and the state machines of editing a
//! value and of moving between the screens of the curve modes.

pub mod accel_args;
pub mod context;
pub mod event;
pub mod fixedpt;
pub mod fixedpt_laws;
pub mod param_input;
pub mod params;
pub mod screen;
pub mod session;
pub mod store;
