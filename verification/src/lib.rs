//! Normalisation of game-controller input.
//!
//! Raw hardware events (buttons, analog axes, connection changes) go in;
//! records in a stable, backend-agnostic vocabulary come out, ready to be
//! handed to a presentation layer.
//!
//! - [`backend`]: what is taken from a controller backend, in the library's
//!   own terms.
//! - [`symbol`]: the fixed text symbols of buttons, axes and phases.
//! - [`reading`]: analog numbers, carried by their binary32 bit pattern, so
//!   that every rule of the library is a statement about integers.
//! - [`dpad`]: the directional pad, read from two analog axes.
//! - [`event`]: the records, and the snapshot of a controller that each of
//!   them carries.
//! - [`normalize`]: from raw events to records, with the pad state of every
//!   controller.
//! - [`schedule`]: the polling loop as a machine that says what to do next.
//!
//! The library does no input or output. Its caller polls the backend,
//! hands over what it got, and delivers what the library queued.

pub mod backend;
pub mod dpad;
pub mod event;
pub mod normalize;
pub mod reading;
pub mod schedule;
pub mod symbol;
