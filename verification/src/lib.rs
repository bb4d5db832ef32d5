//! The embedding layer of a browser engine.
//!
//! The crate turns the input of a host window into the events that the
//! engine understands, answers the engine's notifications with window
//! actions and policy decisions, and drives the exchange between the two.
//! It performs no input or output of its own: whatever touches the window
//! system, the engine or a channel is returned to the host as a value that
//! says what to do.
//!
//! - [`window`] translates platform events, as [`platform`] describes
//!   them, into the engine's events of [`events`].
//! - [`browser`] coordinates the browsers and answers the notifications of
//!   [`embedder`].
//! - [`run_loop`] schedules the exchange between the two and the engine.
//! - [`fetch`] guards a fetch in flight, [`compositing`] describes the
//!   pipelines of a frame, and [`canvas`] and [`navigator`] hold what the
//!   page sees of a canvas and of the browser.
//! - [`geometry`] and [`keys`] hold the values that all of them share.

pub mod geometry;
pub mod keys;
pub mod events;
pub mod platform;
pub mod embedder;
pub mod window;
pub mod browser;
pub mod run_loop;
pub mod fetch;
pub mod compositing;
pub mod canvas;
pub mod navigator;
