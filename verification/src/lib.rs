//! The interaction core of a terminal front-end for a music-playback
//! controller.
//!
//! The controller is a command-line program that answers in JSON. The
//! front-end shows what the zones play, steers playback and volume, and walks
//! and searches the library. This crate holds everything that the front-end
//! decides, and nothing that it does to the world:
//!
//! - [`roon`] builds the arguments of each command and reads the outcome of
//!   an invocation; [`roon::models`] is the data that the controller reports.
//! - [`app`] is the state of the interface, with a mathematical model of it.
//! - [`input`] turns a key into an action.
//! - [`actions`] applies an action to the state and says what to ask of the
//!   controller, and takes the controller's answers.
//! - [`event_loop`] holds the decisions of the event loop.
//! - [`ui`] says what each part of the screen shows.
//! - [`laws`] states what holds of the state whatever happens to it.
//! - [`text`] has the text helpers that the others share.
//!
//! Time is a count of milliseconds that the caller reads from a clock that
//! never goes back.

pub mod actions;
pub mod app;
pub mod event_loop;
pub mod input;
pub mod laws;
pub mod roon;
pub mod text;
pub mod ui;
