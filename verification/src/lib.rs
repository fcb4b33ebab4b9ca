//! Supervision of one long-running command-line process.
//!
//! The crate holds the decisions of a process supervisor as plain values:
//! which arguments the tool is launched with, how the bytes of its output
//! pipes become lines, how each line becomes an event, in which order the
//! events of a session may leave, and what a cancellation request does to the
//! single tracked process identifier. Launching, reading pipes, signalling
//! and delivering events are left to the caller, which feeds what happened
//! back into the types defined here.
//!
//! - [`supervisor`] takes what came of a launch and answers cancellations,
//!   on the [`registry`] that the caller hands in.
//! - [`session`] is the state machine of one run; [`trace`] states what holds
//!   of every sequence of events it can emit.
//! - [`lines`] cuts bytes into lines of text, [`classify`] makes a payload of
//!   a line, and [`stream`] drains a pipe into a session with both.
//! - [`event`] and [`wire`] define the events and how they and the answers
//!   of the commands are laid out as named fields.
//! - [`probe`] answers whether the tool is installed, [`secrets`] names the
//!   keys of providers, [`error`] holds the failures, [`text`] the helpers.

pub mod classify;
pub mod error;
pub mod event;
pub mod lines;
pub mod probe;
pub mod registry;
pub mod secrets;
pub mod session;
pub mod stream;
pub mod supervisor;
pub mod text;
pub mod trace;
pub mod wire;
