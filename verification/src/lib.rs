//! Commands for a task display that hangs on a serial line.
//!
//! The display understands a handful of short ASCII commands and answers each
//! with a single byte. This crate holds everything about that conversation
//! that can be decided without touching the line itself: how a command is
//! written on the wire, how a color is spelled, in which order a command is
//! sent and its answer awaited, and when a failed command is tried again.
//! The program around it owns the serial port: it performs the writes and
//! reads that a [`session::Session`] asks for and reports how they went.

pub mod color;
pub mod command;
pub mod selection;
pub mod session;
