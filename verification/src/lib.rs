//! An arithmetic drill trainer for the console.
//!
//! The user picks one of nine kinds of drill from a menu, answers a batch
//! of randomly drawn problems, and sees a running score for every kind.
//!
//! - [`text`] writes integers out in decimal.
//! - [`input`] strips white space from a line and reads integers.
//! - [`score`] keeps the tallies of correct and incorrect answers.
//! - [`problem`] holds the kinds of drill and draws their problems.
//! - [`runner`] runs one batch of problems.
//! - [`menu`] runs the session around the batches.
//!
//! The library never reads or prints. A session is a state machine: the
//! program around it shows the prompt of the current state, reads a line,
//! hands it over and prints the reply.

pub mod input;
pub mod menu;
pub mod problem;
pub mod runner;
pub mod score;
pub mod text;
