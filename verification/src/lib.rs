//! Decision logic of a desktop front-end for the `cppcheck` static analyser.
//!
//! The front-end lets a user pick a project directory, run the analyser on it,
//! render the findings as an HTML report and export that report as a PDF.
//! Everything that touches the outside world (widgets, subprocesses, files)
//! is left to the program around this library. The library holds what that
//! program has to decide: which command lines to run, which artifacts to
//! write, what to append to the log, and how the interface state changes.

pub mod text;
pub mod severity;
pub mod tools;
pub mod artifacts;
pub mod invocation;
pub mod process;
pub mod messages;
pub mod event;
pub mod effect;
pub mod model;
pub mod guarantees;
pub mod controller;
