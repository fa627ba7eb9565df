//! Session control for an external dictation engine: model and
//! configuration paths, engine and injector argument lists, the
//! single-session state machine, transcript recovery and the
//! dependency probe.

pub mod controller;
pub mod error;
pub mod invocation;
pub mod session;
pub mod transcript;
pub mod paths;
pub mod probe;
