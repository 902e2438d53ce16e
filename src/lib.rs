//! The decisions of an event-loop bridge between an async host and an
//! embedded, single-threaded script interpreter: how a guest value is logged,
//! how a delayed callback's task proceeds, how a synchronous wait on a promise
//! drains the interpreter's job queue, and how a top-level run ends only
//! after every host task has completed.
pub mod drain;
pub mod driver;
pub mod log;
pub mod timer;
