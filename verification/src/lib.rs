//! Merging the two output streams of a child process into one ordered
//! sequence of tagged lines, and the command lines of the tools whose output
//! is merged.
//!
//! The crate holds the sequential core of the multiplexer: how a raw line
//! becomes a tagged line, when a reading task stops, and the queue through
//! which both reading tasks reach the single consumer. Spawning, blocking
//! reads, threads and the console stay with the caller.

pub mod channel;
pub mod command;
pub mod drain;
pub mod line;
pub mod reader;
pub mod setup;
