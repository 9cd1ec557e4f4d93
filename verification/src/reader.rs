//! What a reading task does with the outcome of one blocking read.

use crate::line::{trim_end, trim_line};
use vstd::prelude::*;

verus! {

/// What a reading task does after one read of its stream.
#[derive(Clone, Debug, PartialEq, Eq)]
pub enum ReadStep {
    /// The stream is over: the task stops and releases its end of the queue.
    Finish,
    /// The task hands this text, already trimmed, to the queue.
    Forward(String),
}

impl View for ReadStep {
    type V = Option<Seq<char>>;

    /// The text that the step forwards, if it forwards one.
    open spec fn view(&self) -> Option<Seq<char>> {
        match self {
            ReadStep::Finish => None,
            ReadStep::Forward(text) => Some(text@),
        }
    }
}

/// A read ends the stream when it failed or when it brought nothing at all.
/// A blank line still brings its newline, so it does not end the stream.
pub open spec fn ends_stream(failed: bool, raw: Seq<char>) -> bool {
    failed || raw.len() == 0
}

/// What follows a read: nothing more when it ends the stream, and otherwise
/// the line without its trailing whitespace.
pub open spec fn step_after(failed: bool, raw: Seq<char>) -> Option<Seq<char>> {
    if ends_stream(failed, raw) {
        None
    } else {
        Some(trim_end(raw))
    }
}

/// Decides what follows one read. `failed` says whether the read reported an
/// error and `raw` is what it put into the buffer, line ending included.
///
/// A failed read is treated as the end of the stream, whatever the buffer
/// holds; so is a read that brought nothing. Every other read is forwarded
/// without its trailing whitespace.
pub fn read_step(failed: bool, raw: &str) -> (step: ReadStep)
    ensures
        step@ == step_after(failed, raw@),
{
    if failed || raw.is_empty() {
        ReadStep::Finish
    } else {
        ReadStep::Forward(trim_line(raw))
    }
}

} // verus!
