//! What a run is made of from the outside: where its frames come from and
//! how its ending is reported to the caller of the program.

use crate::hexcode::DecodeError;
use vstd::prelude::*;

verus! {

/// How many frames may wait between the reader of the source and the
/// sender. A reader that finds the queue full waits; no frame is dropped.
pub const QUEUE_CAPACITY: usize = 256;

/// How long one poll of the link waits for a frame, in milliseconds. A poll
/// that runs out is no error: the bounds are checked and the link is polled
/// again.
pub const POLL_TIMEOUT_MILLIS: u64 = 10;

/// Where the frames to transmit come from.
#[derive(Debug, Clone, Copy, PartialEq, Eq, Structural)]
pub enum SourceKind {
    /// One frame, given as hex text on the command line.
    Literal,
    /// One frame per line of a file.
    File,
    /// One frame per line of standard input.
    Stdin,
    /// Nothing is transmitted: the run only receives.
    Silent,
}

/// The source of a run. The sources exclude each other; where more than one
/// is asked for, the literal goes before the file and the file before
/// standard input.
pub open spec fn source_of(has_literal: bool, has_file: bool, wants_stdin: bool) -> SourceKind {
    if has_literal {
        SourceKind::Literal
    } else if has_file {
        SourceKind::File
    } else if wants_stdin {
        SourceKind::Stdin
    } else {
        SourceKind::Silent
    }
}

/// Picks the source of a run from what the command line asked for.
pub fn select_source(has_literal: bool, has_file: bool, wants_stdin: bool) -> (kind: SourceKind)
    ensures
        kind == source_of(has_literal, has_file, wants_stdin),
{
    if has_literal {
        SourceKind::Literal
    } else if has_file {
        SourceKind::File
    } else if wants_stdin {
        SourceKind::Stdin
    } else {
        SourceKind::Silent
    }
}

/// How a run ended.
#[derive(Debug, Clone, Copy, PartialEq, Eq)]
pub enum Ending {
    /// Every worker finished its work.
    Completed,
    /// The receive time limit passed.
    TimedOut,
    /// No interface was named, and the available ones were listed.
    Listed,
    /// A unit of input was no hex text.
    MalformedInput(DecodeError),
    /// A filter pattern did not compile.
    InvalidFilter,
    /// The link could not be read or written.
    LinkFailure,
    /// The named interface does not exist.
    UnknownInterface,
}

/// The exit code for an ending: zero where the run did what was asked of
/// it, one for every failure.
pub open spec fn exit_code_of(ending: Ending) -> i32 {
    match ending {
        Ending::Completed | Ending::TimedOut | Ending::Listed => 0,
        Ending::MalformedInput(_) | Ending::InvalidFilter | Ending::LinkFailure
        | Ending::UnknownInterface => 1,
    }
}

/// The exit code of the process for an ending.
pub fn exit_code(ending: &Ending) -> (code: i32)
    ensures
        code == exit_code_of(*ending),
{
    match ending {
        Ending::Completed => 0,
        Ending::TimedOut => 0,
        Ending::Listed => 0,
        Ending::MalformedInput(_) => 1,
        Ending::InvalidFilter => 1,
        Ending::LinkFailure => 1,
        Ending::UnknownInterface => 1,
    }
}

} // verus!
