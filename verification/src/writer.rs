//! One log call as a sequence of decisions.
//!
//! A call looks whether the log file is there, opens it, and writes one
//! entry. The file operations are the caller's: the call says what to do
//! next, the caller does it and reports what happened.

use vstd::prelude::*;
use vstd::string::StringExecFns;
use crate::clock::{read_local_clock, TimeOfDay};
use crate::entry::{entry_line, format_entry};

verus! {

/// What a failed creation of the log file is announced with.
pub const CREATE_FAILURE: &'static str = "Encountered an issue when creating the log file.";

/// What a failed write is announced with; the cause follows it.
pub const WRITE_FAILURE: &'static str = "Couldn't write to file: ";

/// How the log file is opened.
#[derive(Clone, Copy, Debug, PartialEq, Eq, Structural)]
pub enum OpenMode {
    /// Make a new, empty file.
    Create,
    /// Open the file that is there, so that writes go to its end.
    Append,
}

/// How far a call has come.
#[derive(Clone, Copy, Debug, PartialEq, Eq, Structural)]
pub enum Phase {
    /// Waiting to hear whether the file exists.
    Probing,
    /// Waiting for the file to be opened in the given mode.
    Opening(OpenMode),
    /// Waiting for the entry to be written.
    Writing,
    /// Over: nothing more is awaited.
    Closed,
}

/// What the caller reports back.
#[derive(Debug)]
pub enum Event {
    /// The file exists, or does not.
    Probed(bool),
    /// The file is open.
    Opened,
    /// The file could not be opened; the text says why.
    OpenFailed(String),
    /// The entry is in the file.
    Written,
    /// The entry could not be written; the text says why.
    WriteFailed(String),
}

/// What the caller is to do next.
#[derive(Debug, PartialEq, Eq)]
pub enum Action {
    /// Look whether the file exists.
    Probe,
    /// Open the file in the given mode.
    Open(OpenMode),
    /// Write the text to the open file.
    Write(String),
    /// Put the text on the standard error stream, and end the call as if
    /// nothing had happened.
    Report(String),
    /// Give the call up loudly, with the text.
    Abort(String),
    /// End the call.
    Return,
}

/// An event that the call was not waiting for.
#[derive(Clone, Copy, Debug, PartialEq, Eq, Structural)]
pub struct OutOfTurn;

/// An `Event`, with its text as a sequence of characters.
pub enum EventView {
    Probed(bool),
    Opened,
    OpenFailed(Seq<char>),
    Written,
    WriteFailed(Seq<char>),
}

/// An `Action`, with its text as a sequence of characters.
pub enum ActionView {
    Probe,
    Open(OpenMode),
    Write(Seq<char>),
    Report(Seq<char>),
    Abort(Seq<char>),
    Return,
}

impl View for Event {
    type V = EventView;

    open spec fn view(&self) -> EventView {
        match self {
            Event::Probed(exists) => EventView::Probed(*exists),
            Event::Opened => EventView::Opened,
            Event::OpenFailed(cause) => EventView::OpenFailed(cause@),
            Event::Written => EventView::Written,
            Event::WriteFailed(cause) => EventView::WriteFailed(cause@),
        }
    }
}

impl View for Action {
    type V = ActionView;

    open spec fn view(&self) -> ActionView {
        match self {
            Action::Probe => ActionView::Probe,
            Action::Open(mode) => ActionView::Open(*mode),
            Action::Write(text) => ActionView::Write(text@),
            Action::Report(text) => ActionView::Report(text@),
            Action::Abort(text) => ActionView::Abort(text@),
            Action::Return => ActionView::Return,
        }
    }
}

/// One call: the message, its severity code, and how far the call has come.
#[derive(Debug)]
pub struct LogCall {
    message: String,
    level: u8,
    phase: Phase,
}

/// A `LogCall` as a plain value.
pub struct LogCallView {
    pub message: Seq<char>,
    pub level: u8,
    pub phase: Phase,
}

impl View for LogCall {
    type V = LogCallView;

    closed spec fn view(&self) -> LogCallView {
        LogCallView { message: self.message@, level: self.level, phase: self.phase }
    }
}

/// The mode for a file that exists or does not: a file that is there is
/// appended to and never made anew.
pub open spec fn mode_for(exists: bool) -> OpenMode {
    if exists {
        OpenMode::Append
    } else {
        OpenMode::Create
    }
}

/// What a failed creation is given up with: the announcement, a colon and
/// the cause.
pub open spec fn create_failure_text(cause: Seq<char>) -> Seq<char> {
    CREATE_FAILURE@ + ": "@ + cause
}

/// What is reported when the file cannot be written to: the announcement
/// and the cause.
pub open spec fn write_failure_text(cause: Seq<char>) -> Seq<char> {
    WRITE_FAILURE@ + cause
}

/// What follows when the file cannot be opened. Only a failed creation ends
/// the call loudly; a file that is there and cannot be opened is reported
/// like a failed write.
pub open spec fn after_open_failure(mode: OpenMode, cause: Seq<char>) -> ActionView {
    match mode {
        OpenMode::Create => ActionView::Abort(create_failure_text(cause)),
        OpenMode::Append => ActionView::Report(write_failure_text(cause)),
    }
}

/// The call after an event, and what the caller is to do then; `None` where
/// the call was not waiting for the event. `time` is the time at which the
/// file came open: the entry is stamped with it.
pub open spec fn step_of(call: LogCallView, event: EventView, time: TimeOfDay) -> Option<
    (LogCallView, ActionView),
> {
    match (call.phase, event) {
        (Phase::Probing, EventView::Probed(exists)) => Some(
            (
                LogCallView { phase: Phase::Opening(mode_for(exists)), ..call },
                ActionView::Open(mode_for(exists)),
            ),
        ),
        (Phase::Opening(_), EventView::Opened) => Some(
            (
                LogCallView { phase: Phase::Writing, ..call },
                ActionView::Write(entry_line(call.message, call.level, time)),
            ),
        ),
        (Phase::Opening(mode), EventView::OpenFailed(cause)) => Some(
            (LogCallView { phase: Phase::Closed, ..call }, after_open_failure(mode, cause)),
        ),
        (Phase::Writing, EventView::Written) => Some(
            (LogCallView { phase: Phase::Closed, ..call }, ActionView::Return),
        ),
        (Phase::Writing, EventView::WriteFailed(cause)) => Some(
            (
                LogCallView { phase: Phase::Closed, ..call },
                ActionView::Report(write_failure_text(cause)),
            ),
        ),
        _ => None,
    }
}

/// Whether `after` and `result` are what `step_of` gives for `before`,
/// `event` and `time`; out of turn, the call stays as it was.
pub open spec fn follows(
    before: LogCallView,
    event: EventView,
    time: TimeOfDay,
    after: LogCallView,
    result: Result<Action, OutOfTurn>,
) -> bool {
    match step_of(before, event, time) {
        Some((next, action)) => result is Ok && result->Ok_0@ == action && after == next,
        None => result is Err && after == before,
    }
}

/// Chooses how to open the log file.
pub fn open_mode(exists: bool) -> (mode: OpenMode)
    ensures
        mode == mode_for(exists),
{
    if exists {
        OpenMode::Append
    } else {
        OpenMode::Create
    }
}

/// The text for the standard error stream when the file cannot be written
/// to.
pub fn write_failure_note(cause: &str) -> (note: String)
    ensures
        note@ == write_failure_text(cause@),
{
    let mut note = String::from_str(WRITE_FAILURE);
    note.append(cause);
    note
}

/// Decides what follows a failure to open the file.
pub fn open_failure(mode: OpenMode, cause: &str) -> (action: Action)
    ensures
        action@ == after_open_failure(mode, cause@),
{
    match mode {
        OpenMode::Create => {
            let mut text = String::from_str(CREATE_FAILURE);
            text.append(": ");
            text.append(cause);
            Action::Abort(text)
        },
        OpenMode::Append => Action::Report(write_failure_note(cause)),
    }
}

impl LogCall {
    /// A call that has not begun.
    pub open spec fn fresh(message: Seq<char>, level: u8) -> LogCallView {
        LogCallView { message, level, phase: Phase::Probing }
    }

    /// Begins a call. The first thing to do is always to look for the file.
    pub fn begin(message: String, level: u8) -> (start: (LogCall, Action))
        ensures
            start.0@ == LogCall::fresh(message@, level),
            start.1@ == ActionView::Probe,
    {
        (LogCall { message, level, phase: Phase::Probing }, Action::Probe)
    }

    /// How far the call has come.
    pub fn phase(&self) -> (phase: Phase)
        ensures
            phase == self@.phase,
    {
        self.phase
    }

    /// Takes the call one step on, with the time given by the caller.
    pub fn step_at(&mut self, event: Event, time: TimeOfDay) -> (result: Result<Action, OutOfTurn>)
        ensures
            follows(old(self)@, event@, time, final(self)@, result),
    {
        match self.phase {
            Phase::Probing => match event {
                Event::Probed(exists) => {
                    let mode = open_mode(exists);
                    self.phase = Phase::Opening(mode);
                    Ok(Action::Open(mode))
                },
                _ => Err(OutOfTurn),
            },
            Phase::Opening(mode) => match event {
                Event::Opened => {
                    let line = format_entry(self.message.as_str(), self.level, time);
                    self.phase = Phase::Writing;
                    Ok(Action::Write(line))
                },
                Event::OpenFailed(cause) => {
                    self.phase = Phase::Closed;
                    Ok(open_failure(mode, cause.as_str()))
                },
                _ => Err(OutOfTurn),
            },
            Phase::Writing => match event {
                Event::Written => {
                    self.phase = Phase::Closed;
                    Ok(Action::Return)
                },
                Event::WriteFailed(cause) => {
                    self.phase = Phase::Closed;
                    Ok(Action::Report(write_failure_note(cause.as_str())))
                },
                _ => Err(OutOfTurn),
            },
            Phase::Closed => Err(OutOfTurn),
        }
    }

    /// Takes the call one step on. When the file has come open, the entry is
    /// stamped with the host's local time at that moment.
    pub fn step(&mut self, event: Event) -> (result: Result<Action, OutOfTurn>)
        ensures
            exists|time: TimeOfDay|
                time.on_the_dial() && follows(old(self)@, event@, time, final(self)@, result),
    {
        let time = match (self.phase, &event) {
            (Phase::Opening(_), Event::Opened) => read_local_clock(),
            _ => TimeOfDay { hour: 0, minute: 0, second: 0 },
        };
        let ghost reported = event@;
        let result = self.step_at(event, time);
        assert(time.on_the_dial() && follows(old(self)@, reported, time, self@, result));
        result
    }
}

} // verus!
