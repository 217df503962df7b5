//! The channel to the editor: where it is, how lines are read from it and how they are written.
//! Reading and writing are state machines; whoever drives one performs the step that it asks
//! for, and tells it what came of it.
use std::collections::VecDeque;

use vstd::prelude::*;
use vstd::string::*;

use crate::app_event::{AppEvent, AppEventView};
use crate::json::{json_model, parse_json, parsed_json, text_under};
use crate::selection::{dispatch_selection_from_str, selection_update};
use crate::text::{line_end, trim_line_end, trimmed_end};

verus! {

// ---------------------------------------------------------------------------
// The marker file
// ---------------------------------------------------------------------------

/// The address that a marker file advertises: its text under `ipc_path`.
pub open spec fn advertised_path(marker: Seq<char>) -> Option<Seq<char>> {
    match parsed_json(marker) {
        Some(v) => v.text_member("ipc_path"@),
        None => None,
    }
}

/// The address in the parsed contents of a marker file.
pub fn ipc_path_from_json(v: &serde_json::Value) -> (r: Option<String>)
    ensures
        r.deep_view() == json_model(*v).text_member("ipc_path"@),
{
    text_under(v, "ipc_path")
}

/// The address in the contents of a marker file; none if the contents are no JSON document, or
/// hold no such text.
pub fn ipc_path_from_marker(marker: &str) -> (r: Option<String>)
    ensures
        r.deep_view() == advertised_path(marker@),
{
    match parse_json(marker) {
        Some(v) => ipc_path_from_json(&v),
        None => None,
    }
}

// ---------------------------------------------------------------------------
// Reading
// ---------------------------------------------------------------------------

/// What the reader wants done next.
#[derive(Clone, Copy, Debug, PartialEq, Eq, Structural)]
pub enum ReaderStep {
    Connect,
    ReadLine,
}

/// What came of a step.
#[derive(Debug, PartialEq, Eq)]
pub enum ReaderInput {
    Connected,
    ConnectFailed,
    /// A line, with its line ending.
    Line(String),
    /// The stream has ended, or reading failed.
    EndOfStream,
}

/// An input of the reader, its text as a sequence of characters.
pub enum ReaderInputView {
    Connected,
    ConnectFailed,
    Line(Seq<char>),
    EndOfStream,
}

impl DeepView for ReaderInput {
    type V = ReaderInputView;

    open spec fn deep_view(&self) -> ReaderInputView {
        match self {
            ReaderInput::Connected => ReaderInputView::Connected,
            ReaderInput::ConnectFailed => ReaderInputView::ConnectFailed,
            ReaderInput::Line(line) => ReaderInputView::Line(line@),
            ReaderInput::EndOfStream => ReaderInputView::EndOfStream,
        }
    }
}

/// What the reader answers: an event to send, and then a pause in milliseconds.
#[derive(Debug, PartialEq, Eq)]
pub struct ReaderOutput {
    pub event: Option<AppEvent>,
    pub pause: u64,
}

/// An output of the reader, its event by its view.
pub struct ReaderOutputView {
    pub event: Option<AppEventView>,
    pub pause: u64,
}

impl DeepView for ReaderOutput {
    type V = ReaderOutputView;

    open spec fn deep_view(&self) -> ReaderOutputView {
        ReaderOutputView { event: self.event.deep_view(), pause: self.pause }
    }
}

/// The log line that tells the application that the editor is connected.
pub open spec fn connected_notice() -> AppEventView {
    AppEventView::LatestLog("__SET_IDE_CONNECTED__"@)
}

/// Whether the reader is connected after an input.
pub open spec fn reader_connected(input: ReaderInputView) -> bool {
    input is Connected || input is Line
}

/// What the reader answers to an input. A line is an update of the selection unless nothing is
/// left of it without its line ending. A lost connection is tried again after 200 milliseconds,
/// one that could not be made after 500.
pub open spec fn reader_output(input: ReaderInputView) -> ReaderOutputView {
    match input {
        ReaderInputView::Connected => ReaderOutputView {
            event: Some(connected_notice()),
            pause: 0,
        },
        ReaderInputView::ConnectFailed => ReaderOutputView { event: None, pause: 500 },
        ReaderInputView::Line(line) => {
            let content = trimmed_end(line, |c: char| line_end(c));
            ReaderOutputView {
                event: if content.len() == 0 {
                    None
                } else {
                    Some(selection_update(content))
                },
                pause: 0,
            }
        },
        ReaderInputView::EndOfStream => ReaderOutputView { event: None, pause: 200 },
    }
}

/// Reads selection updates from the editor, and connects again whenever the connection is lost.
#[derive(Debug, PartialEq, Eq)]
pub struct IpcReader {
    connected: bool,
}

impl IpcReader {
    /// Whether the reader is connected.
    pub closed spec fn is_connected(self) -> bool {
        self.connected
    }

    /// A reader that has yet to connect.
    pub fn new() -> (r: IpcReader)
        ensures
            !r.is_connected(),
    {
        IpcReader { connected: false }
    }

    /// The step to perform next.
    pub fn step(&self) -> (r: ReaderStep)
        ensures
            r == (if self.is_connected() {
                ReaderStep::ReadLine
            } else {
                ReaderStep::Connect
            }),
    {
        if self.connected {
            ReaderStep::ReadLine
        } else {
            ReaderStep::Connect
        }
    }

    /// Takes what came of a step.
    pub fn handle(&mut self, input: ReaderInput) -> (r: ReaderOutput)
        ensures
            final(self).is_connected() == reader_connected(input.deep_view()),
            r.deep_view() == reader_output(input.deep_view()),
    {
        match input {
            ReaderInput::Connected => {
                self.connected = true;
                ReaderOutput {
                    event: Some(AppEvent::LatestLog("__SET_IDE_CONNECTED__".to_string())),
                    pause: 0,
                }
            },
            ReaderInput::ConnectFailed => {
                self.connected = false;
                ReaderOutput { event: None, pause: 500 }
            },
            ReaderInput::Line(line) => {
                self.connected = true;
                let content = trim_line_end(line.as_str());
                let event = if content.as_str().is_empty() {
                    None
                } else {
                    Some(dispatch_selection_from_str(content.as_str()))
                };
                ReaderOutput { event, pause: 0 }
            },
            ReaderInput::EndOfStream => {
                self.connected = false;
                ReaderOutput { event: None, pause: 200 }
            },
        }
    }
}

// ---------------------------------------------------------------------------
// Writing
// ---------------------------------------------------------------------------

/// What the writer wants done next.
#[derive(Debug, PartialEq, Eq)]
pub enum WriterStep {
    /// Wait for a line to send.
    Receive,
    Connect,
    /// Write this text and flush.
    Write(String),
    Stop,
}

/// A step of the writer, its text as a sequence of characters.
pub enum WriterStepView {
    Receive,
    Connect,
    Write(Seq<char>),
    Stop,
}

impl DeepView for WriterStep {
    type V = WriterStepView;

    open spec fn deep_view(&self) -> WriterStepView {
        match self {
            WriterStep::Receive => WriterStepView::Receive,
            WriterStep::Connect => WriterStepView::Connect,
            WriterStep::Write(text) => WriterStepView::Write(text@),
            WriterStep::Stop => WriterStepView::Stop,
        }
    }
}

/// What came of a step.
#[derive(Debug, PartialEq, Eq)]
pub enum WriterInput {
    Received(String),
    /// No line will be sent any more.
    Closed,
    Connected,
    ConnectFailed,
    Written,
    WriteFailed,
}

/// An input of the writer, its text as a sequence of characters.
pub enum WriterInputView {
    Received(Seq<char>),
    Closed,
    Connected,
    ConnectFailed,
    Written,
    WriteFailed,
}

impl DeepView for WriterInput {
    type V = WriterInputView;

    open spec fn deep_view(&self) -> WriterInputView {
        match self {
            WriterInput::Received(line) => WriterInputView::Received(line@),
            WriterInput::Closed => WriterInputView::Closed,
            WriterInput::Connected => WriterInputView::Connected,
            WriterInput::ConnectFailed => WriterInputView::ConnectFailed,
            WriterInput::Written => WriterInputView::Written,
            WriterInput::WriteFailed => WriterInputView::WriteFailed,
        }
    }
}

/// The state of the writer: the lines that are still to be written, oldest first.
pub struct WriterView {
    pub backlog: Seq<Seq<char>>,
    pub connected: bool,
    pub closed: bool,
}

impl WriterView {
    /// The step that the writer wants: to wait for a line while it has none, then to connect,
    /// then to write the oldest line.
    pub open spec fn step(self) -> WriterStepView {
        if self.closed {
            WriterStepView::Stop
        } else if self.backlog.len() == 0 {
            WriterStepView::Receive
        } else if !self.connected {
            WriterStepView::Connect
        } else {
            WriterStepView::Write(self.backlog[0] + "\n"@)
        }
    }

    /// Whether an input can come of the step that the writer wants.
    pub open spec fn accepts(self, input: WriterInputView) -> bool {
        match input {
            WriterInputView::Received(_) | WriterInputView::Closed => self.step() is Receive,
            WriterInputView::Connected | WriterInputView::ConnectFailed => self.step() is Connect,
            WriterInputView::Written | WriterInputView::WriteFailed => self.step() is Write,
        }
    }

    /// The state after an input. A line leaves the backlog only once it has been written.
    pub open spec fn after(self, input: WriterInputView) -> WriterView {
        match input {
            WriterInputView::Received(line) => WriterView {
                backlog: self.backlog.push(line),
                ..self
            },
            WriterInputView::Closed => WriterView { closed: true, ..self },
            WriterInputView::Connected => WriterView { connected: true, ..self },
            WriterInputView::ConnectFailed => self,
            WriterInputView::Written => WriterView { backlog: self.backlog.drop_first(), ..self },
            WriterInputView::WriteFailed => WriterView { connected: false, ..self },
        }
    }
}

/// The pause after an input, in milliseconds.
pub open spec fn writer_pause(input: WriterInputView) -> u64 {
    match input {
        WriterInputView::ConnectFailed => 300,
        WriterInputView::WriteFailed => 200,
        _ => 0,
    }
}

/// Writes lines to the editor in the order in which they come.
#[derive(Debug)]
pub struct IpcWriter {
    backlog: VecDeque<String>,
    connected: bool,
    closed: bool,
}

impl View for IpcWriter {
    type V = WriterView;

    closed spec fn view(&self) -> WriterView {
        WriterView {
            backlog: self.backlog@.map_values(|s: String| s@),
            connected: self.connected,
            closed: self.closed,
        }
    }
}

impl IpcWriter {
    /// A writer with nothing to write.
    pub fn new() -> (r: IpcWriter)
        ensures
            r@ == (WriterView { backlog: Seq::empty(), connected: false, closed: false }),
    {
        let r = IpcWriter { backlog: VecDeque::new(), connected: false, closed: false };
        assert(r@.backlog =~= Seq::empty());
        r
    }

    /// The step to perform next.
    pub fn step(&self) -> (r: WriterStep)
        ensures
            r.deep_view() == self@.step(),
    {
        if self.closed {
            WriterStep::Stop
        } else if self.backlog.len() == 0 {
            WriterStep::Receive
        } else if !self.connected {
            WriterStep::Connect
        } else {
            let mut line = self.backlog[0].clone();
            line.append("\n");
            WriterStep::Write(line)
        }
    }

    /// Takes what came of a step, and says how long to pause.
    pub fn handle(&mut self, input: WriterInput) -> (r: u64)
        requires
            old(self)@.accepts(input.deep_view()),
        ensures
            final(self)@ == old(self)@.after(input.deep_view()),
            r == writer_pause(input.deep_view()),
    {
        match input {
            WriterInput::Received(line) => {
                self.backlog.push_back(line);
                assert(self@.backlog =~= old(self)@.backlog.push(line@));
                0
            },
            WriterInput::Closed => {
                self.closed = true;
                0
            },
            WriterInput::Connected => {
                self.connected = true;
                0
            },
            WriterInput::ConnectFailed => 300,
            WriterInput::Written => {
                let _ = self.backlog.pop_front();
                assert(self@.backlog =~= old(self)@.backlog.drop_first());
                0
            },
            WriterInput::WriteFailed => {
                self.connected = false;
                200
            },
        }
    }
}

} // verus!
