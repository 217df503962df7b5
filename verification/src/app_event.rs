//! The events that the chat widget and its helpers send to the application.
use vstd::prelude::*;

verus! {

/// What an editor reports about its current selection.
#[derive(Clone, Debug, PartialEq, Eq)]
pub struct VscodeSelectionInfo {
    pub lines: usize,
    pub characters: usize,
    pub text: Option<String>,
    pub rel_path: Option<String>,
    pub language_id: Option<String>,
    pub start_line: Option<u64>,
    pub end_line: Option<u64>,
}

/// A selection, its texts as sequences of characters.
pub struct SelectionView {
    pub lines: usize,
    pub characters: usize,
    pub text: Option<Seq<char>>,
    pub rel_path: Option<Seq<char>>,
    pub language_id: Option<Seq<char>>,
    pub start_line: Option<u64>,
    pub end_line: Option<u64>,
}

impl DeepView for VscodeSelectionInfo {
    type V = SelectionView;

    open spec fn deep_view(&self) -> SelectionView {
        SelectionView {
            lines: self.lines,
            characters: self.characters,
            text: self.text.deep_view(),
            rel_path: self.rel_path.deep_view(),
            language_id: self.language_id.deep_view(),
            start_line: self.start_line,
            end_line: self.end_line,
        }
    }
}

/// How a line of the conversation is shown.
#[derive(Clone, Copy, Debug, PartialEq, Eq, Structural)]
pub enum LineStyle {
    Plain,
    /// Magenta and italic.
    MagentaItalic,
    /// Magenta and bold.
    MagentaBold,
}

/// A line of the conversation.
#[derive(Debug, PartialEq, Eq)]
pub struct Line {
    pub text: String,
    pub style: LineStyle,
}

/// A line, its text as a sequence of characters.
pub struct LineView {
    pub text: Seq<char>,
    pub style: LineStyle,
}

impl DeepView for Line {
    type V = LineView;

    open spec fn deep_view(&self) -> LineView {
        LineView { text: self.text@, style: self.style }
    }
}

/// An event for the application.
#[derive(Debug, PartialEq, Eq)]
pub enum AppEvent {
    /// Request a redraw.
    RequestRedraw,
    /// Request to exit the application gracefully.
    ExitRequest,
    /// The latest log line.
    LatestLog(String),
    /// Lines to append to the conversation history.
    InsertHistory(Vec<Line>),
    /// Live update from an editor about its current selection.
    VscodeSelectionUpdate(Option<VscodeSelectionInfo>),
}

/// An event, its texts as sequences of characters.
pub enum AppEventView {
    RequestRedraw,
    ExitRequest,
    LatestLog(Seq<char>),
    InsertHistory(Seq<LineView>),
    VscodeSelectionUpdate(Option<SelectionView>),
}

impl DeepView for AppEvent {
    type V = AppEventView;

    open spec fn deep_view(&self) -> AppEventView {
        match self {
            AppEvent::RequestRedraw => AppEventView::RequestRedraw,
            AppEvent::ExitRequest => AppEventView::ExitRequest,
            AppEvent::LatestLog(line) => AppEventView::LatestLog(line@),
            AppEvent::InsertHistory(lines) => AppEventView::InsertHistory(lines.deep_view()),
            AppEvent::VscodeSelectionUpdate(selection) => AppEventView::VscodeSelectionUpdate(
                selection.deep_view(),
            ),
        }
    }
}

} // verus!
