//! What the widget has done for it: by the pane at the bottom of the screen, in the history of
//! the conversation, by the agent, by the application and by the editor.
use std::path::PathBuf;

use vstd::prelude::*;

use crate::app_event::{AppEvent, AppEventView, Line, LineView};
use crate::protocol::{
    AnyOp, AnyOpView, ChangedFile, ChangedFileView, NoRequest, TokenUsage,
};

verus! {

/// Something for which the user's approval is asked.
#[derive(Debug, PartialEq, Eq)]
pub enum ApprovalRequest {
    Exec { id: String, command: Vec<String>, cwd: PathBuf, reason: Option<String> },
    ApplyPatch { id: String, reason: Option<String>, grant_root: Option<PathBuf> },
}

/// A request for approval, its texts as sequences of characters.
pub enum ApprovalRequestView {
    Exec { id: Seq<char>, command: Seq<Seq<char>>, cwd: PathBuf, reason: Option<Seq<char>> },
    ApplyPatch { id: Seq<char>, reason: Option<Seq<char>>, grant_root: Option<PathBuf> },
}

impl DeepView for ApprovalRequest {
    type V = ApprovalRequestView;

    open spec fn deep_view(&self) -> ApprovalRequestView {
        match self {
            ApprovalRequest::Exec { id, command, cwd, reason } => ApprovalRequestView::Exec {
                id: id@,
                command: command.deep_view(),
                cwd: *cwd,
                reason: reason.deep_view(),
            },
            ApprovalRequest::ApplyPatch { id, reason, grant_root } =>
                ApprovalRequestView::ApplyPatch {
                id: id@,
                reason: reason.deep_view(),
                grant_root: *grant_root,
            },
        }
    }
}

/// A call of the bottom pane.
#[derive(Debug, PartialEq, Eq)]
pub enum PaneCall {
    ClearCtrlCQuitHint,
    ShowCtrlCQuitHint,
    SetTaskRunning(bool),
    ClearLiveRing,
    SetLiveRingRows { max_rows: u16, rows: Vec<Line> },
    UpdateStatusText(String),
    SetTokenUsage { total: TokenUsage, last: TokenUsage, context_window: Option<u64> },
    SetHistoryMetadata { log_id: u64, entry_count: usize },
    OnHistoryEntryResponse { log_id: u64, offset: usize, entry: Option<String> },
    PushApprovalRequest(ApprovalRequest),
    SetVscodeSelectionHint { lines: Option<usize>, rel_path: Option<String> },
    SetIdeDetected(bool),
    HandlePaste(String),
}

/// A call of the bottom pane, its texts as sequences of characters.
pub enum PaneCallView {
    ClearCtrlCQuitHint,
    ShowCtrlCQuitHint,
    SetTaskRunning(bool),
    ClearLiveRing,
    SetLiveRingRows { max_rows: u16, rows: Seq<LineView> },
    UpdateStatusText(Seq<char>),
    SetTokenUsage { total: TokenUsage, last: TokenUsage, context_window: Option<u64> },
    SetHistoryMetadata { log_id: u64, entry_count: usize },
    OnHistoryEntryResponse { log_id: u64, offset: usize, entry: Option<Seq<char>> },
    PushApprovalRequest(ApprovalRequestView),
    SetVscodeSelectionHint { lines: Option<usize>, rel_path: Option<Seq<char>> },
    SetIdeDetected(bool),
    HandlePaste(Seq<char>),
}

impl DeepView for PaneCall {
    type V = PaneCallView;

    open spec fn deep_view(&self) -> PaneCallView {
        match self {
            PaneCall::ClearCtrlCQuitHint => PaneCallView::ClearCtrlCQuitHint,
            PaneCall::ShowCtrlCQuitHint => PaneCallView::ShowCtrlCQuitHint,
            PaneCall::SetTaskRunning(running) => PaneCallView::SetTaskRunning(*running),
            PaneCall::ClearLiveRing => PaneCallView::ClearLiveRing,
            PaneCall::SetLiveRingRows { max_rows, rows } => PaneCallView::SetLiveRingRows {
                max_rows: *max_rows,
                rows: rows.deep_view(),
            },
            PaneCall::UpdateStatusText(text) => PaneCallView::UpdateStatusText(text@),
            PaneCall::SetTokenUsage { total, last, context_window } =>
                PaneCallView::SetTokenUsage {
                total: *total,
                last: *last,
                context_window: *context_window,
            },
            PaneCall::SetHistoryMetadata { log_id, entry_count } =>
                PaneCallView::SetHistoryMetadata { log_id: *log_id, entry_count: *entry_count },
            PaneCall::OnHistoryEntryResponse { log_id, offset, entry } =>
                PaneCallView::OnHistoryEntryResponse {
                log_id: *log_id,
                offset: *offset,
                entry: entry.deep_view(),
            },
            PaneCall::PushApprovalRequest(request) => PaneCallView::PushApprovalRequest(
                request.deep_view(),
            ),
            PaneCall::SetVscodeSelectionHint { lines, rel_path } =>
                PaneCallView::SetVscodeSelectionHint {
                lines: *lines,
                rel_path: rel_path.deep_view(),
            },
            PaneCall::SetIdeDetected(detected) => PaneCallView::SetIdeDetected(*detected),
            PaneCall::HandlePaste(text) => PaneCallView::HandlePaste(text@),
        }
    }
}

/// What a command has put out.
#[derive(Debug, PartialEq, Eq)]
pub struct CommandOutput {
    pub exit_code: i32,
    pub stdout: String,
    pub stderr: String,
}

/// What a command has put out, as sequences of characters.
pub struct CommandOutputView {
    pub exit_code: i32,
    pub stdout: Seq<char>,
    pub stderr: Seq<char>,
}

impl DeepView for CommandOutput {
    type V = CommandOutputView;

    open spec fn deep_view(&self) -> CommandOutputView {
        CommandOutputView {
            exit_code: self.exit_code,
            stdout: self.stdout@,
            stderr: self.stderr@,
        }
    }
}

/// Why a patch is shown.
#[derive(Clone, Copy, Debug, PartialEq, Eq)]
pub enum PatchEventType {
    ApprovalRequest,
    ApplyBegin { auto_approved: bool },
}

/// An entry of the conversation's history. Entries without contents show a part of the event
/// that is being handled: the session, the plan, or the tool call.
#[derive(Debug, PartialEq, Eq)]
pub enum HistoryCell {
    SessionInfo,
    UserPrompt(String),
    ErrorEvent(String),
    PlanUpdate,
    ActiveExecCommand(Vec<String>),
    CompletedExecCommand { command: Vec<String>, output: CommandOutput },
    PatchEvent { event_type: PatchEventType, changes: Vec<ChangedFile> },
    PatchApplyFailure(String),
    ActiveMcpToolCall,
    CompletedMcpToolCall { num_cols: usize, is_error: bool },
    DiffOutput(String),
    StatusOutput(TokenUsage),
    PromptsOutput,
}

/// An entry of the history, its texts as sequences of characters.
pub enum HistoryCellView {
    SessionInfo,
    UserPrompt(Seq<char>),
    ErrorEvent(Seq<char>),
    PlanUpdate,
    ActiveExecCommand(Seq<Seq<char>>),
    CompletedExecCommand { command: Seq<Seq<char>>, output: CommandOutputView },
    PatchEvent { event_type: PatchEventType, changes: Seq<ChangedFileView> },
    PatchApplyFailure(Seq<char>),
    ActiveMcpToolCall,
    CompletedMcpToolCall { num_cols: usize, is_error: bool },
    DiffOutput(Seq<char>),
    StatusOutput(TokenUsage),
    PromptsOutput,
}

impl DeepView for HistoryCell {
    type V = HistoryCellView;

    open spec fn deep_view(&self) -> HistoryCellView {
        match self {
            HistoryCell::SessionInfo => HistoryCellView::SessionInfo,
            HistoryCell::UserPrompt(text) => HistoryCellView::UserPrompt(text@),
            HistoryCell::ErrorEvent(message) => HistoryCellView::ErrorEvent(message@),
            HistoryCell::PlanUpdate => HistoryCellView::PlanUpdate,
            HistoryCell::ActiveExecCommand(command) => HistoryCellView::ActiveExecCommand(
                command.deep_view(),
            ),
            HistoryCell::CompletedExecCommand { command, output } =>
                HistoryCellView::CompletedExecCommand {
                command: command.deep_view(),
                output: output.deep_view(),
            },
            HistoryCell::PatchEvent { event_type, changes } => HistoryCellView::PatchEvent {
                event_type: *event_type,
                changes: changes.deep_view(),
            },
            HistoryCell::PatchApplyFailure(stderr) => HistoryCellView::PatchApplyFailure(stderr@),
            HistoryCell::ActiveMcpToolCall => HistoryCellView::ActiveMcpToolCall,
            HistoryCell::CompletedMcpToolCall { num_cols, is_error } =>
                HistoryCellView::CompletedMcpToolCall { num_cols: *num_cols, is_error: *is_error },
            HistoryCell::DiffOutput(diff) => HistoryCellView::DiffOutput(diff@),
            HistoryCell::StatusOutput(usage) => HistoryCellView::StatusOutput(*usage),
            HistoryCell::PromptsOutput => HistoryCellView::PromptsOutput,
        }
    }
}

/// Something to be done. Effects are performed in the order in which they are given. `T` is the
/// type of the requests to the agent that are only forwarded.
#[derive(Debug, PartialEq, Eq)]
pub enum AnyEffect<T> {
    /// Send an event to the application.
    App(AppEvent),
    /// Append the lines of an entry to the history.
    History(HistoryCell),
    /// Submit a request to the agent.
    Op(AnyOp<T>),
    /// Call the bottom pane.
    Pane(PaneCall),
    /// Send a line to the editor.
    Ipc(String),
    /// Replace the builder of live rows with an empty one of the same width.
    ResetRows,
    /// Write a line to the log.
    Log(String),
    /// Start to read the editor's messages from the channel at this address.
    StartIpcReader(String),
    /// Start to write lines for the editor to the channel at this address.
    StartIpcWriter(String),
}

/// An effect by its view.
pub enum AnyEffectView<T> {
    App(AppEventView),
    History(HistoryCellView),
    Op(AnyOpView<T>),
    Pane(PaneCallView),
    Ipc(Seq<char>),
    ResetRows,
    Log(Seq<char>),
    StartIpcReader(Seq<char>),
    StartIpcWriter(Seq<char>),
}

/// An effect of what the widget does itself.
pub type Effect = AnyEffect<NoRequest>;

/// An effect of what the widget does itself, by its view.
pub type EffectView = AnyEffectView<NoRequest>;

impl<T> DeepView for AnyEffect<T> {
    type V = AnyEffectView<T>;

    open spec fn deep_view(&self) -> AnyEffectView<T> {
        match self {
            AnyEffect::App(event) => AnyEffectView::App(event.deep_view()),
            AnyEffect::History(cell) => AnyEffectView::History(cell.deep_view()),
            AnyEffect::Op(op) => AnyEffectView::Op(op.deep_view()),
            AnyEffect::Pane(call) => AnyEffectView::Pane(call.deep_view()),
            AnyEffect::Ipc(line) => AnyEffectView::Ipc(line@),
            AnyEffect::ResetRows => AnyEffectView::ResetRows,
            AnyEffect::Log(line) => AnyEffectView::Log(line@),
            AnyEffect::StartIpcReader(path) => AnyEffectView::StartIpcReader(path@),
            AnyEffect::StartIpcWriter(path) => AnyEffectView::StartIpcWriter(path@),
        }
    }
}

/// Appends an effect.
pub fn emit<T>(out: &mut Vec<AnyEffect<T>>, effect: AnyEffect<T>)
    ensures
        final(out).deep_view() == old(out).deep_view().push(effect.deep_view()),
{
    out.push(effect);
    assert(out.deep_view() =~= old(out).deep_view().push(effect.deep_view()));
}

/// A call of the builder of live rows.
#[derive(Debug, PartialEq, Eq)]
pub enum RowCall {
    /// End the current line.
    EndLine,
    /// Take all rows out.
    DrainRows,
    /// Replace the builder with an empty one of the same width.
    Reset,
    /// Append text.
    PushFragment(String),
    /// Take out the rows that overflow, and keep so many.
    DrainCommitReady(usize),
    /// Read the rows.
    DisplayRows,
}

/// A call of the builder, its text as a sequence of characters.
pub enum RowCallView {
    EndLine,
    DrainRows,
    Reset,
    PushFragment(Seq<char>),
    DrainCommitReady(usize),
    DisplayRows,
}

impl DeepView for RowCall {
    type V = RowCallView;

    open spec fn deep_view(&self) -> RowCallView {
        match self {
            RowCall::EndLine => RowCallView::EndLine,
            RowCall::DrainRows => RowCallView::DrainRows,
            RowCall::Reset => RowCallView::Reset,
            RowCall::PushFragment(text) => RowCallView::PushFragment(text@),
            RowCall::DrainCommitReady(keep) => RowCallView::DrainCommitReady(*keep),
            RowCall::DisplayRows => RowCallView::DisplayRows,
        }
    }
}

} // verus!
