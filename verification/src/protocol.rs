//! What the agent reports to the widget, and what the widget asks of the agent.
use std::path::PathBuf;

use vstd::prelude::*;

verus! {

/// `std::path::PathBuf`, a path in the form that the system has for it.
#[verifier::external_type_specification]
#[verifier::external_body]
pub struct ExPathBuf(std::path::PathBuf);

// ---------------------------------------------------------------------------
// Token usage
// ---------------------------------------------------------------------------

/// How many tokens have been used.
#[derive(Clone, Copy, Debug, PartialEq, Eq)]
pub struct TokenUsage {
    pub input_tokens: u64,
    pub cached_input_tokens: Option<u64>,
    pub output_tokens: u64,
    pub reasoning_output_tokens: Option<u64>,
    pub total_tokens: u64,
}

/// No tokens at all.
pub open spec fn no_usage() -> TokenUsage {
    TokenUsage {
        input_tokens: 0,
        cached_input_tokens: None,
        output_tokens: 0,
        reasoning_output_tokens: None,
        total_tokens: 0,
    }
}

impl Default for TokenUsage {
    fn default() -> (r: TokenUsage)
        ensures
            r == no_usage(),
    {
        TokenUsage {
            input_tokens: 0,
            cached_input_tokens: None,
            output_tokens: 0,
            reasoning_output_tokens: None,
            total_tokens: 0,
        }
    }
}

/// The sum of two counts, either of which may be unknown; unknown only if both are.
pub open spec fn optional_sum(a: Option<u64>, b: Option<u64>) -> Option<int> {
    match (a, b) {
        (Some(x), Some(y)) => Some(x + y),
        (Some(x), None) => Some(x as int),
        (None, Some(y)) => Some(y as int),
        (None, None) => None,
    }
}

/// The sum of two counts fits in 64 bits.
pub open spec fn optional_sum_fits(a: Option<u64>, b: Option<u64>) -> bool {
    optional_sum(a, b) matches Some(n) ==> n <= u64::MAX
}

/// The sum of two counts as a count.
pub open spec fn optional_total(a: Option<u64>, b: Option<u64>) -> Option<u64> {
    match optional_sum(a, b) {
        Some(n) => Some(n as u64),
        None => None,
    }
}

/// Every sum of the counts of `a` and `b` fits in 64 bits.
pub open spec fn usage_fits(a: TokenUsage, b: TokenUsage) -> bool {
    &&& a.input_tokens + b.input_tokens <= u64::MAX
    &&& optional_sum_fits(a.cached_input_tokens, b.cached_input_tokens)
    &&& a.output_tokens + b.output_tokens <= u64::MAX
    &&& optional_sum_fits(a.reasoning_output_tokens, b.reasoning_output_tokens)
    &&& a.total_tokens + b.total_tokens <= u64::MAX
}

/// The usage of `a` and `b` together.
pub open spec fn usage_sum(a: TokenUsage, b: TokenUsage) -> TokenUsage {
    TokenUsage {
        input_tokens: (a.input_tokens + b.input_tokens) as u64,
        cached_input_tokens: optional_total(a.cached_input_tokens, b.cached_input_tokens),
        output_tokens: (a.output_tokens + b.output_tokens) as u64,
        reasoning_output_tokens: optional_total(
            a.reasoning_output_tokens,
            b.reasoning_output_tokens,
        ),
        total_tokens: (a.total_tokens + b.total_tokens) as u64,
    }
}

fn add_optional(a: Option<u64>, b: Option<u64>) -> (r: Option<u64>)
    requires
        optional_sum_fits(a, b),
    ensures
        r == optional_total(a, b),
{
    match (a, b) {
        (Some(current), Some(new)) => Some(current + new),
        (Some(current), None) => Some(current),
        (None, Some(new)) => Some(new),
        (None, None) => None,
    }
}

/// The usage so far and the new usage together.
pub fn add_token_usage(current_usage: &TokenUsage, new_usage: &TokenUsage) -> (r: TokenUsage)
    requires
        usage_fits(*current_usage, *new_usage),
    ensures
        r == usage_sum(*current_usage, *new_usage),
{
    TokenUsage {
        input_tokens: current_usage.input_tokens + new_usage.input_tokens,
        cached_input_tokens: add_optional(
            current_usage.cached_input_tokens,
            new_usage.cached_input_tokens,
        ),
        output_tokens: current_usage.output_tokens + new_usage.output_tokens,
        reasoning_output_tokens: add_optional(
            current_usage.reasoning_output_tokens,
            new_usage.reasoning_output_tokens,
        ),
        total_tokens: current_usage.total_tokens + new_usage.total_tokens,
    }
}

// ---------------------------------------------------------------------------
// Proposed changes
// ---------------------------------------------------------------------------

/// A change to a file, as the agent's protocol describes it.
#[derive(Debug, PartialEq, Eq)]
pub enum FileChange {
    Add { content: String },
    Delete,
    Update { unified_diff: String, move_path: Option<PathBuf> },
}

/// A change, its texts as sequences of characters.
pub enum FileChangeView {
    Add { content: Seq<char> },
    Delete,
    Update { unified_diff: Seq<char>, move_path: Option<PathBuf> },
}

impl DeepView for FileChange {
    type V = FileChangeView;

    open spec fn deep_view(&self) -> FileChangeView {
        match self {
            FileChange::Add { content } => FileChangeView::Add { content: content@ },
            FileChange::Delete => FileChangeView::Delete,
            FileChange::Update { unified_diff, move_path } => FileChangeView::Update {
                unified_diff: unified_diff@,
                move_path: *move_path,
            },
        }
    }
}

/// A file and the change to it.
#[derive(Debug, PartialEq, Eq)]
pub struct ChangedFile {
    pub path: PathBuf,
    pub change: FileChange,
}

/// A file and the change to it, by its view.
pub struct ChangedFileView {
    pub path: PathBuf,
    pub change: FileChangeView,
}

impl DeepView for ChangedFile {
    type V = ChangedFileView;

    open spec fn deep_view(&self) -> ChangedFileView {
        ChangedFileView { path: self.path, change: self.change.deep_view() }
    }
}

/// A change to a file, as it is read out of a patch: an update comes with the content that it
/// leads to.
#[derive(Debug, PartialEq, Eq)]
pub enum PatchChange {
    Add { content: String },
    Delete,
    Update { unified_diff: String, move_path: Option<PathBuf>, new_content: String },
}

/// A file and the change to it, as they are read out of a patch.
#[derive(Debug, PartialEq, Eq)]
pub struct PatchedFile {
    pub path: PathBuf,
    pub change: PatchChange,
}

/// A change of a patch as the protocol describes it: without the new content.
pub open spec fn protocol_change(change: PatchChange) -> FileChangeView {
    match change {
        PatchChange::Add { content } => FileChangeView::Add { content: content@ },
        PatchChange::Delete => FileChangeView::Delete,
        PatchChange::Update { unified_diff, move_path, .. } => FileChangeView::Update {
            unified_diff: unified_diff@,
            move_path,
        },
    }
}

/// The changes of a patch as the protocol describes them, file by file.
pub open spec fn protocol_changes(files: Seq<PatchedFile>) -> Seq<ChangedFileView> {
    files.map_values(
        |f: PatchedFile| ChangedFileView { path: f.path, change: protocol_change(f.change) },
    )
}

/// No path occurs twice.
pub open spec fn distinct_paths(paths: Seq<PathBuf>) -> bool {
    paths.no_duplicates()
}

/// The paths of the files of a patch.
pub open spec fn patched_paths(files: Seq<PatchedFile>) -> Seq<PathBuf> {
    files.map_values(|f: PatchedFile| f.path)
}

/// The paths of changed files.
pub open spec fn changed_paths(files: Seq<ChangedFileView>) -> Seq<PathBuf> {
    files.map_values(|f: ChangedFileView| f.path)
}

fn to_protocol(file: PatchedFile) -> (r: ChangedFile)
    ensures
        r.path == file.path,
        r.change.deep_view() == protocol_change(file.change),
{
    let PatchedFile { path, change } = file;
    let change = match change {
        PatchChange::Add { content } => FileChange::Add { content },
        PatchChange::Delete => FileChange::Delete,
        PatchChange::Update { unified_diff, move_path, new_content: _ } => FileChange::Update {
            unified_diff,
            move_path,
        },
    };
    ChangedFile { path, change }
}

/// The changes of a patch as the protocol describes them. The files keep their paths, so where
/// no path occurs twice in the patch, none does in the changes.
pub fn convert_changes(files: Vec<PatchedFile>) -> (r: Vec<ChangedFile>)
    ensures
        r.deep_view() == protocol_changes(files@),
        changed_paths(r.deep_view()) == patched_paths(files@),
        distinct_paths(patched_paths(files@)) ==> distinct_paths(changed_paths(r.deep_view())),
{
    let mut r: Vec<ChangedFile> = Vec::new();
    for file in it: files
        invariant
            it.seq() == files@,
            r.deep_view() == protocol_changes(files@.take(it.index())),
    {
        let ghost before = r.deep_view();
        let ghost k = it.index();
        r.push(to_protocol(file));
        proof {
            assert(r.deep_view() =~= before.push(r@.last().deep_view()));
            assert(files@.take(k + 1) =~= files@.take(k).push(file));
            assert(protocol_changes(files@.take(k + 1)) =~= protocol_changes(files@.take(k)).push(
                ChangedFileView { path: file.path, change: protocol_change(file.change) },
            ));
        }
    }
    assert(files@.take(files@.len() as int) =~= files@);
    assert(changed_paths(r.deep_view()) =~= patched_paths(files@));
    r
}

// ---------------------------------------------------------------------------
// Events
// ---------------------------------------------------------------------------

/// An event of the agent.
#[derive(Debug, PartialEq, Eq)]
pub struct Event {
    pub id: String,
    pub msg: EventMsg,
}

/// What an event is about. What the widget only hands on, and never looks at, stays with the
/// event: the details of the session, a plan, a tool call and its result.
#[derive(Debug, PartialEq, Eq)]
pub enum EventMsg {
    SessionConfigured { history_log_id: u64, history_entry_count: usize },
    AgentMessage { message: String },
    AgentMessageDelta { delta: String },
    AgentReasoning { text: String },
    AgentReasoningDelta { delta: String },
    AgentReasoningRawContent { text: String },
    AgentReasoningRawContentDelta { delta: String },
    TaskStarted,
    TaskComplete { last_agent_message: Option<String> },
    TokenCount(TokenUsage),
    Error { message: String },
    PlanUpdate,
    ExecApprovalRequest {
        call_id: String,
        command: Vec<String>,
        cwd: PathBuf,
        reason: Option<String>,
    },
    ApplyPatchApprovalRequest {
        call_id: String,
        changes: Vec<ChangedFile>,
        reason: Option<String>,
        grant_root: Option<PathBuf>,
    },
    ExecCommandBegin { call_id: String, command: Vec<String>, cwd: PathBuf },
    ExecCommandOutputDelta,
    ExecCommandEnd { call_id: String, exit_code: i32, stdout: String, stderr: String },
    PatchApplyBegin { call_id: String, auto_approved: bool, changes: Vec<ChangedFile> },
    PatchApplyEnd { call_id: String, stderr: String, success: bool },
    McpToolCallBegin { call_id: String },
    /// `result` holds what a call that went through says of itself: whether it is an error.
    McpToolCallEnd { call_id: String, result: Option<Option<bool>> },
    GetHistoryEntryResponse { offset: usize, log_id: u64, entry: Option<String> },
    ShutdownComplete,
    TurnDiff { unified_diff: String },
    BackgroundEvent { message: String },
}

/// What an event is about, its texts as sequences of characters.
pub enum EventMsgView {
    SessionConfigured { history_log_id: u64, history_entry_count: usize },
    AgentMessage { message: Seq<char> },
    AgentMessageDelta { delta: Seq<char> },
    AgentReasoning { text: Seq<char> },
    AgentReasoningDelta { delta: Seq<char> },
    AgentReasoningRawContent { text: Seq<char> },
    AgentReasoningRawContentDelta { delta: Seq<char> },
    TaskStarted,
    TaskComplete { last_agent_message: Option<Seq<char>> },
    TokenCount(TokenUsage),
    Error { message: Seq<char> },
    PlanUpdate,
    ExecApprovalRequest {
        call_id: Seq<char>,
        command: Seq<Seq<char>>,
        cwd: PathBuf,
        reason: Option<Seq<char>>,
    },
    ApplyPatchApprovalRequest {
        call_id: Seq<char>,
        changes: Seq<ChangedFileView>,
        reason: Option<Seq<char>>,
        grant_root: Option<PathBuf>,
    },
    ExecCommandBegin { call_id: Seq<char>, command: Seq<Seq<char>>, cwd: PathBuf },
    ExecCommandOutputDelta,
    ExecCommandEnd { call_id: Seq<char>, exit_code: i32, stdout: Seq<char>, stderr: Seq<char> },
    PatchApplyBegin { call_id: Seq<char>, auto_approved: bool, changes: Seq<ChangedFileView> },
    PatchApplyEnd { call_id: Seq<char>, stderr: Seq<char>, success: bool },
    McpToolCallBegin { call_id: Seq<char> },
    McpToolCallEnd { call_id: Seq<char>, result: Option<Option<bool>> },
    GetHistoryEntryResponse { offset: usize, log_id: u64, entry: Option<Seq<char>> },
    ShutdownComplete,
    TurnDiff { unified_diff: Seq<char> },
    BackgroundEvent { message: Seq<char> },
}

impl DeepView for EventMsg {
    type V = EventMsgView;

    open spec fn deep_view(&self) -> EventMsgView {
        match self {
            EventMsg::SessionConfigured { history_log_id, history_entry_count } =>
                EventMsgView::SessionConfigured {
                history_log_id: *history_log_id,
                history_entry_count: *history_entry_count,
            },
            EventMsg::AgentMessage { message } => EventMsgView::AgentMessage { message: message@ },
            EventMsg::AgentMessageDelta { delta } => EventMsgView::AgentMessageDelta {
                delta: delta@,
            },
            EventMsg::AgentReasoning { text } => EventMsgView::AgentReasoning { text: text@ },
            EventMsg::AgentReasoningDelta { delta } => EventMsgView::AgentReasoningDelta {
                delta: delta@,
            },
            EventMsg::AgentReasoningRawContent { text } => EventMsgView::AgentReasoningRawContent {
                text: text@,
            },
            EventMsg::AgentReasoningRawContentDelta { delta } =>
                EventMsgView::AgentReasoningRawContentDelta { delta: delta@ },
            EventMsg::TaskStarted => EventMsgView::TaskStarted,
            EventMsg::TaskComplete { last_agent_message } => EventMsgView::TaskComplete {
                last_agent_message: last_agent_message.deep_view(),
            },
            EventMsg::TokenCount(usage) => EventMsgView::TokenCount(*usage),
            EventMsg::Error { message } => EventMsgView::Error { message: message@ },
            EventMsg::PlanUpdate => EventMsgView::PlanUpdate,
            EventMsg::ExecApprovalRequest { call_id, command, cwd, reason } =>
                EventMsgView::ExecApprovalRequest {
                call_id: call_id@,
                command: command.deep_view(),
                cwd: *cwd,
                reason: reason.deep_view(),
            },
            EventMsg::ApplyPatchApprovalRequest { call_id, changes, reason, grant_root } =>
                EventMsgView::ApplyPatchApprovalRequest {
                call_id: call_id@,
                changes: changes.deep_view(),
                reason: reason.deep_view(),
                grant_root: *grant_root,
            },
            EventMsg::ExecCommandBegin { call_id, command, cwd } =>
                EventMsgView::ExecCommandBegin {
                call_id: call_id@,
                command: command.deep_view(),
                cwd: *cwd,
            },
            EventMsg::ExecCommandOutputDelta => EventMsgView::ExecCommandOutputDelta,
            EventMsg::ExecCommandEnd { call_id, exit_code, stdout, stderr } =>
                EventMsgView::ExecCommandEnd {
                call_id: call_id@,
                exit_code: *exit_code,
                stdout: stdout@,
                stderr: stderr@,
            },
            EventMsg::PatchApplyBegin { call_id, auto_approved, changes } =>
                EventMsgView::PatchApplyBegin {
                call_id: call_id@,
                auto_approved: *auto_approved,
                changes: changes.deep_view(),
            },
            EventMsg::PatchApplyEnd { call_id, stderr, success } => EventMsgView::PatchApplyEnd {
                call_id: call_id@,
                stderr: stderr@,
                success: *success,
            },
            EventMsg::McpToolCallBegin { call_id } => EventMsgView::McpToolCallBegin {
                call_id: call_id@,
            },
            EventMsg::McpToolCallEnd { call_id, result } => EventMsgView::McpToolCallEnd {
                call_id: call_id@,
                result: *result,
            },
            EventMsg::GetHistoryEntryResponse { offset, log_id, entry } =>
                EventMsgView::GetHistoryEntryResponse {
                offset: *offset,
                log_id: *log_id,
                entry: entry.deep_view(),
            },
            EventMsg::ShutdownComplete => EventMsgView::ShutdownComplete,
            EventMsg::TurnDiff { unified_diff } => EventMsgView::TurnDiff {
                unified_diff: unified_diff@,
            },
            EventMsg::BackgroundEvent { message } => EventMsgView::BackgroundEvent {
                message: message@,
            },
        }
    }
}

// ---------------------------------------------------------------------------
// Requests to the agent
// ---------------------------------------------------------------------------

/// A part of what the user gives to the agent.
#[derive(Debug, PartialEq, Eq)]
pub enum InputItem {
    Text { text: String },
    LocalImage { path: PathBuf },
}

/// A part of the user's input, its text as a sequence of characters.
pub enum InputItemView {
    Text { text: Seq<char> },
    LocalImage { path: PathBuf },
}

impl DeepView for InputItem {
    type V = InputItemView;

    open spec fn deep_view(&self) -> InputItemView {
        match self {
            InputItem::Text { text } => InputItemView::Text { text: text@ },
            InputItem::LocalImage { path } => InputItemView::LocalImage { path: *path },
        }
    }
}

/// The type of the requests that the widget forwards of its own accord. It forwards none, and a
/// value of this type is never made.
#[derive(Debug, PartialEq, Eq)]
pub struct NoRequest {
    never: (),
}

/// A request to the agent. `T` is the type of the requests that the widget only forwards.
#[derive(Debug, PartialEq, Eq)]
pub enum AnyOp<T> {
    /// Abort the current task.
    Interrupt,
    /// Shut the agent down.
    Shutdown,
    /// Input from the user.
    UserInput { items: Vec<InputItem> },
    /// Append an entry to the message history that outlives the session.
    AddToHistory { text: String },
    /// A request that somebody else makes, such as the user's answer to a question.
    Forwarded(T),
}

/// A request, its texts as sequences of characters.
pub enum AnyOpView<T> {
    Interrupt,
    Shutdown,
    UserInput { items: Seq<InputItemView> },
    AddToHistory { text: Seq<char> },
    Forwarded(T),
}

/// A request that the widget makes itself.
pub type Op = AnyOp<NoRequest>;

/// A request that the widget makes itself, its texts as sequences of characters.
pub type OpView = AnyOpView<NoRequest>;

impl<T> DeepView for AnyOp<T> {
    type V = AnyOpView<T>;

    open spec fn deep_view(&self) -> AnyOpView<T> {
        match self {
            AnyOp::Interrupt => AnyOpView::Interrupt,
            AnyOp::Shutdown => AnyOpView::Shutdown,
            AnyOp::UserInput { items } => AnyOpView::UserInput { items: items.deep_view() },
            AnyOp::AddToHistory { text } => AnyOpView::AddToHistory { text: text@ },
            AnyOp::Forwarded(request) => AnyOpView::Forwarded(*request),
        }
    }
}

} // verus!
