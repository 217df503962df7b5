//! The chat widget: its state, and what it does with events, keys and messages.
use std::path::PathBuf;

use vstd::hash_map::StringHashMap;
use vstd::prelude::*;
use vstd::string::*;

use crate::app_event::{AppEvent, Line, LineStyle, LineView, VscodeSelectionInfo};
use crate::context::{EventContext, PatchMirror, ProposedPatch};
use crate::effect::{
    emit, AnyEffect, AnyEffectView, ApprovalRequest, CommandOutput, Effect, EffectView,
    HistoryCell, HistoryCellView, PaneCall, PaneCallView, PatchEventType, RowCall,
};
use crate::ipc::{advertised_path, ipc_path_from_marker};
use crate::json::{json_model, json_text, render_json};
use crate::laws::{editor_lines, law_editor_is_told_where_it_listens, message_for};
use crate::layout::{split_rows, stacked, Rect};
use crate::payload::{
    exec_patch_members, exec_patch_payload, patch_applied_members, patch_applied_payload,
    patch_request_members, patch_request_payload, turn_diff_members, turn_diff_payload,
};
use crate::protocol::{
    add_token_usage, no_usage, usage_fits, AnyOp, ChangedFile, Event, EventMsg, Op, TokenUsage,
};
use crate::selection::selection_context;
use crate::transition::{
    fits_on_a_line, header_line, plain_line, plain_lines, redraw, CancellationEvent,
    RunningCommandView, StreamKind, WidgetView,
};
use crate::user_message::{create_initial_user_message, initial_message, UserMessage};

verus! {

/// A command that is being run.
#[derive(Debug, PartialEq, Eq)]
pub struct RunningCommand {
    pub command: Vec<String>,
    pub cwd: PathBuf,
}

impl DeepView for RunningCommand {
    type V = RunningCommandView;

    open spec fn deep_view(&self) -> RunningCommandView {
        RunningCommandView { command: self.command.deep_view(), cwd: self.cwd }
    }
}

/// What a key did in the composer.
#[derive(Debug, PartialEq, Eq)]
pub enum InputResult {
    Submitted(String),
    NotSubmitted,
}

/// What became of a key.
#[derive(Clone, Copy, Debug, PartialEq, Eq, Structural)]
pub enum KeyEventKind {
    Press,
    Repeat,
    Release,
}

/// The chat widget. `WidgetView` is what it holds.
pub struct ChatWidget {
    active_history_cell: Option<HistoryCell>,
    initial_user_message: Option<UserMessage>,
    total_token_usage: TokenUsage,
    last_token_usage: TokenUsage,
    reasoning_buffer: String,
    content_buffer: String,
    answer_buffer: String,
    running_commands: StringHashMap<RunningCommand>,
    current_stream: Option<StreamKind>,
    stream_header_emitted: bool,
    live_max_rows: u16,
    vscode_selection: Option<VscodeSelectionInfo>,
    model_context_window: Option<u64>,
    ipc_connected: bool,
}

impl View for ChatWidget {
    type V = WidgetView;

    closed spec fn view(&self) -> WidgetView {
        WidgetView {
            active_history_cell: self.active_history_cell.deep_view(),
            initial_user_message: self.initial_user_message.deep_view(),
            total_token_usage: self.total_token_usage,
            last_token_usage: self.last_token_usage,
            reasoning_buffer: self.reasoning_buffer@,
            content_buffer: self.content_buffer@,
            answer_buffer: self.answer_buffer@,
            running_commands: self.running_commands@.map_values(
                |c: RunningCommand| c.deep_view(),
            ),
            current_stream: self.current_stream,
            stream_header_emitted: self.stream_header_emitted,
            live_max_rows: self.live_max_rows,
            vscode_selection: self.vscode_selection.deep_view(),
            model_context_window: self.model_context_window,
            ipc_connected: self.ipc_connected,
        }
    }
}

/// The width of the rows into which the text of a stream is wrapped.
pub const LIVE_ROW_WIDTH: usize = 80;

// ---------------------------------------------------------------------------
// Helpers
// ---------------------------------------------------------------------------

fn same_kind(stream: Option<StreamKind>, kind: StreamKind) -> (r: bool)
    ensures
        r == (stream == Some(kind)),
{
    match stream {
        Some(current) => current == kind,
        None => false,
    }
}

fn header_for(kind: StreamKind) -> (r: Line)
    ensures
        r.deep_view() == header_line(kind),
{
    match kind {
        StreamKind::Reasoning => Line {
            text: "thinking".to_string(),
            style: LineStyle::MagentaItalic,
        },
        StreamKind::Answer => Line { text: "codex".to_string(), style: LineStyle::MagentaBold },
    }
}

fn add_line(lines: &mut Vec<Line>, line: Line)
    ensures
        final(lines).deep_view() == old(lines).deep_view().push(line.deep_view()),
{
    lines.push(line);
    assert(lines.deep_view() =~= old(lines).deep_view().push(line.deep_view()));
}

fn add_rows(lines: &mut Vec<Line>, rows: Vec<String>)
    ensures
        final(lines).deep_view() == old(lines).deep_view() + plain_lines(rows.deep_view()),
{
    let ghost view = rows.deep_view();
    let ghost start = lines.deep_view();
    assert(plain_lines(view.take(0)) =~= Seq::empty());
    for row in it: rows
        invariant
            it.seq() == rows@,
            view == rows.deep_view(),
            start == old(lines).deep_view(),
            lines.deep_view() =~= start + plain_lines(view.take(it.index())),
    {
        let ghost k = it.index();
        add_line(lines, Line { text: row, style: LineStyle::Plain });
        proof {
            assert(view.take(k + 1) =~= view.take(k).push(row@));
            assert(plain_lines(view.take(k + 1)) =~= plain_lines(view.take(k)).push(
                plain_line(row@),
            ));
        }
    }
    assert(view.take(view.len() as int) =~= view);
}

/// A copy of a command.
fn copy_command(command: &Vec<String>) -> (r: Vec<String>)
    ensures
        r.deep_view() == command.deep_view(),
{
    let r = command.clone();
    assert(r.deep_view() =~= command.deep_view());
    r
}

// ---------------------------------------------------------------------------
// Streams
// ---------------------------------------------------------------------------

impl ChatWidget {
    /// Asks for a redraw.
    pub fn request_redraw(&self, out: &mut Vec<Effect>)
        ensures
            final(out).deep_view() == old(out).deep_view().push(redraw()),
    {
        emit(out, Effect::App(AppEvent::RequestRedraw));
    }

    /// Appends an entry to the history.
    pub fn add_to_history(&self, cell: HistoryCell, out: &mut Vec<Effect>)
        ensures
            final(out).deep_view() == old(out).deep_view().push(
                EffectView::History(cell.deep_view()),
            ),
    {
        emit(out, Effect::History(cell));
    }

    /// Shows the header of a stream unless it has been shown.
    fn emit_stream_header(&mut self, kind: StreamKind, out: &mut Vec<Effect>)
        ensures
            final(self)@ == old(self)@.emit_stream_header(kind).state,
            final(out).deep_view() == old(out).deep_view() + old(self)@.emit_stream_header(
                kind,
            ).effects,
    {
        if self.stream_header_emitted {
            return;
        }
        let mut lines: Vec<Line> = Vec::new();
        add_line(&mut lines, header_for(kind));
        assert(lines.deep_view() =~= seq![header_line(kind)]);
        emit(out, Effect::App(AppEvent::InsertHistory(lines)));
        self.stream_header_emitted = true;
    }

    /// Ends a stream of this kind, if there is one. `remaining` holds the rows that were taken
    /// out of the builder.
    pub fn finalize_stream(
        &mut self,
        kind: StreamKind,
        remaining: Vec<String>,
        out: &mut Vec<Effect>,
    )
        ensures
            final(self)@ == old(self)@.finalize_stream(kind, remaining.deep_view()).state,
            final(out).deep_view() == old(out).deep_view() + old(self)@.finalize_stream(
                kind,
                remaining.deep_view(),
            ).effects,
    {
        if !same_kind(self.current_stream, kind) {
            return;
        }
        if remaining.len() > 0 || !self.stream_header_emitted {
            let ghost rows = remaining.deep_view();
            let mut lines: Vec<Line> = Vec::new();
            let ghost mut header: Seq<LineView> = Seq::empty();
            if !self.stream_header_emitted {
                add_line(&mut lines, header_for(kind));
                proof {
                    header = seq![header_line(kind)];
                }
            }
            assert(lines.deep_view() =~= header);
            add_rows(&mut lines, remaining);
            add_line(&mut lines, Line { text: "".to_string(), style: LineStyle::Plain });
            assert(lines.deep_view() =~= header + plain_lines(rows) + seq![plain_line(""@)]);
            emit(out, Effect::App(AppEvent::InsertHistory(lines)));
        }
        emit(out, Effect::Pane(PaneCall::ClearLiveRing));
        self.current_stream = None;
        self.stream_header_emitted = false;
    }

    /// Ends the stream, if there is one.
    pub fn finalize_active_stream(&mut self, remaining: Vec<String>, out: &mut Vec<Effect>)
        ensures
            final(self)@ == old(self)@.finalize_active_stream(remaining.deep_view()).state,
            final(out).deep_view() == old(out).deep_view() + old(self)@.finalize_active_stream(
                remaining.deep_view(),
            ).effects,
    {
        if let Some(kind) = self.current_stream {
            self.finalize_stream(kind, remaining, out);
        }
    }

    /// Starts a stream of this kind, unless it is running. `remaining` holds the rows that were
    /// taken out of the builder if a stream of the other kind ends.
    pub fn begin_stream(&mut self, kind: StreamKind, remaining: Vec<String>, out: &mut Vec<Effect>)
        ensures
            final(self)@ == old(self)@.begin_stream(kind, remaining.deep_view()).state,
            final(out).deep_view() == old(out).deep_view() + old(self)@.begin_stream(
                kind,
                remaining.deep_view(),
            ).effects,
    {
        if let Some(current) = self.current_stream {
            if current != kind {
                self.finalize_stream(current, remaining, out);
            }
        }
        if !same_kind(self.current_stream, kind) {
            self.current_stream = Some(kind);
            self.stream_header_emitted = false;
            emit(out, Effect::Pane(PaneCall::UpdateStatusText("waiting for model".to_string())));
            self.emit_stream_header(kind, out);
        }
    }

    /// Shows the rows of the builder after text was appended: those that overflowed go to the
    /// history, the others are shown live.
    fn stream_push_and_maybe_commit(
        &mut self,
        drained: Vec<String>,
        rows: Vec<String>,
        out: &mut Vec<Effect>,
    )
        ensures
            final(self)@ == old(self)@.push_rows(drained.deep_view(), rows.deep_view()).state,
            final(out).deep_view() == old(out).deep_view() + old(self)@.push_rows(
                drained.deep_view(),
                rows.deep_view(),
            ).effects,
    {
        if drained.len() > 0 {
            let ghost overflow = drained.deep_view();
            let mut lines: Vec<Line> = Vec::new();
            let ghost mut header: Seq<LineView> = Seq::empty();
            if !self.stream_header_emitted {
                if let Some(kind) = self.current_stream {
                    add_line(&mut lines, header_for(kind));
                    proof {
                        header = seq![header_line(kind)];
                    }
                }
                self.stream_header_emitted = true;
            }
            assert(lines.deep_view() =~= header);
            add_rows(&mut lines, drained);
            assert(lines.deep_view() =~= header + plain_lines(overflow));
            emit(out, Effect::App(AppEvent::InsertHistory(lines)));
        }
        let mut live: Vec<Line> = Vec::new();
        let ghost shown = rows.deep_view();
        add_rows(&mut live, rows);
        assert(live.deep_view() =~= plain_lines(shown));
        emit(
            out,
            Effect::Pane(PaneCall::SetLiveRingRows { max_rows: self.live_max_rows, rows: live }),
        );
    }
}

// ---------------------------------------------------------------------------
// Messages of the user
// ---------------------------------------------------------------------------

impl ChatWidget {
    /// Submits a message.
    pub fn submit_user_message(&self, user_message: UserMessage, out: &mut Vec<Effect>)
        ensures
            final(out).deep_view() == old(out).deep_view() + self@.submit_user_message(
                user_message.deep_view(),
            ),
    {
        let text = user_message.text.clone();
        let items = user_message.into_items();
        assert(items.deep_view().len() == items@.len());
        if items.is_empty() {
            return;
        }
        emit(out, Effect::Op(Op::UserInput { items }));
        if !text.as_str().is_empty() {
            emit(out, Effect::Op(Op::AddToHistory { text: text.clone() }));
            self.add_to_history(HistoryCell::UserPrompt(text), out);
        }
    }

    /// Submits what the user has typed, together with the editor's selection, which is not shown.
    fn submit_typed(&self, text: String, out: &mut Vec<Effect>)
        ensures
            final(out).deep_view() == old(out).deep_view() + self@.submit_typed(text@),
    {
        let mut message = UserMessage::from(text);
        message.extra_text = selection_context(&self.vscode_selection);
        self.submit_user_message(message, out);
    }

    /// Submits a text as if it had been typed in the composer: it goes to the agent together with
    /// the editor's selection, and is added to the conversation's history. An empty text is
    /// dropped.
    pub fn submit_text_message(&self, text: String) -> (r: Vec<Effect>)
        ensures
            r.deep_view() == (if text@.len() == 0 {
                Seq::empty()
            } else {
                self@.submit_typed(text@)
            }),
    {
        let mut out: Vec<Effect> = Vec::new();
        assert(out.deep_view() =~= Seq::empty());
        if !text.as_str().is_empty() {
            self.submit_typed(text, &mut out);
            assert(out.deep_view() =~= self@.submit_typed(text@));
        }
        out
    }

    /// What is to be done before a key goes to the pane: the hint how to quit disappears when a
    /// key is pressed.
    pub fn before_key_event(&self, kind: KeyEventKind) -> (r: Vec<Effect>)
        ensures
            r.deep_view() == (if kind == KeyEventKind::Press {
                seq![EffectView::Pane(PaneCallView::ClearCtrlCQuitHint)]
            } else {
                Seq::empty()
            }),
    {
        let mut out: Vec<Effect> = Vec::new();
        assert(out.deep_view() =~= Seq::empty());
        if kind == KeyEventKind::Press {
            emit(&mut out, Effect::Pane(PaneCall::ClearCtrlCQuitHint));
        }
        out
    }

    /// Takes what the pane made of a key. A text that the user submits goes to the agent together
    /// with the editor's selection, which is not shown.
    pub fn handle_key_event(&self, result: InputResult) -> (r: Vec<Effect>)
        ensures
            r.deep_view() == (match result {
                InputResult::Submitted(text) => self@.submit_typed(text@),
                InputResult::NotSubmitted => Seq::empty(),
            }),
    {
        let mut out: Vec<Effect> = Vec::new();
        assert(out.deep_view() =~= Seq::empty());
        match result {
            InputResult::Submitted(text) => {
                self.submit_typed(text, &mut out);
                assert(out.deep_view() =~= self@.submit_typed(text@));
            },
            InputResult::NotSubmitted => {},
        }
        out
    }

    /// Hands pasted text to the pane.
    pub fn handle_paste(&self, text: String) -> (r: Vec<Effect>)
        ensures
            r.deep_view() == seq![EffectView::Pane(PaneCallView::HandlePaste(text@))],
    {
        let mut out: Vec<Effect> = Vec::new();
        assert(out.deep_view() =~= Seq::empty());
        emit(&mut out, Effect::Pane(PaneCall::HandlePaste(text)));
        out
    }

    /// Takes the editor's selection, or that there is none, and updates the hint about it.
    pub fn set_vscode_selection(&mut self, sel: Option<VscodeSelectionInfo>) -> (r: Vec<Effect>)
        ensures
            final(self)@ == old(self)@.set_vscode_selection(sel.deep_view()).state,
            r.deep_view() == old(self)@.set_vscode_selection(sel.deep_view()).effects,
    {
        let mut out: Vec<Effect> = Vec::new();
        assert(out.deep_view() =~= Seq::empty());
        let lines: Option<usize> = match &sel {
            Some(s) => {
                if s.lines > 0 {
                    Some(s.lines)
                } else {
                    None
                }
            },
            None => None,
        };
        let rel_path: Option<String> = match &sel {
            Some(s) => match &s.rel_path {
                Some(path) => Some(path.clone()),
                None => None,
            },
            None => None,
        };
        emit(&mut out, Effect::Pane(PaneCall::SetVscodeSelectionHint { lines, rel_path }));
        self.vscode_selection = sel;
        out
    }
}

// ---------------------------------------------------------------------------
// Cancelling
// ---------------------------------------------------------------------------

impl ChatWidget {
    fn drop_stream(&mut self)
        ensures
            final(self)@ == old(self)@.without_stream(),
    {
        self.current_stream = None;
        self.stream_header_emitted = false;
        self.answer_buffer = String::new();
        self.reasoning_buffer = String::new();
        self.content_buffer = String::new();
    }

    /// Interrupts the task, if one is running.
    pub fn interrupt_running_task(&mut self, task_running: bool, out: &mut Vec<Effect>)
        ensures
            final(self)@ == old(self)@.interrupt(task_running).state,
            final(out).deep_view() == old(out).deep_view() + old(self)@.interrupt(
                task_running,
            ).effects,
    {
        if task_running {
            self.active_history_cell = None;
            emit(out, Effect::Pane(PaneCall::ClearCtrlCQuitHint));
            emit(out, Effect::Op(Op::Interrupt));
            emit(out, Effect::Pane(PaneCall::SetTaskRunning(false)));
            emit(out, Effect::Pane(PaneCall::ClearLiveRing));
            emit(out, Effect::ResetRows);
            self.drop_stream();
            self.request_redraw(out);
        }
    }

    /// Takes the escape key. It is used up if it interrupts a task.
    pub fn on_esc(&mut self, task_running: bool) -> (r: (bool, Vec<Effect>))
        ensures
            r.0 == task_running,
            final(self)@ == old(self)@.interrupt(task_running).state,
            r.1.deep_view() == old(self)@.interrupt(task_running).effects,
    {
        let mut out: Vec<Effect> = Vec::new();
        assert(out.deep_view() =~= Seq::empty());
        self.interrupt_running_task(task_running, &mut out);
        assert(out.deep_view() =~= old(self)@.interrupt(task_running).effects);
        (task_running, out)
    }

    /// Takes Ctrl-Z, which interrupts the task.
    pub fn on_ctrl_z(&mut self, task_running: bool) -> (r: Vec<Effect>)
        ensures
            final(self)@ == old(self)@.interrupt(task_running).state,
            r.deep_view() == old(self)@.interrupt(task_running).effects,
    {
        let mut out: Vec<Effect> = Vec::new();
        assert(out.deep_view() =~= Seq::empty());
        self.interrupt_running_task(task_running, &mut out);
        assert(out.deep_view() =~= old(self)@.interrupt(task_running).effects);
        out
    }

    /// Takes Ctrl-C, which the pane has seen first; `task_running` and `hint_visible` tell how
    /// the pane is after that. A task is interrupted. Without one, the first time shows a hint,
    /// and the second time shuts the agent down.
    ///
    /// Returns `CancellationEvent::Handled` if the key was used up, here or by the pane, or
    /// `CancellationEvent::Ignored` if the caller should deal with it, for example by exiting.
    /// Each of the above uses the key up, so nothing is left to the caller.
    pub fn on_ctrl_c(
        &mut self,
        pane_result: CancellationEvent,
        task_running: bool,
        hint_visible: bool,
    ) -> (r: (CancellationEvent, Vec<Effect>))
        ensures
            r.0 == CancellationEvent::Handled,
            final(self)@ == old(self)@.ctrl_c(pane_result, task_running, hint_visible).state,
            r.1.deep_view() == old(self)@.ctrl_c(pane_result, task_running, hint_visible).effects,
    {
        let mut out: Vec<Effect> = Vec::new();
        assert(out.deep_view() =~= Seq::empty());
        match pane_result {
            CancellationEvent::Handled => {
                return (CancellationEvent::Handled, out);
            },
            CancellationEvent::Ignored => {},
        }
        if task_running {
            self.interrupt_running_task(true, &mut out);
        } else if hint_visible {
            emit(&mut out, Effect::Op(Op::Shutdown));
        } else {
            emit(&mut out, Effect::Pane(PaneCall::ShowCtrlCQuitHint));
        }
        assert(out.deep_view() =~= old(self)@.ctrl_c(
            pane_result,
            task_running,
            hint_visible,
        ).effects);
        (CancellationEvent::Handled, out)
    }
}

// ---------------------------------------------------------------------------
// Events of the agent
// ---------------------------------------------------------------------------

impl ChatWidget {
    /// Sends a message to the editor, if there is a channel to it.
    pub fn write_proposed_patch_json(&self, payload: serde_json::Value, out: &mut Vec<Effect>)
        ensures
            final(out).deep_view() == old(out).deep_view() + (if self@.ipc_connected {
                seq![EffectView::Ipc(json_text(json_model(payload)))]
            } else {
                Seq::empty()
            }),
            self@.ipc_connected ==> !json_text(json_model(payload)).contains('\n'),
    {
        if self.ipc_connected {
            emit(out, Effect::Ipc(render_json(&payload)));
        }
    }

    fn on_session_configured(&mut self, log_id: u64, entry_count: usize, out: &mut Vec<Effect>)
        ensures
            final(self)@ == old(self)@.session_configured(log_id, entry_count).state,
            final(out).deep_view() == old(out).deep_view() + old(self)@.session_configured(
                log_id,
                entry_count,
            ).effects,
    {
        emit(out, Effect::Pane(PaneCall::SetHistoryMetadata { log_id, entry_count }));
        self.add_to_history(HistoryCell::SessionInfo, out);
        let initial = self.initial_user_message.take();
        if let Some(user_message) = initial {
            self.submit_user_message(user_message, out);
        }
        self.request_redraw(out);
        assert(out.deep_view() =~= old(out).deep_view() + old(self)@.session_configured(
            log_id,
            entry_count,
        ).effects);
    }

    fn on_delta(
        &mut self,
        kind: StreamKind,
        delta: String,
        ctx: EventContext,
        out: &mut Vec<Effect>,
    )
        ensures
            final(self)@ == old(self)@.stream_delta(kind, delta@, ctx.deep_view()).state,
            final(out).deep_view() == old(out).deep_view() + old(self)@.stream_delta(
                kind,
                delta@,
                ctx.deep_view(),
            ).effects,
    {
        let ghost view = ctx.deep_view();
        let EventContext { remaining, drained, rows, .. } = ctx;
        self.begin_stream(kind, remaining, out);
        match kind {
            StreamKind::Answer => self.answer_buffer.append(delta.as_str()),
            StreamKind::Reasoning => self.reasoning_buffer.append(delta.as_str()),
        }
        self.stream_push_and_maybe_commit(drained, rows, out);
        self.request_redraw(out);
        assert(out.deep_view() =~= old(out).deep_view() + old(self)@.stream_delta(
            kind,
            delta@,
            view,
        ).effects);
    }

    fn is_unstreamed(&self, message: &str) -> (r: bool)
        ensures
            r == self@.is_unstreamed(message@),
    {
        !message.is_empty() && self.answer_buffer.as_str().is_empty() && !same_kind(
            self.current_stream,
            StreamKind::Answer,
        )
    }

    fn on_final_answer(&mut self, message: String, ctx: EventContext, out: &mut Vec<Effect>)
        ensures
            final(self)@ == old(self)@.final_answer(message@, ctx.deep_view()).state,
            final(out).deep_view() == old(out).deep_view() + old(self)@.final_answer(
                message@,
                ctx.deep_view(),
            ).effects,
    {
        let ghost view = ctx.deep_view();
        let EventContext { remaining, rows, .. } = ctx;
        if self.is_unstreamed(message.as_str()) {
            self.finalize_active_stream(remaining, out);
            let mut lines: Vec<Line> = Vec::new();
            add_line(&mut lines, header_for(StreamKind::Answer));
            add_rows(&mut lines, rows);
            add_line(&mut lines, Line { text: "".to_string(), style: LineStyle::Plain });
            assert(lines.deep_view() =~= seq![header_line(StreamKind::Answer)] + plain_lines(
                view.rows,
            ).push(plain_line(""@)));
            emit(out, Effect::App(AppEvent::InsertHistory(lines)));
        } else {
            self.finalize_stream(StreamKind::Answer, remaining, out);
        }
        self.answer_buffer = String::new();
        self.request_redraw(out);
        assert(out.deep_view() =~= old(out).deep_view() + old(self)@.final_answer(
            message@,
            view,
        ).effects);
    }

    fn on_token_count(&mut self, usage: TokenUsage, out: &mut Vec<Effect>)
        requires
            usage_fits(old(self)@.total_token_usage, usage),
        ensures
            final(self)@ == old(self)@.token_count(usage).state,
            final(out).deep_view() == old(out).deep_view() + old(self)@.token_count(usage).effects,
    {
        self.total_token_usage = add_token_usage(&self.total_token_usage, &usage);
        self.last_token_usage = usage;
        emit(
            out,
            Effect::Pane(
                PaneCall::SetTokenUsage {
                    total: self.total_token_usage,
                    last: self.last_token_usage,
                    context_window: self.model_context_window,
                },
            ),
        );
    }

    fn on_error(&mut self, message: String, out: &mut Vec<Effect>)
        ensures
            final(self)@ == old(self)@.error(message@).state,
            final(out).deep_view() == old(out).deep_view() + old(self)@.error(message@).effects,
    {
        self.add_to_history(HistoryCell::ErrorEvent(message), out);
        emit(out, Effect::Pane(PaneCall::SetTaskRunning(false)));
        emit(out, Effect::Pane(PaneCall::ClearLiveRing));
        emit(out, Effect::ResetRows);
        self.drop_stream();
        self.request_redraw(out);
    }

    fn on_exec_approval(
        &mut self,
        id: String,
        command: Vec<String>,
        cwd: PathBuf,
        reason: Option<String>,
        ctx: EventContext,
        out: &mut Vec<Effect>,
    )
        ensures
            final(self)@ == old(self)@.exec_approval(
                id@,
                command.deep_view(),
                cwd,
                reason.deep_view(),
                ctx.deep_view(),
            ).state,
            final(out).deep_view() == old(out).deep_view() + old(self)@.exec_approval(
                id@,
                command.deep_view(),
                cwd,
                reason.deep_view(),
                ctx.deep_view(),
            ).effects,
            old(self)@.ipc_connected && ctx.extension_active ==> (match ctx.proposal.deep_view() {
                Some(patch) => fits_on_a_line(exec_patch_members(patch.changes, patch.cwd)),
                None => true,
            }),
    {
        let ghost view = ctx.deep_view();
        let EventContext { remaining, extension_active, proposal, .. } = ctx;
        self.finalize_active_stream(remaining, out);
        if extension_active {
            if let Some(patch) = proposal {
                let ProposedPatch { changes, cwd: directory } = patch;
                self.write_proposed_patch_json(exec_patch_payload(changes, directory), out);
            }
        }
        emit(
            out,
            Effect::Pane(
                PaneCall::PushApprovalRequest(ApprovalRequest::Exec { id, command, cwd, reason }),
            ),
        );
        self.request_redraw(out);
        assert(out.deep_view() =~= old(out).deep_view() + old(self)@.exec_approval(
            id@,
            command.deep_view(),
            cwd,
            reason.deep_view(),
            view,
        ).effects);
    }

    fn on_patch_approval(
        &mut self,
        id: String,
        call_id: String,
        changes: Vec<ChangedFile>,
        reason: Option<String>,
        grant_root: Option<PathBuf>,
        ctx: EventContext,
        out: &mut Vec<Effect>,
    )
        ensures
            final(self)@ == old(self)@.patch_approval(
                id@,
                call_id@,
                changes.deep_view(),
                reason.deep_view(),
                grant_root,
                ctx.deep_view(),
            ).state,
            final(out).deep_view() == old(out).deep_view() + old(self)@.patch_approval(
                id@,
                call_id@,
                changes.deep_view(),
                reason.deep_view(),
                grant_root,
                ctx.deep_view(),
            ).effects,
            old(self)@.ipc_connected && ctx.extension_active ==> (match ctx.mirror.deep_view() {
                Some(patch) => fits_on_a_line(
                    patch_request_members(
                        call_id@,
                        patch.changes,
                        reason.deep_view(),
                        patch.grant_root,
                    ),
                ),
                None => true,
            }),
    {
        let ghost view = ctx.deep_view();
        let EventContext { remaining, extension_active, mirror, .. } = ctx;
        self.finalize_active_stream(remaining, out);
        if extension_active {
            if let Some(patch) = mirror {
                let PatchMirror { changes: json, grant_root: directory } = patch;
                let shown_reason = reason.clone();
                self.write_proposed_patch_json(
                    patch_request_payload(call_id, json, shown_reason, directory),
                    out,
                );
            }
        }
        self.add_to_history(
            HistoryCell::PatchEvent { event_type: PatchEventType::ApprovalRequest, changes },
            out,
        );
        emit(
            out,
            Effect::Pane(
                PaneCall::PushApprovalRequest(
                    ApprovalRequest::ApplyPatch { id, reason, grant_root },
                ),
            ),
        );
        self.request_redraw(out);
        assert(out.deep_view() =~= old(out).deep_view() + old(self)@.patch_approval(
            id@,
            call_id@,
            changes.deep_view(),
            reason.deep_view(),
            grant_root,
            view,
        ).effects);
    }

    fn on_exec_begin(
        &mut self,
        call_id: String,
        command: Vec<String>,
        cwd: PathBuf,
        ctx: EventContext,
        out: &mut Vec<Effect>,
    )
        ensures
            final(self)@ == old(self)@.exec_begin(
                call_id@,
                command.deep_view(),
                cwd,
                ctx.deep_view(),
            ).state,
            final(out).deep_view() == old(out).deep_view() + old(self)@.exec_begin(
                call_id@,
                command.deep_view(),
                cwd,
                ctx.deep_view(),
            ).effects,
    {
        let ghost view = ctx.deep_view();
        let EventContext { remaining, .. } = ctx;
        self.finalize_active_stream(remaining, out);
        emit(out, Effect::Pane(PaneCall::UpdateStatusText("running command".to_string())));
        let ghost before = self@;
        let running = RunningCommand { command: copy_command(&command), cwd };
        self.running_commands.insert(call_id, running);
        assert(self@.running_commands =~= before.running_commands.insert(
            call_id@,
            running.deep_view(),
        ));
        self.active_history_cell = Some(HistoryCell::ActiveExecCommand(command));
        assert(out.deep_view() =~= old(out).deep_view() + old(self)@.exec_begin(
            call_id@,
            command.deep_view(),
            cwd,
            view,
        ).effects);
    }

    fn on_exec_end(&mut self, call_id: String, output: CommandOutput, out: &mut Vec<Effect>)
        ensures
            final(self)@ == old(self)@.exec_end(call_id@, output.deep_view()).state,
            final(out).deep_view() == old(out).deep_view() + old(self)@.exec_end(
                call_id@,
                output.deep_view(),
            ).effects,
    {
        let known = match self.running_commands.get(call_id.as_str()) {
            Some(running) => Some(copy_command(&running.command)),
            None => None,
        };
        self.running_commands.remove(call_id.as_str());
        assert(self@.running_commands =~= old(self)@.running_commands.remove(call_id@));
        self.active_history_cell = None;
        let command: Vec<String> = match known {
            Some(command) => command,
            None => {
                let mut command: Vec<String> = Vec::new();
                command.push(call_id);
                assert(command.deep_view() =~= seq![call_id@]);
                command
            },
        };
        self.add_to_history(HistoryCell::CompletedExecCommand { command, output }, out);
    }

    fn on_patch_apply_end(
        &mut self,
        call_id: String,
        stderr: String,
        success: bool,
        ctx: EventContext,
        out: &mut Vec<Effect>,
    )
        ensures
            final(self)@ == old(self)@.patch_apply_end(
                call_id@,
                stderr@,
                success,
                ctx.deep_view(),
            ).state,
            final(out).deep_view() == old(out).deep_view() + old(self)@.patch_apply_end(
                call_id@,
                stderr@,
                success,
                ctx.deep_view(),
            ).effects,
            old(self)@.ipc_connected && ctx.extension_active ==> fits_on_a_line(
                patch_applied_members(success, call_id@),
            ),
    {
        if !success {
            self.add_to_history(HistoryCell::PatchApplyFailure(stderr), out);
        }
        if ctx.extension_active {
            self.write_proposed_patch_json(patch_applied_payload(success, call_id), out);
        }
        assert(out.deep_view() =~= old(out).deep_view() + old(self)@.patch_apply_end(
            call_id@,
            stderr@,
            success,
            ctx.deep_view(),
        ).effects);
    }

    fn on_task_started(&self, out: &mut Vec<Effect>)
        ensures
            final(out).deep_view() == old(out).deep_view() + self@.task_started().effects,
    {
        emit(out, Effect::Pane(PaneCall::ClearCtrlCQuitHint));
        emit(out, Effect::Pane(PaneCall::SetTaskRunning(true)));
        emit(out, Effect::Pane(PaneCall::UpdateStatusText("waiting for model".to_string())));
        self.request_redraw(out);
        assert(out.deep_view() =~= old(out).deep_view() + self@.task_started().effects);
    }

    fn on_task_complete(&self, out: &mut Vec<Effect>)
        ensures
            final(out).deep_view() == old(out).deep_view() + self@.task_complete().effects,
    {
        emit(out, Effect::Pane(PaneCall::SetTaskRunning(false)));
        emit(out, Effect::Pane(PaneCall::ClearLiveRing));
        self.request_redraw(out);
        assert(out.deep_view() =~= old(out).deep_view() + self@.task_complete().effects);
    }

    fn on_final_reasoning(&mut self, ctx: EventContext, out: &mut Vec<Effect>)
        ensures
            final(self)@ == old(self)@.final_reasoning(ctx.deep_view()).state,
            final(out).deep_view() == old(out).deep_view() + old(self)@.final_reasoning(
                ctx.deep_view(),
            ).effects,
    {
        let ghost view = ctx.deep_view();
        let EventContext { remaining, .. } = ctx;
        self.finalize_stream(StreamKind::Reasoning, remaining, out);
        self.request_redraw(out);
        assert(out.deep_view() =~= old(out).deep_view() + old(self)@.final_reasoning(view).effects);
    }

    fn on_tool_call_begin(&mut self, ctx: EventContext, out: &mut Vec<Effect>)
        ensures
            final(self)@ == old(self)@.tool_call_begin(ctx.deep_view()).state,
            final(out).deep_view() == old(out).deep_view() + old(self)@.tool_call_begin(
                ctx.deep_view(),
            ).effects,
    {
        let ghost view = ctx.deep_view();
        let EventContext { remaining, .. } = ctx;
        self.finalize_active_stream(remaining, out);
        self.add_to_history(HistoryCell::ActiveMcpToolCall, out);
        assert(out.deep_view() =~= old(out).deep_view() + old(self)@.tool_call_begin(view).effects);
    }

    fn on_tool_call_end(&self, result: Option<Option<bool>>, out: &mut Vec<Effect>)
        ensures
            final(out).deep_view() == old(out).deep_view() + self@.tool_call_end(result).effects,
    {
        let is_error = match result {
            Some(Some(flag)) => flag,
            _ => false,
        };
        self.add_to_history(HistoryCell::CompletedMcpToolCall { num_cols: 80, is_error }, out);
        assert(out.deep_view() =~= old(out).deep_view() + self@.tool_call_end(result).effects);
    }

    fn on_turn_diff(&self, unified_diff: String, ctx: EventContext, out: &mut Vec<Effect>)
        ensures
            final(out).deep_view() == old(out).deep_view() + self@.turn_diff(
                unified_diff@,
                ctx.deep_view(),
            ).effects,
            self@.ipc_connected && ctx.extension_active ==> fits_on_a_line(
                turn_diff_members(unified_diff@),
            ),
    {
        if ctx.extension_active {
            self.write_proposed_patch_json(turn_diff_payload(unified_diff), out);
        } else {
            let mut line = "TurnDiffEvent: ".to_string();
            line.append(unified_diff.as_str());
            emit(out, Effect::Log(line));
        }
        assert(out.deep_view() =~= old(out).deep_view() + self@.turn_diff(
            unified_diff@,
            ctx.deep_view(),
        ).effects);
    }

    fn on_background_event(&self, message: String, out: &mut Vec<Effect>)
        ensures
            final(out).deep_view() == old(out).deep_view() + self@.background_event(
                message@,
            ).effects,
    {
        let mut line = "BackgroundEvent: ".to_string();
        line.append(message.as_str());
        emit(out, Effect::Log(line));
        assert(out.deep_view() =~= old(out).deep_view() + self@.background_event(message@).effects);
    }

    /// Does what an event leads to. Where the editor is told of it, the message fits on a line.
    #[verifier::spinoff_prover]
    fn react(&mut self, id: String, msg: EventMsg, ctx: EventContext, out: &mut Vec<Effect>)
        requires
            old(self)@.accepts(msg.deep_view(), ctx.deep_view()),
        ensures
            final(self)@ == old(self)@.handle(id@, msg.deep_view(), ctx.deep_view()).state,
            final(out).deep_view() == old(out).deep_view() + old(self)@.handle(
                id@,
                msg.deep_view(),
                ctx.deep_view(),
            ).effects,
            old(self)@.ipc_connected && ctx.extension_active ==> (match message_for(
                msg.deep_view(),
                ctx.deep_view(),
            ) {
                Some(members) => fits_on_a_line(members),
                None => true,
            }),
    {
        let ghost view = ctx.deep_view();
        let ghost msg_view = msg.deep_view();
        match msg {
            EventMsg::SessionConfigured { history_log_id, history_entry_count } => {
                self.on_session_configured(history_log_id, history_entry_count, out);
            },
            EventMsg::AgentMessage { message } => {
                self.on_final_answer(message, ctx, out);
            },
            EventMsg::AgentMessageDelta { delta } => {
                self.on_delta(StreamKind::Answer, delta, ctx, out);
            },
            EventMsg::AgentReasoning { text: _ } => {
                self.on_final_reasoning(ctx, out);
            },
            EventMsg::AgentReasoningDelta { delta } => {
                self.on_delta(StreamKind::Reasoning, delta, ctx, out);
            },
            EventMsg::AgentReasoningRawContent { text: _ } => {
                self.on_final_reasoning(ctx, out);
            },
            EventMsg::AgentReasoningRawContentDelta { delta } => {
                self.on_delta(StreamKind::Reasoning, delta, ctx, out);
            },
            EventMsg::TaskStarted => {
                self.on_task_started(out);
            },
            EventMsg::TaskComplete { last_agent_message: _ } => {
                self.on_task_complete(out);
            },
            EventMsg::TokenCount(usage) => {
                self.on_token_count(usage, out);
            },
            EventMsg::Error { message } => {
                self.on_error(message, out);
            },
            EventMsg::PlanUpdate => {
                self.add_to_history(HistoryCell::PlanUpdate, out);
            },
            EventMsg::ExecApprovalRequest { call_id: _, command, cwd, reason } => {
                self.on_exec_approval(id, command, cwd, reason, ctx, out);
            },
            EventMsg::ApplyPatchApprovalRequest { call_id, changes, reason, grant_root } => {
                self.on_patch_approval(id, call_id, changes, reason, grant_root, ctx, out);
            },
            EventMsg::ExecCommandBegin { call_id, command, cwd } => {
                self.on_exec_begin(call_id, command, cwd, ctx, out);
            },
            EventMsg::ExecCommandOutputDelta => {},
            EventMsg::ExecCommandEnd { call_id, exit_code, stdout, stderr } => {
                self.on_exec_end(call_id, CommandOutput { exit_code, stdout, stderr }, out);
            },
            EventMsg::PatchApplyBegin { call_id: _, auto_approved, changes } => {
                self.add_to_history(
                    HistoryCell::PatchEvent {
                        event_type: PatchEventType::ApplyBegin { auto_approved },
                        changes,
                    },
                    out,
                );
            },
            EventMsg::PatchApplyEnd { call_id, stderr, success } => {
                self.on_patch_apply_end(call_id, stderr, success, ctx, out);
            },
            EventMsg::McpToolCallBegin { call_id: _ } => {
                self.on_tool_call_begin(ctx, out);
            },
            EventMsg::McpToolCallEnd { call_id: _, result } => {
                self.on_tool_call_end(result, out);
            },
            EventMsg::GetHistoryEntryResponse { offset, log_id, entry } => {
                emit(
                    out,
                    Effect::Pane(PaneCall::OnHistoryEntryResponse { log_id, offset, entry }),
                );
            },
            EventMsg::ShutdownComplete => {
                emit(out, Effect::App(AppEvent::ExitRequest));
            },
            EventMsg::TurnDiff { unified_diff } => {
                self.on_turn_diff(unified_diff, ctx, out);
            },
            EventMsg::BackgroundEvent { message } => {
                self.on_background_event(message, out);
            },
        }
        assert(out.deep_view() =~= old(out).deep_view() + old(self)@.handle(
            id@,
            msg_view,
            view,
        ).effects);
    }

    /// Handles an event of the agent. What it sends to the editor takes one line each.
    pub fn handle_codex_event(&mut self, event: Event, ctx: EventContext) -> (r: Vec<Effect>)
        requires
            old(self)@.accepts(event.msg.deep_view(), ctx.deep_view()),
        ensures
            final(self)@ == old(self)@.handle(
                event.id@,
                event.msg.deep_view(),
                ctx.deep_view(),
            ).state,
            r.deep_view() == old(self)@.handle(
                event.id@,
                event.msg.deep_view(),
                ctx.deep_view(),
            ).effects,
            forall|i: int|
                0 <= i < editor_lines(r.deep_view()).len() ==> !(#[trigger] editor_lines(
                    r.deep_view(),
                )[i]).contains('\n'),
    {
        let ghost pre = self@;
        let ghost view = ctx.deep_view();
        let ghost msg_view = event.msg.deep_view();
        let Event { id, msg } = event;
        let mut out: Vec<Effect> = Vec::new();
        assert(out.deep_view() =~= Seq::empty());
        self.react(id, msg, ctx, &mut out);
        assert(out.deep_view() =~= pre.handle(id@, msg_view, view).effects);
        proof {
            law_editor_is_told_where_it_listens(pre, id@, msg_view, view);
        }
        out
    }

    /// The calls of the builder of live rows that an event needs. They are made in their order
    /// before the event is handled, and what they give goes into its context.
    pub fn row_calls(&self, msg: &EventMsg) -> (r: Vec<RowCall>)
        ensures
            r.deep_view() == self@.row_calls(msg.deep_view()),
    {
        let closes = match msg {
            EventMsg::AgentMessage { message } => match self.current_stream {
                Some(StreamKind::Answer) => true,
                Some(StreamKind::Reasoning) => self.is_unstreamed(message.as_str()),
                None => false,
            },
            EventMsg::AgentReasoning { .. } => same_kind(
                self.current_stream,
                StreamKind::Reasoning,
            ),
            EventMsg::AgentReasoningRawContent { .. } => same_kind(
                self.current_stream,
                StreamKind::Reasoning,
            ),
            EventMsg::AgentMessageDelta { .. } => same_kind(
                self.current_stream,
                StreamKind::Reasoning,
            ),
            EventMsg::AgentReasoningDelta { .. } => same_kind(
                self.current_stream,
                StreamKind::Answer,
            ),
            EventMsg::AgentReasoningRawContentDelta { .. } => same_kind(
                self.current_stream,
                StreamKind::Answer,
            ),
            EventMsg::ExecApprovalRequest { .. } => self.current_stream.is_some(),
            EventMsg::ApplyPatchApprovalRequest { .. } => self.current_stream.is_some(),
            EventMsg::ExecCommandBegin { .. } => self.current_stream.is_some(),
            EventMsg::McpToolCallBegin { .. } => self.current_stream.is_some(),
            _ => false,
        };
        let delta: Option<(StreamKind, String)> = match msg {
            EventMsg::AgentMessageDelta { delta } => Some((StreamKind::Answer, delta.clone())),
            EventMsg::AgentReasoningDelta { delta } => Some(
                (StreamKind::Reasoning, delta.clone()),
            ),
            EventMsg::AgentReasoningRawContentDelta { delta } => Some(
                (StreamKind::Reasoning, delta.clone()),
            ),
            _ => None,
        };
        let mut r: Vec<RowCall> = Vec::new();
        if closes {
            r.push(RowCall::EndLine);
            r.push(RowCall::DrainRows);
            r.push(RowCall::Reset);
        }
        if let EventMsg::AgentMessage { message } = msg {
            if self.is_unstreamed(message.as_str()) {
                r.push(RowCall::Reset);
                r.push(RowCall::PushFragment(message.clone()));
                r.push(RowCall::EndLine);
                r.push(RowCall::DisplayRows);
                r.push(RowCall::Reset);
            }
        }
        if let Some((kind, text)) = delta {
            if !same_kind(self.current_stream, kind) {
                r.push(RowCall::Reset);
            }
            r.push(RowCall::PushFragment(text));
            r.push(RowCall::DrainCommitReady(self.live_max_rows as usize));
            r.push(RowCall::DisplayRows);
        }
        assert(r.deep_view() =~= self@.row_calls(msg.deep_view()));
        r
    }
}

// ---------------------------------------------------------------------------
// Construction, output on request, and layout
// ---------------------------------------------------------------------------

/// The state in which the widget starts.
pub open spec fn initial_state(
    prompt: Option<Seq<char>>,
    images: Seq<PathBuf>,
    model_context_window: Option<u64>,
    marker: Option<Seq<char>>,
) -> WidgetView {
    WidgetView {
        active_history_cell: None,
        initial_user_message: initial_message(
            match prompt {
                Some(text) => text,
                None => Seq::empty(),
            },
            images,
        ),
        total_token_usage: no_usage(),
        last_token_usage: no_usage(),
        reasoning_buffer: Seq::empty(),
        content_buffer: Seq::empty(),
        answer_buffer: Seq::empty(),
        running_commands: Map::empty(),
        current_stream: None,
        stream_header_emitted: false,
        live_max_rows: 3,
        vscode_selection: None,
        model_context_window,
        ipc_connected: channel_address(marker) is Some,
    }
}

/// The address of the channel that a marker file advertises, if there is such a file.
pub open spec fn channel_address(marker: Option<Seq<char>>) -> Option<Seq<char>> {
    match marker {
        Some(text) => advertised_path(text),
        None => None,
    }
}

/// What is to be done when the widget starts: reading and writing start where a channel is
/// advertised, and the pane shows that the editor's extension is there.
pub open spec fn initial_effects(marker: Option<Seq<char>>, extension_active: bool) -> Seq<
    EffectView,
> {
    let started = match channel_address(marker) {
        Some(path) => seq![EffectView::StartIpcReader(path), EffectView::StartIpcWriter(path)],
        None => Seq::empty(),
    };
    let detected = if extension_active {
        seq![EffectView::Pane(PaneCallView::SetIdeDetected(true))]
    } else {
        Seq::empty()
    };
    started + detected
}

impl ChatWidget {
    /// A widget, and what is to be done when it starts. `marker` is the text of the file in which
    /// the editor's extension advertises its channel, if it could be read; `extension_active`
    /// tells whether there is such a file.
    pub fn new(
        initial_prompt: Option<String>,
        initial_images: Vec<PathBuf>,
        model_context_window: Option<u64>,
        marker: Option<&str>,
        extension_active: bool,
    ) -> (r: (ChatWidget, Vec<Effect>))
        ensures
            r.0@ == initial_state(
                initial_prompt.deep_view(),
                initial_images@,
                model_context_window,
                marker.deep_view(),
            ),
            r.0@.inv(),
            r.1.deep_view() == initial_effects(marker.deep_view(), extension_active),
    {
        let prompt = match initial_prompt {
            Some(text) => text,
            None => String::new(),
        };
        let ipc_path = match marker {
            Some(text) => ipc_path_from_marker(text),
            None => None,
        };
        let widget = ChatWidget {
            active_history_cell: None,
            initial_user_message: create_initial_user_message(prompt, initial_images),
            total_token_usage: TokenUsage::default(),
            last_token_usage: TokenUsage::default(),
            reasoning_buffer: String::new(),
            content_buffer: String::new(),
            answer_buffer: String::new(),
            running_commands: StringHashMap::new(),
            current_stream: None,
            stream_header_emitted: false,
            live_max_rows: 3,
            vscode_selection: None,
            model_context_window,
            ipc_connected: ipc_path.is_some(),
        };
        assert(widget@.running_commands =~= Map::empty());
        let mut out: Vec<Effect> = Vec::new();
        assert(out.deep_view() =~= Seq::empty());
        if let Some(path) = ipc_path {
            emit(&mut out, Effect::StartIpcReader(path.clone()));
            emit(&mut out, Effect::StartIpcWriter(path));
        }
        if extension_active {
            emit(&mut out, Effect::Pane(PaneCall::SetIdeDetected(true)));
        }
        assert(out.deep_view() =~= initial_effects(marker.deep_view(), extension_active));
        (widget, out)
    }

    /// Shows the latest log line while a task is running.
    pub fn update_latest_log(&self, line: String, task_running: bool) -> (r: Vec<Effect>)
        ensures
            r.deep_view() == (if task_running {
                seq![EffectView::Pane(PaneCallView::UpdateStatusText(line@))]
            } else {
                Seq::empty()
            }),
    {
        let mut out: Vec<Effect> = Vec::new();
        assert(out.deep_view() =~= Seq::empty());
        if task_running {
            emit(&mut out, Effect::Pane(PaneCall::UpdateStatusText(line)));
        }
        out
    }

    /// Shows a diff in the history.
    pub fn add_diff_output(&self, diff_output: String) -> (r: Vec<Effect>)
        ensures
            r.deep_view() == seq![EffectView::History(HistoryCellView::DiffOutput(diff_output@))],
    {
        let mut out: Vec<Effect> = Vec::new();
        assert(out.deep_view() =~= Seq::empty());
        self.add_to_history(HistoryCell::DiffOutput(diff_output), &mut out);
        out
    }

    /// Shows the status, with the tokens used so far, in the history.
    pub fn add_status_output(&self) -> (r: Vec<Effect>)
        ensures
            r.deep_view() == seq![
                EffectView::History(HistoryCellView::StatusOutput(self@.total_token_usage)),
            ],
    {
        let mut out: Vec<Effect> = Vec::new();
        assert(out.deep_view() =~= Seq::empty());
        self.add_to_history(HistoryCell::StatusOutput(self.total_token_usage), &mut out);
        out
    }

    /// Shows sample prompts in the history.
    pub fn add_prompts_output(&self) -> (r: Vec<Effect>)
        ensures
            r.deep_view() == seq![EffectView::History(HistoryCellView::PromptsOutput)],
    {
        let mut out: Vec<Effect> = Vec::new();
        assert(out.deep_view() =~= Seq::empty());
        self.add_to_history(HistoryCell::PromptsOutput, &mut out);
        out
    }

    /// Forwards a request to the agent.
    pub fn submit_op<T>(&self, op: AnyOp<T>) -> (r: Vec<AnyEffect<T>>)
        ensures
            r.deep_view() == seq![AnyEffectView::Op(op.deep_view())],
    {
        let mut out: Vec<AnyEffect<T>> = Vec::new();
        assert(out.deep_view() =~= Seq::empty());
        emit(&mut out, AnyEffect::Op(op));
        out
    }

    /// The tokens used so far.
    pub fn token_usage(&self) -> (r: &TokenUsage)
        ensures
            *r == self@.total_token_usage,
    {
        &self.total_token_usage
    }

    /// Forgets the tokens used so far. The last count stays.
    pub fn clear_token_usage(&mut self) -> (r: Vec<Effect>)
        ensures
            final(self)@ == old(self)@.clear_token_usage().state,
            r.deep_view() == old(self)@.clear_token_usage().effects,
    {
        self.total_token_usage = TokenUsage::default();
        let mut out: Vec<Effect> = Vec::new();
        assert(out.deep_view() =~= Seq::empty());
        emit(
            &mut out,
            Effect::Pane(
                PaneCall::SetTokenUsage {
                    total: self.total_token_usage,
                    last: self.last_token_usage,
                    context_window: self.model_context_window,
                },
            ),
        );
        out
    }

    /// The entry in progress, if there is one.
    pub fn active_history_cell(&self) -> (r: Option<&HistoryCell>)
        ensures
            r.deep_view() == self@.active_history_cell,
    {
        self.active_history_cell.as_ref()
    }

    fn active_cell_height(&self, cell_height: u16) -> (r: u16)
        ensures
            r == self@.active_height(cell_height),
    {
        if self.active_history_cell.is_some() {
            cell_height
        } else {
            0
        }
    }

    /// The height that the widget wants: that of the pane, and that of the entry in progress.
    /// `cell_height` is the height of that entry at the width in question.
    pub fn desired_height(&self, pane_height: u16, cell_height: u16) -> (r: u16)
        requires
            pane_height + self@.active_height(cell_height) <= u16::MAX,
        ensures
            r == pane_height + self@.active_height(cell_height),
    {
        pane_height + self.active_cell_height(cell_height)
    }

    /// The areas of the entry in progress and of the pane below it. The entry gets no more than
    /// its height, and the pane no less than its own as far as there is room.
    pub fn layout_areas(&self, area: Rect, pane_height: u16, cell_height: u16) -> (r: [Rect; 2])
        ensures
            r[0] == stacked(area, self@.active_height(cell_height), pane_height).0,
            r[1] == stacked(area, self@.active_height(cell_height), pane_height).1,
    {
        let (upper, lower) = split_rows(area, self.active_cell_height(cell_height), pane_height);
        [upper, lower]
    }

    /// Where the cursor is: where the pane has it in its own area.
    pub fn cursor_pos<F: Fn(Rect) -> Option<(u16, u16)>>(
        &self,
        area: Rect,
        pane_height: u16,
        cell_height: u16,
        pane_cursor_pos: F,
    ) -> (r: Option<(u16, u16)>)
        requires
            call_requires(
                pane_cursor_pos,
                (stacked(area, self@.active_height(cell_height), pane_height).1,),
            ),
        ensures
            call_ensures(
                pane_cursor_pos,
                (stacked(area, self@.active_height(cell_height), pane_height).1,),
                r,
            ),
    {
        let areas = self.layout_areas(area, pane_height, cell_height);
        pane_cursor_pos(areas[1])
    }
}

} // verus!
