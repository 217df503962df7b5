//! What the chat widget does, as a transition system: for each state and each occurrence, the
//! next state and the effects in their order.
use std::path::PathBuf;

use vstd::prelude::*;

use crate::app_event::{AppEventView, LineStyle, LineView, SelectionView};
use crate::effect::{
    ApprovalRequestView, CommandOutputView, EffectView, HistoryCellView, PaneCallView,
    PatchEventType, RowCallView,
};
use crate::json::{json_text, object_of, JsonView};
use crate::payload::{
    exec_patch_members, patch_applied_members, patch_request_members, turn_diff_members,
};
use crate::protocol::{
    no_usage, usage_fits, usage_sum, ChangedFileView, EventMsgView, OpView, TokenUsage,
};
use crate::selection::context_of;
use crate::user_message::UserMessageView;

verus! {

/// What the agent is streaming.
#[derive(Clone, Copy, Debug, PartialEq, Eq, Structural)]
pub enum StreamKind {
    Answer,
    Reasoning,
}

/// Whether the user's wish to cancel has been dealt with.
#[derive(Clone, Copy, Debug, PartialEq, Eq, Structural)]
pub enum CancellationEvent {
    Handled,
    Ignored,
}

/// A command that is being run.
pub struct RunningCommandView {
    pub command: Seq<Seq<char>>,
    pub cwd: PathBuf,
}

/// A patch that a command would apply, as the editor gets it.
pub struct ProposedPatchView {
    pub changes: JsonView,
    pub cwd: Seq<char>,
}

/// A patch for which approval is asked, as the editor gets it.
pub struct PatchMirrorView {
    pub changes: JsonView,
    pub grant_root: Option<Seq<char>>,
}

/// What is known from outside when an event is handled.
pub struct EventContextView {
    pub remaining: Seq<Seq<char>>,
    pub drained: Seq<Seq<char>>,
    pub rows: Seq<Seq<char>>,
    pub extension_active: bool,
    pub proposal: Option<ProposedPatchView>,
    pub mirror: Option<PatchMirrorView>,
}

/// The state of the widget.
pub struct WidgetView {
    pub active_history_cell: Option<HistoryCellView>,
    pub initial_user_message: Option<UserMessageView>,
    pub total_token_usage: TokenUsage,
    pub last_token_usage: TokenUsage,
    pub reasoning_buffer: Seq<char>,
    pub content_buffer: Seq<char>,
    pub answer_buffer: Seq<char>,
    pub running_commands: Map<Seq<char>, RunningCommandView>,
    pub current_stream: Option<StreamKind>,
    pub stream_header_emitted: bool,
    pub live_max_rows: u16,
    pub vscode_selection: Option<SelectionView>,
    pub model_context_window: Option<u64>,
    pub ipc_connected: bool,
}

/// A message to the editor takes one line.
pub open spec fn fits_on_a_line(members: Seq<(Seq<char>, JsonView)>) -> bool {
    !json_text(JsonView::Object(object_of(members))).contains('\n')
}

/// The next state, and the effects on the way to it.
pub struct Outcome {
    pub state: WidgetView,
    pub effects: Seq<EffectView>,
}

impl Outcome {
    /// The outcome with more effects at the end.
    pub open spec fn then_effects(self, more: Seq<EffectView>) -> Outcome {
        Outcome { effects: self.effects + more, ..self }
    }
}

// ---------------------------------------------------------------------------
// Lines
// ---------------------------------------------------------------------------

/// The line that introduces a stream.
pub open spec fn header_line(kind: StreamKind) -> LineView {
    match kind {
        StreamKind::Reasoning => LineView {
            text: "thinking"@,
            style: LineStyle::MagentaItalic,
        },
        StreamKind::Answer => LineView { text: "codex"@, style: LineStyle::MagentaBold },
    }
}

pub open spec fn plain_line(text: Seq<char>) -> LineView {
    LineView { text, style: LineStyle::Plain }
}

/// Rows as lines without any style.
pub open spec fn plain_lines(rows: Seq<Seq<char>>) -> Seq<LineView> {
    rows.map_values(|row: Seq<char>| plain_line(row))
}

pub open spec fn insert_history(lines: Seq<LineView>) -> EffectView {
    EffectView::App(AppEventView::InsertHistory(lines))
}

pub open spec fn redraw() -> EffectView {
    EffectView::App(AppEventView::RequestRedraw)
}

pub open spec fn status_text(text: Seq<char>) -> EffectView {
    EffectView::Pane(PaneCallView::UpdateStatusText(text))
}

// ---------------------------------------------------------------------------
// Transitions
// ---------------------------------------------------------------------------

impl WidgetView {
    /// A stream's header has been shown exactly while there is a stream.
    pub open spec fn inv(self) -> bool {
        self.stream_header_emitted == (self.current_stream is Some)
    }

    /// The height of the entry in progress: `cell_height`, if there is one.
    pub open spec fn active_height(self, cell_height: u16) -> u16 {
        if self.active_history_cell is Some {
            cell_height
        } else {
            0
        }
    }

    /// No change, and no effect.
    pub open spec fn unchanged(self) -> Outcome {
        Outcome { state: self, effects: Seq::empty() }
    }

    /// No change, but effects.
    pub open spec fn doing(self, effects: Seq<EffectView>) -> Outcome {
        Outcome { state: self, effects }
    }

    /// The state without a stream, and with empty buffers.
    pub open spec fn without_stream(self) -> WidgetView {
        WidgetView {
            current_stream: None,
            stream_header_emitted: false,
            answer_buffer: Seq::empty(),
            reasoning_buffer: Seq::empty(),
            content_buffer: Seq::empty(),
            ..self
        }
    }

    /// A message to the editor, if there is a channel to it.
    pub open spec fn to_editor(self, members: Seq<(Seq<char>, JsonView)>) -> Seq<EffectView> {
        if self.ipc_connected {
            seq![EffectView::Ipc(json_text(JsonView::Object(object_of(members))))]
        } else {
            Seq::empty()
        }
    }

    /// Shows the header of a stream unless it has been shown.
    pub open spec fn emit_stream_header(self, kind: StreamKind) -> Outcome {
        if self.stream_header_emitted {
            self.unchanged()
        } else {
            Outcome {
                state: WidgetView { stream_header_emitted: true, ..self },
                effects: seq![insert_history(seq![header_line(kind)])],
            }
        }
    }

    /// Ends a stream of this kind, if there is one: the rows that remain go to the history,
    /// followed by a blank line, and the live rows disappear.
    pub open spec fn finalize_stream(self, kind: StreamKind, remaining: Seq<Seq<char>>) -> Outcome {
        if self.current_stream != Some(kind) {
            self.unchanged()
        } else {
            let header = if self.stream_header_emitted {
                Seq::empty()
            } else {
                seq![header_line(kind)]
            };
            let lines = header + plain_lines(remaining) + seq![plain_line(""@)];
            let shown = if remaining.len() > 0 || !self.stream_header_emitted {
                seq![insert_history(lines)]
            } else {
                Seq::empty()
            };
            Outcome {
                state: WidgetView { current_stream: None, stream_header_emitted: false, ..self },
                effects: shown + seq![EffectView::Pane(PaneCallView::ClearLiveRing)],
            }
        }
    }

    /// Ends the stream, if there is one.
    pub open spec fn finalize_active_stream(self, remaining: Seq<Seq<char>>) -> Outcome {
        match self.current_stream {
            Some(kind) => self.finalize_stream(kind, remaining),
            None => self.unchanged(),
        }
    }

    /// Starts a stream of this kind, unless it is running. A stream of the other kind ends first.
    pub open spec fn begin_stream(self, kind: StreamKind, remaining: Seq<Seq<char>>) -> Outcome {
        if self.current_stream == Some(kind) {
            self.unchanged()
        } else {
            let closed = self.finalize_active_stream(remaining);
            let opened = WidgetView {
                current_stream: Some(kind),
                stream_header_emitted: true,
                ..closed.state
            };
            Outcome {
                state: opened,
                effects: closed.effects + seq![
                    status_text("waiting for model"@),
                    insert_history(seq![header_line(kind)]),
                ],
            }
        }
    }

    /// Shows new rows: those that overflow go to the history, the others are shown live.
    pub open spec fn push_rows(self, drained: Seq<Seq<char>>, rows: Seq<Seq<char>>) -> Outcome {
        let live = seq![
            EffectView::Pane(
                PaneCallView::SetLiveRingRows {
                    max_rows: self.live_max_rows,
                    rows: plain_lines(rows),
                },
            ),
        ];
        if drained.len() == 0 {
            self.doing(live)
        } else {
            let header = match self.current_stream {
                Some(kind) if !self.stream_header_emitted => seq![header_line(kind)],
                _ => Seq::empty(),
            };
            Outcome {
                state: WidgetView { stream_header_emitted: true, ..self },
                effects: seq![insert_history(header + plain_lines(drained))] + live,
            }
        }
    }

    /// The state with more text in the buffer of a stream.
    pub open spec fn buffered(self, kind: StreamKind, delta: Seq<char>) -> WidgetView {
        match kind {
            StreamKind::Answer => WidgetView { answer_buffer: self.answer_buffer + delta, ..self },
            StreamKind::Reasoning => WidgetView {
                reasoning_buffer: self.reasoning_buffer + delta,
                ..self
            },
        }
    }

    /// Takes a piece of a stream.
    pub open spec fn stream_delta(
        self,
        kind: StreamKind,
        delta: Seq<char>,
        ctx: EventContextView,
    ) -> Outcome {
        let begun = self.begin_stream(kind, ctx.remaining);
        let pushed = begun.state.buffered(kind, delta).push_rows(ctx.drained, ctx.rows);
        Outcome {
            state: pushed.state,
            effects: begun.effects + pushed.effects + seq![redraw()],
        }
    }

    /// No text of the answer whose final text this is has been streamed: the buffer is empty since
    /// the last final text, error or interruption, and no answer is being streamed.
    pub open spec fn is_unstreamed(self, message: Seq<char>) -> bool {
        message.len() > 0 && self.answer_buffer.len() == 0 && self.current_stream != Some(
            StreamKind::Answer,
        )
    }

    /// Takes the final text of an answer. Where text of the answer has been streamed, it is not
    /// shown again; if the stream is running, it ends. Where none has, the text is shown now,
    /// under the header of an answer and with a blank line after it; a stream of reasoning ends
    /// first. The next answer starts with an empty buffer.
    pub open spec fn final_answer(self, message: Seq<char>, ctx: EventContextView) -> Outcome {
        let closed = if self.is_unstreamed(message) {
            self.finalize_active_stream(ctx.remaining)
        } else {
            self.finalize_stream(StreamKind::Answer, ctx.remaining)
        };
        let shown = if self.is_unstreamed(message) {
            seq![
                insert_history(
                    seq![header_line(StreamKind::Answer)] + plain_lines(ctx.rows).push(
                        plain_line(""@),
                    ),
                ),
            ]
        } else {
            Seq::empty()
        };
        Outcome {
            state: WidgetView { answer_buffer: Seq::empty(), ..closed.state },
            effects: closed.effects + shown + seq![redraw()],
        }
    }

    /// Interrupts the task, if one is running.
    pub open spec fn interrupt(self, task_running: bool) -> Outcome {
        if !task_running {
            self.unchanged()
        } else {
            Outcome {
                state: WidgetView { active_history_cell: None, ..self.without_stream() },
                effects: seq![
                    EffectView::Pane(PaneCallView::ClearCtrlCQuitHint),
                    EffectView::Op(OpView::Interrupt),
                    EffectView::Pane(PaneCallView::SetTaskRunning(false)),
                    EffectView::Pane(PaneCallView::ClearLiveRing),
                    EffectView::ResetRows,
                    redraw(),
                ],
            }
        }
    }

    /// Takes Ctrl-C, unless the pane has used it up: interrupts the task, or without one shows
    /// the hint how to quit, or where that is shown shuts the agent down.
    pub open spec fn ctrl_c(
        self,
        pane_result: CancellationEvent,
        task_running: bool,
        hint_visible: bool,
    ) -> Outcome {
        if pane_result == CancellationEvent::Handled {
            self.unchanged()
        } else if task_running {
            self.interrupt(true)
        } else if hint_visible {
            self.doing(seq![EffectView::Op(OpView::Shutdown)])
        } else {
            self.doing(seq![EffectView::Pane(PaneCallView::ShowCtrlCQuitHint)])
        }
    }

    /// Submits a message: its items go to the agent, and its text to both histories. A message
    /// without items is dropped.
    pub open spec fn submit_user_message(self, message: UserMessageView) -> Seq<EffectView> {
        if message.items().len() == 0 {
            Seq::empty()
        } else {
            let remembered = if message.text.len() > 0 {
                seq![
                    EffectView::Op(OpView::AddToHistory { text: message.text }),
                    EffectView::History(HistoryCellView::UserPrompt(message.text)),
                ]
            } else {
                Seq::empty()
            };
            seq![EffectView::Op(OpView::UserInput { items: message.items() })] + remembered
        }
    }

    /// Submits what the user has typed, with the editor's selection as text that is not shown.
    pub open spec fn submit_typed(self, text: Seq<char>) -> Seq<EffectView> {
        self.submit_user_message(
            UserMessageView {
                extra_text: context_of(self.vscode_selection),
                ..UserMessageView::plain(text)
            },
        )
    }

    /// Takes the session's details, and submits the initial message.
    pub open spec fn session_configured(self, log_id: u64, entry_count: usize) -> Outcome {
        let submitted = match self.initial_user_message {
            Some(message) => self.submit_user_message(message),
            None => Seq::empty(),
        };
        Outcome {
            state: WidgetView { initial_user_message: None, ..self },
            effects: seq![
                EffectView::Pane(PaneCallView::SetHistoryMetadata { log_id, entry_count }),
                EffectView::History(HistoryCellView::SessionInfo),
            ] + submitted + seq![redraw()],
        }
    }

    /// Takes a token count.
    pub open spec fn token_count(self, usage: TokenUsage) -> Outcome {
        let total = usage_sum(self.total_token_usage, usage);
        Outcome {
            state: WidgetView { total_token_usage: total, last_token_usage: usage, ..self },
            effects: seq![
                EffectView::Pane(
                    PaneCallView::SetTokenUsage {
                        total,
                        last: usage,
                        context_window: self.model_context_window,
                    },
                ),
            ],
        }
    }

    /// Takes an error, which ends the task.
    pub open spec fn error(self, message: Seq<char>) -> Outcome {
        Outcome {
            state: self.without_stream(),
            effects: seq![
                EffectView::History(HistoryCellView::ErrorEvent(message)),
                EffectView::Pane(PaneCallView::SetTaskRunning(false)),
                EffectView::Pane(PaneCallView::ClearLiveRing),
                EffectView::ResetRows,
                redraw(),
            ],
        }
    }

    /// Takes a request to run a command. If the command would apply a patch, the editor gets to
    /// see it before the user decides.
    pub open spec fn exec_approval(
        self,
        id: Seq<char>,
        command: Seq<Seq<char>>,
        cwd: PathBuf,
        reason: Option<Seq<char>>,
        ctx: EventContextView,
    ) -> Outcome {
        let mirrored = match ctx.proposal {
            Some(patch) if ctx.extension_active => self.to_editor(
                exec_patch_members(patch.changes, patch.cwd),
            ),
            _ => Seq::empty(),
        };
        self.finalize_active_stream(ctx.remaining).then_effects(
            mirrored + seq![
                EffectView::Pane(
                    PaneCallView::PushApprovalRequest(
                        ApprovalRequestView::Exec { id, command, cwd, reason },
                    ),
                ),
                redraw(),
            ],
        )
    }

    /// Takes a request to apply a patch. The patch is shown, in the editor and in the history,
    /// before the user is asked.
    pub open spec fn patch_approval(
        self,
        id: Seq<char>,
        call_id: Seq<char>,
        changes: Seq<ChangedFileView>,
        reason: Option<Seq<char>>,
        grant_root: Option<PathBuf>,
        ctx: EventContextView,
    ) -> Outcome {
        let mirrored = match ctx.mirror {
            Some(patch) if ctx.extension_active => self.to_editor(
                patch_request_members(call_id, patch.changes, reason, patch.grant_root),
            ),
            _ => Seq::empty(),
        };
        self.finalize_active_stream(ctx.remaining).then_effects(
            mirrored + seq![
                EffectView::History(
                    HistoryCellView::PatchEvent {
                        event_type: PatchEventType::ApprovalRequest,
                        changes,
                    },
                ),
                EffectView::Pane(
                    PaneCallView::PushApprovalRequest(
                        ApprovalRequestView::ApplyPatch { id, reason, grant_root },
                    ),
                ),
                redraw(),
            ],
        )
    }

    /// Takes that a command is being run.
    pub open spec fn exec_begin(
        self,
        call_id: Seq<char>,
        command: Seq<Seq<char>>,
        cwd: PathBuf,
        ctx: EventContextView,
    ) -> Outcome {
        let closed = self.finalize_active_stream(ctx.remaining);
        Outcome {
            state: WidgetView {
                running_commands: closed.state.running_commands.insert(
                    call_id,
                    RunningCommandView { command, cwd },
                ),
                active_history_cell: Some(HistoryCellView::ActiveExecCommand(command)),
                ..closed.state
            },
            effects: closed.effects + seq![status_text("running command"@)],
        }
    }

    /// The command that a call runs; where none is known, the call stands for itself.
    pub open spec fn command_of(self, call_id: Seq<char>) -> Seq<Seq<char>> {
        if self.running_commands.contains_key(call_id) {
            self.running_commands[call_id].command
        } else {
            seq![call_id]
        }
    }

    /// Takes what a command has put out.
    pub open spec fn exec_end(self, call_id: Seq<char>, output: CommandOutputView) -> Outcome {
        Outcome {
            state: WidgetView {
                running_commands: self.running_commands.remove(call_id),
                active_history_cell: None,
                ..self
            },
            effects: seq![
                EffectView::History(
                    HistoryCellView::CompletedExecCommand {
                        command: self.command_of(call_id),
                        output,
                    },
                ),
            ],
        }
    }

    /// Takes that a patch has been applied, or could not be.
    pub open spec fn patch_apply_end(
        self,
        call_id: Seq<char>,
        stderr: Seq<char>,
        success: bool,
        ctx: EventContextView,
    ) -> Outcome {
        let failure = if success {
            Seq::empty()
        } else {
            seq![EffectView::History(HistoryCellView::PatchApplyFailure(stderr))]
        };
        let told = if ctx.extension_active {
            self.to_editor(patch_applied_members(success, call_id))
        } else {
            Seq::empty()
        };
        self.doing(failure + told)
    }

    /// Takes the final text of reasoning: its stream ends, if it is running.
    pub open spec fn final_reasoning(self, ctx: EventContextView) -> Outcome {
        self.finalize_stream(StreamKind::Reasoning, ctx.remaining).then_effects(seq![redraw()])
    }

    /// Takes that a task has started.
    pub open spec fn task_started(self) -> Outcome {
        self.doing(
            seq![
                EffectView::Pane(PaneCallView::ClearCtrlCQuitHint),
                EffectView::Pane(PaneCallView::SetTaskRunning(true)),
                status_text("waiting for model"@),
                redraw(),
            ],
        )
    }

    /// Takes that the task is complete.
    pub open spec fn task_complete(self) -> Outcome {
        self.doing(
            seq![
                EffectView::Pane(PaneCallView::SetTaskRunning(false)),
                EffectView::Pane(PaneCallView::ClearLiveRing),
                redraw(),
            ],
        )
    }

    /// Takes that a tool is being called.
    pub open spec fn tool_call_begin(self, ctx: EventContextView) -> Outcome {
        self.finalize_active_stream(ctx.remaining).then_effects(
            seq![EffectView::History(HistoryCellView::ActiveMcpToolCall)],
        )
    }

    /// Takes that a tool has been called. The call is an error only if it went through and says
    /// so of itself.
    pub open spec fn tool_call_end(self, result: Option<Option<bool>>) -> Outcome {
        self.doing(
            seq![
                EffectView::History(
                    HistoryCellView::CompletedMcpToolCall {
                        num_cols: 80,
                        is_error: result == Some(Some(true)),
                    },
                ),
            ],
        )
    }

    /// Takes the changes of a turn, for the editor or else for the log.
    pub open spec fn turn_diff(self, unified_diff: Seq<char>, ctx: EventContextView) -> Outcome {
        if ctx.extension_active {
            self.doing(self.to_editor(turn_diff_members(unified_diff)))
        } else {
            self.doing(seq![EffectView::Log("TurnDiffEvent: "@ + unified_diff)])
        }
    }

    /// Takes what goes on in the background, for the log.
    pub open spec fn background_event(self, message: Seq<char>) -> Outcome {
        self.doing(seq![EffectView::Log("BackgroundEvent: "@ + message)])
    }

    /// An event can be handled: token counts do not overflow, and the editor's form of a patch
    /// is at hand where it is needed.
    pub open spec fn accepts(self, msg: EventMsgView, ctx: EventContextView) -> bool {
        match msg {
            EventMsgView::TokenCount(usage) => usage_fits(self.total_token_usage, usage),
            EventMsgView::ApplyPatchApprovalRequest { .. } => ctx.extension_active
                ==> ctx.mirror is Some,
            _ => true,
        }
    }

    /// What an event of the agent leads to.
    pub open spec fn handle(
        self,
        id: Seq<char>,
        msg: EventMsgView,
        ctx: EventContextView,
    ) -> Outcome {
        match msg {
            EventMsgView::SessionConfigured { history_log_id, history_entry_count } =>
                self.session_configured(history_log_id, history_entry_count),
            EventMsgView::AgentMessage { message } => self.final_answer(message, ctx),
            EventMsgView::AgentMessageDelta { delta } => self.stream_delta(
                StreamKind::Answer,
                delta,
                ctx,
            ),
            EventMsgView::AgentReasoning { .. } | EventMsgView::AgentReasoningRawContent { .. } =>
                self.final_reasoning(ctx),
            EventMsgView::AgentReasoningDelta { delta }
            | EventMsgView::AgentReasoningRawContentDelta { delta } => self.stream_delta(
                StreamKind::Reasoning,
                delta,
                ctx,
            ),
            EventMsgView::TaskStarted => self.task_started(),
            EventMsgView::TaskComplete { .. } => self.task_complete(),
            EventMsgView::TokenCount(usage) => self.token_count(usage),
            EventMsgView::Error { message } => self.error(message),
            EventMsgView::PlanUpdate => self.doing(
                seq![EffectView::History(HistoryCellView::PlanUpdate)],
            ),
            EventMsgView::ExecApprovalRequest { command, cwd, reason, .. } => self.exec_approval(
                id,
                command,
                cwd,
                reason,
                ctx,
            ),
            EventMsgView::ApplyPatchApprovalRequest { call_id, changes, reason, grant_root } =>
                self.patch_approval(id, call_id, changes, reason, grant_root, ctx),
            EventMsgView::ExecCommandBegin { call_id, command, cwd } => self.exec_begin(
                call_id,
                command,
                cwd,
                ctx,
            ),
            EventMsgView::ExecCommandOutputDelta => self.unchanged(),
            EventMsgView::ExecCommandEnd { call_id, exit_code, stdout, stderr } => self.exec_end(
                call_id,
                CommandOutputView { exit_code, stdout, stderr },
            ),
            EventMsgView::PatchApplyBegin { auto_approved, changes, .. } => self.doing(
                seq![
                    EffectView::History(
                        HistoryCellView::PatchEvent {
                            event_type: PatchEventType::ApplyBegin { auto_approved },
                            changes,
                        },
                    ),
                ],
            ),
            EventMsgView::PatchApplyEnd { call_id, stderr, success } => self.patch_apply_end(
                call_id,
                stderr,
                success,
                ctx,
            ),
            EventMsgView::McpToolCallBegin { .. } => self.tool_call_begin(ctx),
            EventMsgView::McpToolCallEnd { result, .. } => self.tool_call_end(result),
            EventMsgView::GetHistoryEntryResponse { offset, log_id, entry } => self.doing(
                seq![
                    EffectView::Pane(
                        PaneCallView::OnHistoryEntryResponse { log_id, offset, entry },
                    ),
                ],
            ),
            EventMsgView::ShutdownComplete => self.doing(
                seq![EffectView::App(AppEventView::ExitRequest)],
            ),
            EventMsgView::TurnDiff { unified_diff } => self.turn_diff(unified_diff, ctx),
            EventMsgView::BackgroundEvent { message } => self.background_event(message),
        }
    }

    /// The stream and the text of a piece of a stream.
    pub open spec fn delta_of(msg: EventMsgView) -> Option<(StreamKind, Seq<char>)> {
        match msg {
            EventMsgView::AgentMessageDelta { delta } => Some((StreamKind::Answer, delta)),
            EventMsgView::AgentReasoningDelta { delta } => Some((StreamKind::Reasoning, delta)),
            EventMsgView::AgentReasoningRawContentDelta { delta } => Some(
                (StreamKind::Reasoning, delta),
            ),
            _ => None,
        }
    }

    /// The final text of an answer of which no text has been streamed.
    pub open spec fn unstreamed_answer(self, msg: EventMsgView) -> Option<Seq<char>> {
        match msg {
            EventMsgView::AgentMessage { message } if self.is_unstreamed(message) => Some(message),
            _ => None,
        }
    }

    /// Whether an event ends the stream that is running.
    pub open spec fn closes_stream(self, msg: EventMsgView) -> bool {
        match msg {
            EventMsgView::AgentMessage { message } => match self.current_stream {
                Some(StreamKind::Answer) => true,
                Some(StreamKind::Reasoning) => self.is_unstreamed(message),
                None => false,
            },
            EventMsgView::AgentReasoning { .. } | EventMsgView::AgentReasoningRawContent { .. } =>
                self.current_stream == Some(StreamKind::Reasoning),
            EventMsgView::AgentMessageDelta { .. } => self.current_stream == Some(
                StreamKind::Reasoning,
            ),
            EventMsgView::AgentReasoningDelta { .. }
            | EventMsgView::AgentReasoningRawContentDelta { .. } => self.current_stream == Some(
                StreamKind::Answer,
            ),
            EventMsgView::ExecApprovalRequest { .. }
            | EventMsgView::ApplyPatchApprovalRequest { .. }
            | EventMsgView::ExecCommandBegin { .. }
            | EventMsgView::McpToolCallBegin { .. } => self.current_stream is Some,
            _ => false,
        }
    }

    /// The calls of the builder of live rows that an event needs, in their order: where the event
    /// ends a stream, the rows that remain are taken out; where it starts one, the builder starts
    /// afresh; and a piece of a stream is appended, and the rows taken and read. An answer that
    /// has not been streamed is wrapped as a whole.
    pub open spec fn row_calls(self, msg: EventMsgView) -> Seq<RowCallView> {
        let closing = if self.closes_stream(msg) {
            seq![RowCallView::EndLine, RowCallView::DrainRows, RowCallView::Reset]
        } else {
            Seq::empty()
        };
        let wrapping = match self.unstreamed_answer(msg) {
            Some(message) => seq![
                RowCallView::Reset,
                RowCallView::PushFragment(message),
                RowCallView::EndLine,
                RowCallView::DisplayRows,
                RowCallView::Reset,
            ],
            None => Seq::empty(),
        };
        closing + wrapping + match Self::delta_of(msg) {
            Some((kind, delta)) => {
                let opening = if self.current_stream == Some(kind) {
                    Seq::empty()
                } else {
                    seq![RowCallView::Reset]
                };
                opening + seq![
                    RowCallView::PushFragment(delta),
                    RowCallView::DrainCommitReady(self.live_max_rows as usize),
                    RowCallView::DisplayRows,
                ]
            },
            None => Seq::empty(),
        }
    }

    /// Takes the editor's selection.
    pub open spec fn set_vscode_selection(self, sel: Option<SelectionView>) -> Outcome {
        Outcome {
            state: WidgetView { vscode_selection: sel, ..self },
            effects: seq![
                EffectView::Pane(
                    PaneCallView::SetVscodeSelectionHint {
                        lines: match sel {
                            Some(s) if s.lines > 0 => Some(s.lines),
                            _ => None,
                        },
                        rel_path: match sel {
                            Some(s) => s.rel_path,
                            None => None,
                        },
                    },
                ),
            ],
        }
    }

    /// Forgets the tokens used so far.
    pub open spec fn clear_token_usage(self) -> Outcome {
        let total = no_usage();
        Outcome {
            state: WidgetView { total_token_usage: total, ..self },
            effects: seq![
                EffectView::Pane(
                    PaneCallView::SetTokenUsage {
                        total,
                        last: self.last_token_usage,
                        context_window: self.model_context_window,
                    },
                ),
            ],
        }
    }
}

} // verus!
