//! What the widget does in each case, event by event: the effects one by one, and every part of
//! the next state.
use std::path::PathBuf;

use vstd::prelude::*;

use crate::app_event::{AppEventView, LineStyle, LineView, SelectionView};
use crate::chatwidget::{initial_effects, initial_state};
use crate::effect::{
    ApprovalRequestView, CommandOutputView, EffectView, HistoryCellView, PaneCallView,
    PatchEventType, RowCallView,
};
use crate::ipc::advertised_path;
use crate::json::{json_text, object_of, JsonView};
use crate::payload::{
    exec_patch_members, patch_applied_members, patch_request_members, turn_diff_members,
};
use crate::protocol::{ChangedFileView, EventMsgView, InputItemView, OpView, TokenUsage};
use crate::selection::context_of;
use crate::transition::{
    CancellationEvent, EventContextView, Outcome, RunningCommandView, StreamKind, WidgetView,
};
use crate::user_message::UserMessageView;

verus! {

// ---------------------------------------------------------------------------
// Lines
// ---------------------------------------------------------------------------

/// The line is the header of a stream.
pub open spec fn heads(line: LineView, kind: StreamKind) -> bool {
    match kind {
        StreamKind::Answer => line.text == "codex"@ && line.style == LineStyle::MagentaBold,
        StreamKind::Reasoning => line.text == "thinking"@ && line.style
            == LineStyle::MagentaItalic,
    }
}

/// The lines from `first` on are the rows, one by one and without any style.
pub open spec fn rows_stand_at(lines: Seq<LineView>, first: int, rows: Seq<Seq<char>>) -> bool {
    &&& first + rows.len() <= lines.len()
    &&& forall|i: int|
        #![trigger rows[i]]
        0 <= i < rows.len() ==> lines[first + i].text == rows[i] && lines[first + i].style
            == LineStyle::Plain
}

/// The effect puts into the history a header, if one is asked for, the rows, and a blank line, if
/// one is asked for; and nothing else.
pub open spec fn puts(
    effect: EffectView,
    header: Option<StreamKind>,
    rows: Seq<Seq<char>>,
    blank: bool,
) -> bool {
    match effect {
        EffectView::App(AppEventView::InsertHistory(lines)) => {
            let first: int = if header is Some {
                1
            } else {
                0
            };
            let last: int = if blank {
                1
            } else {
                0
            };
            &&& lines.len() == first + rows.len() + last
            &&& header matches Some(kind) ==> heads(lines[0], kind)
            &&& rows_stand_at(lines, first, rows)
            &&& blank ==> lines[lines.len() - 1].text.len() == 0 && lines[lines.len() - 1].style
                == LineStyle::Plain
        },
        _ => false,
    }
}

/// The effect shows the rows live, in their order.
pub open spec fn shows_live(effect: EffectView, max_rows: u16, rows: Seq<Seq<char>>) -> bool {
    match effect {
        EffectView::Pane(PaneCallView::SetLiveRingRows { max_rows: m, rows: lines }) => {
            &&& m == max_rows
            &&& lines.len() == rows.len()
            &&& rows_stand_at(lines, 0, rows)
        },
        _ => false,
    }
}

proof fn lemma_blank()
    ensures
        ""@.len() == 0,
{
    reveal_strlit("");
}

// ---------------------------------------------------------------------------
// Streams
// ---------------------------------------------------------------------------

/// The effects are those of the end of the running stream, if there is one: the rows that remain
/// go to the history with a blank line after them, and the live rows disappear.
pub open spec fn ends_stream(
    effects: Seq<EffectView>,
    s: WidgetView,
    remaining: Seq<Seq<char>>,
) -> bool {
    match s.current_stream {
        None => effects.len() == 0,
        Some(kind) => {
            &&& effects.len() > 0
            &&& effects[effects.len() - 1] == EffectView::Pane(PaneCallView::ClearLiveRing)
            &&& if remaining.len() > 0 || !s.stream_header_emitted {
                effects.len() == 2 && puts(
                    effects[0],
                    if s.stream_header_emitted {
                        None
                    } else {
                        Some(kind)
                    },
                    remaining,
                    true,
                )
            } else {
                effects.len() == 1
            }
        },
    }
}

/// The state once the running stream, if there is one, has ended. Nothing else changes.
pub open spec fn ended(s: WidgetView) -> WidgetView {
    if s.current_stream is None {
        s
    } else {
        WidgetView { current_stream: None, stream_header_emitted: false, ..s }
    }
}

/// Whichever stream is running ends with its own rows, and only then is it over.
pub proof fn law_stream_ends(s: WidgetView, kind: StreamKind, remaining: Seq<Seq<char>>)
    ensures
        ends_stream(s.finalize_active_stream(remaining).effects, s, remaining),
        s.finalize_active_stream(remaining).state == ended(s),
        s.current_stream == Some(kind) ==> ends_stream(
            s.finalize_stream(kind, remaining).effects,
            s,
            remaining,
        ) && s.finalize_stream(kind, remaining).state == ended(s),
        s.current_stream != Some(kind) ==> s.finalize_stream(kind, remaining).effects.len() == 0
            && s.finalize_stream(kind, remaining).state == s,
{
    lemma_blank();
}

/// A header is shown unless it has been.
pub proof fn law_header_is_shown(s: WidgetView, kind: StreamKind)
    ensures
        ({
            let after = s.emit_stream_header(kind);
            &&& after.state == WidgetView { stream_header_emitted: true, ..s }
            &&& if s.stream_header_emitted {
                after.effects.len() == 0
            } else {
                after.effects.len() == 1 && puts(after.effects[0], Some(kind), Seq::empty(), false)
            }
        }),
{
}

/// A stream that begins ends the other one, says that the model is awaited, and shows its header.
pub proof fn law_stream_begins(s: WidgetView, kind: StreamKind, remaining: Seq<Seq<char>>)
    ensures
        ({
            let after = s.begin_stream(kind, remaining);
            let n = after.effects.len() as int;
            &&& if s.current_stream == Some(kind) {
                n == 0 && after.state == s
            } else {
                &&& after.state == WidgetView {
                    current_stream: Some(kind),
                    stream_header_emitted: true,
                    ..s
                }
                &&& n >= 2
                &&& ends_stream(after.effects.take(n - 2), s, remaining)
                &&& after.effects[n - 2] == EffectView::Pane(
                    PaneCallView::UpdateStatusText("waiting for model"@),
                )
                &&& puts(after.effects[n - 1], Some(kind), Seq::empty(), false)
            }
        }),
{
    law_stream_ends(s, kind, remaining);
    let after = s.begin_stream(kind, remaining);
    if s.current_stream != Some(kind) {
        assert(after.effects.take(after.effects.len() - 2) =~= s.finalize_active_stream(
            remaining,
        ).effects);
    }
}

/// Rows that overflow go to the history, in their order; the others are shown live, in theirs.
pub proof fn law_rows_are_pushed(
    s: WidgetView,
    drained: Seq<Seq<char>>,
    rows: Seq<Seq<char>>,
)
    ensures
        ({
            let after = s.push_rows(drained, rows);
            let n = after.effects.len() as int;
            &&& n == (if drained.len() > 0 {
                2int
            } else {
                1int
            })
            &&& shows_live(after.effects[n - 1], s.live_max_rows, rows)
            &&& drained.len() > 0 ==> puts(
                after.effects[0],
                if s.stream_header_emitted {
                    None
                } else {
                    s.current_stream
                },
                drained,
                false,
            )
            &&& after.state == (if drained.len() > 0 {
                WidgetView { stream_header_emitted: true, ..s }
            } else {
                s
            })
        }),
{
}

/// The event is a piece of a stream of this kind. Raw reasoning counts as reasoning.
pub open spec fn is_piece(msg: EventMsgView, kind: StreamKind, delta: Seq<char>) -> bool {
    match kind {
        StreamKind::Answer => msg == EventMsgView::AgentMessageDelta { delta },
        StreamKind::Reasoning => msg == EventMsgView::AgentReasoningDelta { delta } || msg
            == EventMsgView::AgentReasoningRawContentDelta { delta },
    }
}

/// A piece of a stream that is running: the rows that overflow go to the history, if there are
/// any; the pane is handed exactly the displayed rows, the i-th live line with the text of the
/// i-th row; and a redraw follows.
pub proof fn law_piece_of_a_running_stream(
    s: WidgetView,
    id: Seq<char>,
    msg: EventMsgView,
    kind: StreamKind,
    delta: Seq<char>,
    ctx: EventContextView,
)
    requires
        is_piece(msg, kind, delta),
        s.current_stream == Some(kind),
        s.stream_header_emitted,
    ensures
        ({
            let after = s.handle(id, msg, ctx);
            let n = after.effects.len() as int;
            &&& n == (if ctx.drained.len() > 0 {
                3int
            } else {
                2int
            })
            &&& ctx.drained.len() > 0 ==> puts(after.effects[0], None, ctx.drained, false)
            &&& shows_live(after.effects[n - 2], s.live_max_rows, ctx.rows)
            &&& after.effects[n - 1] == EffectView::App(AppEventView::RequestRedraw)
            &&& after.state == (match kind {
                StreamKind::Answer => WidgetView {
                    answer_buffer: s.answer_buffer + delta,
                    ..s
                },
                StreamKind::Reasoning => WidgetView {
                    reasoning_buffer: s.reasoning_buffer + delta,
                    ..s
                },
            })
        }),
{
}

/// The first piece of a stream: the other stream ends, the model is awaited, and the header is
/// shown, before the rows of the piece are.
pub proof fn law_first_piece_of_a_stream(
    s: WidgetView,
    id: Seq<char>,
    msg: EventMsgView,
    kind: StreamKind,
    delta: Seq<char>,
    ctx: EventContextView,
)
    requires
        is_piece(msg, kind, delta),
        s.current_stream != Some(kind),
    ensures
        ({
            let after = s.handle(id, msg, ctx);
            let n = after.effects.len() as int;
            let overflow: int = if ctx.drained.len() > 0 {
                1
            } else {
                0
            };
            let k = n - 4 - overflow;
            &&& k >= 0
            &&& ends_stream(after.effects.take(k), s, ctx.remaining)
            &&& after.effects[k] == EffectView::Pane(
                PaneCallView::UpdateStatusText("waiting for model"@),
            )
            &&& puts(after.effects[k + 1], Some(kind), Seq::empty(), false)
            &&& ctx.drained.len() > 0 ==> puts(after.effects[k + 2], None, ctx.drained, false)
            &&& shows_live(after.effects[n - 2], s.live_max_rows, ctx.rows)
            &&& after.effects[n - 1] == EffectView::App(AppEventView::RequestRedraw)
            &&& after.state == (match kind {
                StreamKind::Answer => WidgetView {
                    current_stream: Some(kind),
                    stream_header_emitted: true,
                    answer_buffer: s.answer_buffer + delta,
                    ..s
                },
                StreamKind::Reasoning => WidgetView {
                    current_stream: Some(kind),
                    stream_header_emitted: true,
                    reasoning_buffer: s.reasoning_buffer + delta,
                    ..s
                },
            })
        }),
{
    let after = s.handle(id, msg, ctx);
    let n = after.effects.len() as int;
    let overflow: int = if ctx.drained.len() > 0 {
        1
    } else {
        0
    };
    let begun = s.begin_stream(kind, ctx.remaining);
    law_stream_begins(s, kind, ctx.remaining);
    law_rows_are_pushed(begun.state.buffered(kind, delta), ctx.drained, ctx.rows);
    assert(after.effects.take(n - 4 - overflow) =~= begun.effects.take(begun.effects.len() - 2));
}

/// Whatever the state, a piece of a stream leaves the displayed rows on the screen, as many as
/// there are, in their order and with the newest at the bottom.
pub proof fn law_live_rows_stand_in_order(
    s: WidgetView,
    id: Seq<char>,
    msg: EventMsgView,
    kind: StreamKind,
    delta: Seq<char>,
    ctx: EventContextView,
)
    requires
        is_piece(msg, kind, delta),
    ensures
        ({
            let effects = s.handle(id, msg, ctx).effects;
            let n = effects.len() as int;
            &&& n >= 2
            &&& match effects[n - 2] {
                EffectView::Pane(PaneCallView::SetLiveRingRows { max_rows, rows }) => {
                    &&& max_rows == s.live_max_rows
                    &&& rows.len() == ctx.rows.len()
                    &&& forall|i: int|
                        0 <= i < rows.len() ==> (#[trigger] rows[i]).text == ctx.rows[i]
                            && rows[i].style == LineStyle::Plain
                },
                _ => false,
            }
        }),
{
}

/// The final text of reasoning ends its stream, if it is running, and a redraw follows.
pub proof fn law_final_reasoning(
    s: WidgetView,
    id: Seq<char>,
    msg: EventMsgView,
    text: Seq<char>,
    ctx: EventContextView,
)
    requires
        msg == (EventMsgView::AgentReasoning { text }) || msg
            == (EventMsgView::AgentReasoningRawContent { text }),
    ensures
        ({
            let after = s.handle(id, msg, ctx);
            let n = after.effects.len() as int;
            let running = s.current_stream == Some(StreamKind::Reasoning);
            &&& n >= 1
            &&& after.effects[n - 1] == EffectView::App(AppEventView::RequestRedraw)
            &&& if running {
                ends_stream(after.effects.take(n - 1), s, ctx.remaining) && after.state == ended(s)
            } else {
                n == 1 && after.state == s
            }
        }),
{
    law_stream_ends(s, StreamKind::Reasoning, ctx.remaining);
    let after = s.handle(id, msg, ctx);
    assert(after.effects.take(after.effects.len() - 1) =~= s.finalize_stream(
        StreamKind::Reasoning,
        ctx.remaining,
    ).effects);
}

/// The final text of an answer ends the answer's stream, if it is running. If text of the answer
/// has come before, that is all; if none has, the whole text is shown. The next answer starts with
/// nothing buffered.
pub proof fn law_final_text_of_an_answer(
    s: WidgetView,
    id: Seq<char>,
    message: Seq<char>,
    ctx: EventContextView,
)
    ensures
        ({
            let after = s.handle(id, EventMsgView::AgentMessage { message }, ctx);
            let n = after.effects.len() as int;
            let running = s.current_stream == Some(StreamKind::Answer);
            let whole = message.len() > 0 && s.answer_buffer.len() == 0 && !running;
            &&& n >= 1
            &&& after.effects[n - 1] == EffectView::App(AppEventView::RequestRedraw)
            &&& if whole {
                &&& n >= 2
                &&& puts(after.effects[n - 2], Some(StreamKind::Answer), ctx.rows, true)
                &&& ends_stream(after.effects.take(n - 2), s, ctx.remaining)
            } else if running {
                ends_stream(after.effects.take(n - 1), s, ctx.remaining)
            } else {
                n == 1
            }
            &&& whole || running ==> after.state == WidgetView {
                answer_buffer: Seq::empty(),
                ..ended(s)
            }
            &&& !whole && !running ==> after.state == WidgetView {
                answer_buffer: Seq::empty(),
                ..s
            }
        }),
{
    law_stream_ends(s, StreamKind::Answer, ctx.remaining);
    lemma_blank();
    let after = s.handle(id, EventMsgView::AgentMessage { message }, ctx);
    let n = after.effects.len() as int;
    if s.is_unstreamed(message) {
        assert(after.effects.take(n - 2) =~= s.finalize_active_stream(ctx.remaining).effects);
    } else {
        assert(after.effects.take(n - 1) =~= s.finalize_stream(
            StreamKind::Answer,
            ctx.remaining,
        ).effects);
    }
}

// ---------------------------------------------------------------------------
// Messages of the user
// ---------------------------------------------------------------------------

/// The items are the texts that are not empty, in this order, and then every image in its order.
pub open spec fn are_items(
    items: Seq<InputItemView>,
    text: Seq<char>,
    extra: Option<Seq<char>>,
    images: Seq<PathBuf>,
) -> bool {
    let t: int = if text.len() > 0 {
        1
    } else {
        0
    };
    let e: int = if extra is Some && extra->0.len() > 0 {
        1
    } else {
        0
    };
    &&& items.len() == t + e + images.len()
    &&& t == 1 ==> items[0] == InputItemView::Text { text }
    &&& e == 1 ==> items[t] == InputItemView::Text { text: extra->0 }
    &&& forall|i: int|
        #![trigger images[i]]
        0 <= i < images.len() ==> items[t + e + i] == InputItemView::LocalImage { path: images[i] }
}

/// The effects submit a message: its items go to the agent in one request, and its text to the
/// history that outlives the session and to that of the conversation. Without items, nothing is
/// done.
pub open spec fn submits(
    effects: Seq<EffectView>,
    text: Seq<char>,
    extra: Option<Seq<char>>,
    images: Seq<PathBuf>,
) -> bool {
    if text.len() == 0 && (extra is None || extra->0.len() == 0) && images.len() == 0 {
        effects.len() == 0
    } else {
        &&& effects.len() == (if text.len() > 0 {
            3int
        } else {
            1int
        })
        &&& match effects[0] {
            EffectView::Op(OpView::UserInput { items }) => are_items(items, text, extra, images),
            _ => false,
        }
        &&& text.len() > 0 ==> {
            &&& effects[1] == EffectView::Op(OpView::AddToHistory { text })
            &&& effects[2] == EffectView::History(HistoryCellView::UserPrompt(text))
        }
    }
}

/// A message is submitted with all that it holds.
pub proof fn law_message_is_submitted_whole(s: WidgetView, message: UserMessageView)
    ensures
        are_items(message.items(), message.text, message.extra_text, message.image_paths),
        submits(
            s.submit_user_message(message),
            message.text,
            message.extra_text,
            message.image_paths,
        ),
{
    let images = message.image_paths;
    let items = message.items();
    assert forall|i: int| #![trigger images[i]] 0 <= i < images.len() implies items[items.len()
        - images.len() + i] == (InputItemView::LocalImage { path: images[i] }) by {}
}

/// A message that is text alone holds nothing else.
pub proof fn law_plain_message_is_text_alone(text: Seq<char>)
    ensures
        ({
            let message = UserMessageView::plain(text);
            &&& message.text == text
            &&& message.image_paths.len() == 0
            &&& message.extra_text is None
        }),
{
}

/// What the user types goes to the agent with what the selection adds to it, and to the histories
/// alone.
pub proof fn law_typed_text_is_submitted(s: WidgetView, text: Seq<char>)
    ensures
        submits(
            s.submit_typed(text),
            text,
            context_of(s.vscode_selection),
            Seq::empty(),
        ),
{
    law_message_is_submitted_whole(
        s,
        UserMessageView {
            text,
            image_paths: Seq::empty(),
            extra_text: context_of(s.vscode_selection),
        },
    );
}

/// When the session is configured, the pane learns of the message history, the session is shown,
/// the initial message is submitted whole, and a redraw follows. The message is not kept.
pub proof fn law_session_configured(
    s: WidgetView,
    id: Seq<char>,
    history_log_id: u64,
    history_entry_count: usize,
    ctx: EventContextView,
)
    ensures
        ({
            let msg = EventMsgView::SessionConfigured { history_log_id, history_entry_count };
            let after = s.handle(id, msg, ctx);
            let n = after.effects.len() as int;
            &&& n >= 3
            &&& after.effects[0] == EffectView::Pane(
                PaneCallView::SetHistoryMetadata {
                    log_id: history_log_id,
                    entry_count: history_entry_count,
                },
            )
            &&& after.effects[1] == EffectView::History(HistoryCellView::SessionInfo)
            &&& after.effects[n - 1] == EffectView::App(AppEventView::RequestRedraw)
            &&& match s.initial_user_message {
                Some(m) => submits(
                    after.effects.subrange(2, n - 1),
                    m.text,
                    m.extra_text,
                    m.image_paths,
                ),
                None => n == 3,
            }
            &&& after.state == WidgetView { initial_user_message: None, ..s }
        }),
{
    let msg = EventMsgView::SessionConfigured { history_log_id, history_entry_count };
    let after = s.handle(id, msg, ctx);
    if let Some(m) = s.initial_user_message {
        law_message_is_submitted_whole(s, m);
        assert(after.effects.subrange(2, after.effects.len() - 1) =~= s.submit_user_message(m));
    }
}

/// The prompt and every image with which a session starts reach the agent together: the first
/// time that the session is configured, one request goes out with the prompt as text, if it is not
/// empty, and one image after the other; and no other request holds input.
pub proof fn law_session_starts_with_prompt_and_images(
    prompt: Option<Seq<char>>,
    images: Seq<PathBuf>,
    model_context_window: Option<u64>,
    marker: Option<Seq<char>>,
    id: Seq<char>,
    history_log_id: u64,
    history_entry_count: usize,
    ctx: EventContextView,
)
    ensures
        ({
            let s = initial_state(prompt, images, model_context_window, marker);
            let msg = EventMsgView::SessionConfigured { history_log_id, history_entry_count };
            let effects = s.handle(id, msg, ctx).effects;
            let text = if prompt is Some {
                prompt->0
            } else {
                Seq::empty()
            };
            let t: int = if text.len() > 0 {
                1
            } else {
                0
            };
            if text.len() == 0 && images.len() == 0 {
                effects.len() == 3 && forall|i: int|
                    0 <= i < effects.len() ==> !((#[trigger] effects[i]) is Op)
            } else {
                &&& effects.len() == 4 + 2 * t
                &&& match effects[2] {
                    EffectView::Op(OpView::UserInput { items }) => {
                        &&& items.len() == t + images.len()
                        &&& t == 1 ==> items[0] == InputItemView::Text { text }
                        &&& forall|i: int|
                            #![trigger images[i]]
                            0 <= i < images.len() ==> items[t + i] == InputItemView::LocalImage {
                                path: images[i],
                            }
                    },
                    _ => false,
                }
                &&& t == 1 ==> effects[3] == EffectView::Op(OpView::AddToHistory { text })
                    && effects[4] == EffectView::History(HistoryCellView::UserPrompt(text))
            }
        }),
{
    let s = initial_state(prompt, images, model_context_window, marker);
    let msg = EventMsgView::SessionConfigured { history_log_id, history_entry_count };
    let effects = s.handle(id, msg, ctx).effects;
    law_session_configured(s, id, history_log_id, history_entry_count, ctx);
    if let Some(m) = s.initial_user_message {
        let sent = effects.subrange(2, effects.len() - 1);
        assert(sent[0] == effects[2]);
        if m.text.len() > 0 {
            assert(sent[1] == effects[3]);
            assert(sent[2] == effects[4]);
        }
    }
}

// ---------------------------------------------------------------------------
// The start
// ---------------------------------------------------------------------------

/// A widget starts with nothing but what it is given.
pub proof fn law_widget_starts_empty(
    prompt: Option<Seq<char>>,
    images: Seq<PathBuf>,
    model_context_window: Option<u64>,
    marker: Option<Seq<char>>,
)
    ensures
        ({
            let s = initial_state(prompt, images, model_context_window, marker);
            let none = TokenUsage {
                input_tokens: 0,
                cached_input_tokens: None,
                output_tokens: 0,
                reasoning_output_tokens: None,
                total_tokens: 0,
            };
            &&& s.active_history_cell is None
            &&& s.total_token_usage == none
            &&& s.last_token_usage == none
            &&& s.reasoning_buffer.len() == 0
            &&& s.content_buffer.len() == 0
            &&& s.answer_buffer.len() == 0
            &&& forall|call_id: Seq<char>| !(#[trigger] s.running_commands.contains_key(call_id))
            &&& s.current_stream is None
            &&& !s.stream_header_emitted
            &&& s.live_max_rows == 3
            &&& s.vscode_selection is None
            &&& s.model_context_window == model_context_window
            &&& s.ipc_connected == (marker is Some && advertised_path(marker->0) is Some)
        }),
{
}

/// When a widget starts, reading and writing start at the address that the editor advertises, if
/// it does; and then the pane shows that the editor's extension is there, if it is.
pub proof fn law_channel_starts_where_advertised(
    marker: Option<Seq<char>>,
    extension_active: bool,
)
    ensures
        ({
            let effects = initial_effects(marker, extension_active);
            let advertised = marker is Some && advertised_path(marker->0) is Some;
            let a: int = if advertised {
                2
            } else {
                0
            };
            let d: int = if extension_active {
                1
            } else {
                0
            };
            &&& effects.len() == a + d
            &&& advertised ==> {
                let path = advertised_path(marker->0)->0;
                &&& effects[0] == EffectView::StartIpcReader(path)
                &&& effects[1] == EffectView::StartIpcWriter(path)
            }
            &&& extension_active ==> effects[a] == EffectView::Pane(
                PaneCallView::SetIdeDetected(true),
            )
        }),
{
}

// ---------------------------------------------------------------------------
// Cancelling
// ---------------------------------------------------------------------------

/// The outcome is that of an interruption: the agent is told, and nothing of the task stays.
pub open spec fn interrupts(after: Outcome, s: WidgetView) -> bool {
    &&& after.effects == seq![
        EffectView::Pane(PaneCallView::ClearCtrlCQuitHint),
        EffectView::Op(OpView::Interrupt),
        EffectView::Pane(PaneCallView::SetTaskRunning(false)),
        EffectView::Pane(PaneCallView::ClearLiveRing),
        EffectView::ResetRows,
        EffectView::App(AppEventView::RequestRedraw),
    ]
    &&& after.state == WidgetView {
        active_history_cell: None,
        current_stream: None,
        stream_header_emitted: false,
        answer_buffer: Seq::empty(),
        reasoning_buffer: Seq::empty(),
        content_buffer: Seq::empty(),
        ..s
    }
}

/// A task is interrupted where one is running, and nothing happens where none is.
pub proof fn law_task_is_interrupted(s: WidgetView)
    ensures
        interrupts(s.interrupt(true), s),
        s.interrupt(false).effects.len() == 0,
        s.interrupt(false).state == s,
{
}

/// Ctrl-C does one thing at a time: where the pane has used it up, nothing; where a task is
/// running, it interrupts the task; where the hint is shown, it shuts the agent down; and else it
/// shows the hint.
pub proof fn law_ctrl_c(
    s: WidgetView,
    pane_result: CancellationEvent,
    task_running: bool,
    hint_visible: bool,
)
    ensures
        ({
            let after = s.ctrl_c(pane_result, task_running, hint_visible);
            match pane_result {
                CancellationEvent::Handled => after.effects.len() == 0 && after.state == s,
                CancellationEvent::Ignored => if task_running {
                    interrupts(after, s)
                } else {
                    &&& after.state == s
                    &&& after.effects == seq![
                        if hint_visible {
                            EffectView::Op(OpView::Shutdown)
                        } else {
                            EffectView::Pane(PaneCallView::ShowCtrlCQuitHint)
                        },
                    ]
                },
            }
        }),
{
}

/// An error is shown, and ends the task; an entry in progress stays.
pub proof fn law_error(s: WidgetView, id: Seq<char>, message: Seq<char>, ctx: EventContextView)
    ensures
        ({
            let after = s.handle(id, EventMsgView::Error { message }, ctx);
            &&& after.effects == seq![
                EffectView::History(HistoryCellView::ErrorEvent(message)),
                EffectView::Pane(PaneCallView::SetTaskRunning(false)),
                EffectView::Pane(PaneCallView::ClearLiveRing),
                EffectView::ResetRows,
                EffectView::App(AppEventView::RequestRedraw),
            ]
            &&& after.state == WidgetView {
                current_stream: None,
                stream_header_emitted: false,
                answer_buffer: Seq::empty(),
                reasoning_buffer: Seq::empty(),
                content_buffer: Seq::empty(),
                ..s
            }
        }),
{
}

// ---------------------------------------------------------------------------
// The selection and the tokens
// ---------------------------------------------------------------------------

/// The selection is kept as it is, and the hint tells its number of lines, if it has any, and its
/// path.
pub proof fn law_selection_is_kept_and_hinted(s: WidgetView, sel: Option<SelectionView>)
    ensures
        ({
            let after = s.set_vscode_selection(sel);
            &&& after.state == WidgetView { vscode_selection: sel, ..s }
            &&& after.effects.len() == 1
            &&& match after.effects[0] {
                EffectView::Pane(PaneCallView::SetVscodeSelectionHint { lines, rel_path }) => {
                    &&& lines is Some <==> sel is Some && sel->0.lines > 0
                    &&& lines is Some ==> lines->0 == sel->0.lines
                    &&& rel_path == (if sel is Some {
                        sel->0.rel_path
                    } else {
                        None
                    })
                },
                _ => false,
            }
        }),
{
}

/// `sum` is the sum of two counts, either of which may be unknown.
pub open spec fn adds_up(a: Option<u64>, b: Option<u64>, sum: Option<u64>) -> bool {
    match (a, b) {
        (None, None) => sum is None,
        (Some(x), None) => sum == Some(x),
        (None, Some(y)) => sum == Some(y),
        (Some(x), Some(y)) => sum is Some && sum->0 == x + y,
    }
}

/// The sum of two counts does not overflow.
pub open spec fn no_overflow(a: Option<u64>, b: Option<u64>) -> bool {
    a is Some && b is Some ==> a->0 + b->0 <= u64::MAX
}

/// A token count is added to the total, number by number, and kept as the last one; the pane gets
/// both. Nothing else changes.
pub proof fn law_token_count(
    s: WidgetView,
    id: Seq<char>,
    usage: TokenUsage,
    ctx: EventContextView,
)
    requires
        s.total_token_usage.input_tokens + usage.input_tokens <= u64::MAX,
        s.total_token_usage.output_tokens + usage.output_tokens <= u64::MAX,
        s.total_token_usage.total_tokens + usage.total_tokens <= u64::MAX,
        no_overflow(s.total_token_usage.cached_input_tokens, usage.cached_input_tokens),
        no_overflow(s.total_token_usage.reasoning_output_tokens, usage.reasoning_output_tokens),
    ensures
        s.accepts(EventMsgView::TokenCount(usage), ctx),
        ({
            let after = s.handle(id, EventMsgView::TokenCount(usage), ctx);
            let before = s.total_token_usage;
            let total = after.state.total_token_usage;
            &&& total.input_tokens == before.input_tokens + usage.input_tokens
            &&& total.output_tokens == before.output_tokens + usage.output_tokens
            &&& total.total_tokens == before.total_tokens + usage.total_tokens
            &&& adds_up(
                before.cached_input_tokens,
                usage.cached_input_tokens,
                total.cached_input_tokens,
            )
            &&& adds_up(
                before.reasoning_output_tokens,
                usage.reasoning_output_tokens,
                total.reasoning_output_tokens,
            )
            &&& after.state == WidgetView {
                total_token_usage: total,
                last_token_usage: usage,
                ..s
            }
            &&& after.effects == seq![
                EffectView::Pane(
                    PaneCallView::SetTokenUsage {
                        total,
                        last: usage,
                        context_window: s.model_context_window,
                    },
                ),
            ]
        }),
{
}

/// Clearing sets the total to nothing, keeps the last count, and the pane gets both.
pub proof fn law_tokens_are_cleared(s: WidgetView)
    ensures
        ({
            let after = s.clear_token_usage();
            let none = TokenUsage {
                input_tokens: 0,
                cached_input_tokens: None,
                output_tokens: 0,
                reasoning_output_tokens: None,
                total_tokens: 0,
            };
            &&& after.state == WidgetView { total_token_usage: none, ..s }
            &&& after.effects == seq![
                EffectView::Pane(
                    PaneCallView::SetTokenUsage {
                        total: none,
                        last: s.last_token_usage,
                        context_window: s.model_context_window,
                    },
                ),
            ]
        }),
{
}

/// Every event can be handled, but for a token count that overflows and a patch whose form for
/// the editor is not at hand where the editor listens.
pub proof fn law_events_are_accepted(s: WidgetView, msg: EventMsgView, ctx: EventContextView)
    ensures
        !(msg is TokenCount) && !(msg is ApplyPatchApprovalRequest) ==> s.accepts(msg, ctx),
        msg is ApplyPatchApprovalRequest && (!ctx.extension_active || ctx.mirror is Some)
            ==> s.accepts(msg, ctx),
{
}

// ---------------------------------------------------------------------------
// Requests for approval
// ---------------------------------------------------------------------------

/// The effect sends the editor, in one line, the object with these members and no others.
pub open spec fn tells_editor(effect: EffectView, members: Map<Seq<char>, JsonView>) -> bool {
    effect == EffectView::Ipc(json_text(JsonView::Object(members)))
}

/// A text, or null.
pub open spec fn text_if_given(text: Option<Seq<char>>) -> JsonView {
    if text is Some {
        JsonView::Text(text->0)
    } else {
        JsonView::Null
    }
}

proof fn lemma_objects()
    ensures
        forall|changes: JsonView, cwd: Seq<char>|
            #[trigger] object_of(exec_patch_members(changes, cwd)) == map![
                "type"@ => JsonView::Text("apply_patch"@),
                "changes"@ => changes,
                "title"@ => JsonView::Text("Proposed Patch"@),
                "cwd"@ => JsonView::Text(cwd),
            ],
        forall|
            call_id: Seq<char>,
            changes: JsonView,
            reason: Option<Seq<char>>,
            grant_root: Option<Seq<char>>,
        |
            #[trigger] object_of(patch_request_members(call_id, changes, reason, grant_root))
                == map![
                "type"@ => JsonView::Text("apply_patch"@),
                "call_id"@ => JsonView::Text(call_id),
                "changes"@ => changes,
                "reason"@ => text_if_given(reason),
                "grant_root"@ => text_if_given(grant_root),
                "title"@ => JsonView::Text("Proposed Patch"@),
            ],
        forall|success: bool, call_id: Seq<char>|
            #[trigger] object_of(patch_applied_members(success, call_id)) == map![
                "type"@ => JsonView::Text("patch_applied"@),
                "success"@ => JsonView::Bool(success),
                "call_id"@ => JsonView::Text(call_id),
            ],
        forall|unified_diff: Seq<char>|
            #[trigger] object_of(turn_diff_members(unified_diff)) == map![
                "type"@ => JsonView::Text("turn_diff"@),
                "unified_diff"@ => JsonView::Text(unified_diff),
                "title"@ => JsonView::Text("Turn Diff"@),
            ],
{
    assert forall|changes: JsonView, cwd: Seq<char>| #[trigger]
        object_of(exec_patch_members(changes, cwd)) == map![
            "type"@ => JsonView::Text("apply_patch"@),
            "changes"@ => changes,
            "title"@ => JsonView::Text("Proposed Patch"@),
            "cwd"@ => JsonView::Text(cwd),
        ] by {
        lemma_object_ends(exec_patch_members(changes, cwd));
    }
    assert forall|
        call_id: Seq<char>,
        changes: JsonView,
        reason: Option<Seq<char>>,
        grant_root: Option<Seq<char>>,
    | #[trigger]
        object_of(patch_request_members(call_id, changes, reason, grant_root)) == map![
            "type"@ => JsonView::Text("apply_patch"@),
            "call_id"@ => JsonView::Text(call_id),
            "changes"@ => changes,
            "reason"@ => text_if_given(reason),
            "grant_root"@ => text_if_given(grant_root),
            "title"@ => JsonView::Text("Proposed Patch"@),
        ] by {
        lemma_object_ends(patch_request_members(call_id, changes, reason, grant_root));
    }
    assert forall|success: bool, call_id: Seq<char>| #[trigger]
        object_of(patch_applied_members(success, call_id)) == map![
            "type"@ => JsonView::Text("patch_applied"@),
            "success"@ => JsonView::Bool(success),
            "call_id"@ => JsonView::Text(call_id),
        ] by {
        lemma_object_ends(patch_applied_members(success, call_id));
    }
    assert forall|unified_diff: Seq<char>| #[trigger]
        object_of(turn_diff_members(unified_diff)) == map![
            "type"@ => JsonView::Text("turn_diff"@),
            "unified_diff"@ => JsonView::Text(unified_diff),
            "title"@ => JsonView::Text("Turn Diff"@),
        ] by {
        lemma_object_ends(turn_diff_members(unified_diff));
    }
}

/// An object of up to six members, member by member.
proof fn lemma_object_ends(members: Seq<(Seq<char>, JsonView)>)
    requires
        members.len() <= 6,
    ensures
        ({
            let m0 = Map::<Seq<char>, JsonView>::empty();
            let m1 = m0.insert(members[0].0, members[0].1);
            let m2 = m1.insert(members[1].0, members[1].1);
            let m3 = m2.insert(members[2].0, members[2].1);
            let m4 = m3.insert(members[3].0, members[3].1);
            let m5 = m4.insert(members[4].0, members[4].1);
            let m6 = m5.insert(members[5].0, members[5].1);
            &&& members.len() == 3 ==> object_of(members) == m3
            &&& members.len() == 4 ==> object_of(members) == m4
            &&& members.len() == 6 ==> object_of(members) == m6
        }),
{
    reveal_with_fuel(object_of, 7);
}

/// A request to run a command always asks the user: whatever the state and the context, the
/// effects end with one request for approval that holds the event's own id, command, directory and
/// reason, and with a redraw. Before that, the running stream ends, and the editor gets to see the
/// patch, if there is one and it listens. Nothing else is done.
pub proof fn law_request_to_run_a_command_asks(
    s: WidgetView,
    id: Seq<char>,
    call_id: Seq<char>,
    command: Seq<Seq<char>>,
    cwd: PathBuf,
    reason: Option<Seq<char>>,
    ctx: EventContextView,
)
    ensures
        ({
            let msg = EventMsgView::ExecApprovalRequest { call_id, command, cwd, reason };
            let after = s.handle(id, msg, ctx);
            let n = after.effects.len() as int;
            let told = ctx.extension_active && s.ipc_connected && ctx.proposal is Some;
            let k = if told {
                n - 3
            } else {
                n - 2
            };
            &&& k >= 0
            &&& after.effects[n - 2] == EffectView::Pane(
                PaneCallView::PushApprovalRequest(
                    ApprovalRequestView::Exec { id, command, cwd, reason },
                ),
            )
            &&& after.effects[n - 1] == EffectView::App(AppEventView::RequestRedraw)
            &&& told ==> tells_editor(
                after.effects[k],
                map![
                    "type"@ => JsonView::Text("apply_patch"@),
                    "changes"@ => ctx.proposal->0.changes,
                    "title"@ => JsonView::Text("Proposed Patch"@),
                    "cwd"@ => JsonView::Text(ctx.proposal->0.cwd),
                ],
            )
            &&& ends_stream(after.effects.take(k), s, ctx.remaining)
            &&& after.state == ended(s)
        }),
{
    lemma_objects();
    law_stream_ends(s, StreamKind::Answer, ctx.remaining);
    let msg = EventMsgView::ExecApprovalRequest { call_id, command, cwd, reason };
    let after = s.handle(id, msg, ctx);
    let closed = s.finalize_active_stream(ctx.remaining).effects;
    assert(after.effects.take(closed.len() as int) =~= closed);
}

/// A request to apply a patch always shows the patch and then asks the user, whatever the state
/// and the context. Before that, the running stream ends, and the editor gets to see the patch, if
/// it listens. Nothing else is done.
pub proof fn law_request_to_apply_a_patch_asks(
    s: WidgetView,
    id: Seq<char>,
    call_id: Seq<char>,
    changes: Seq<ChangedFileView>,
    reason: Option<Seq<char>>,
    grant_root: Option<PathBuf>,
    ctx: EventContextView,
)
    ensures
        ({
            let msg = EventMsgView::ApplyPatchApprovalRequest {
                call_id,
                changes,
                reason,
                grant_root,
            };
            let after = s.handle(id, msg, ctx);
            let n = after.effects.len() as int;
            let told = ctx.extension_active && s.ipc_connected && ctx.mirror is Some;
            let k = if told {
                n - 4
            } else {
                n - 3
            };
            &&& k >= 0
            &&& after.effects[n - 3] == EffectView::History(
                HistoryCellView::PatchEvent {
                    event_type: PatchEventType::ApprovalRequest,
                    changes,
                },
            )
            &&& after.effects[n - 2] == EffectView::Pane(
                PaneCallView::PushApprovalRequest(
                    ApprovalRequestView::ApplyPatch { id, reason, grant_root },
                ),
            )
            &&& after.effects[n - 1] == EffectView::App(AppEventView::RequestRedraw)
            &&& told ==> tells_editor(
                after.effects[k],
                map![
                    "type"@ => JsonView::Text("apply_patch"@),
                    "call_id"@ => JsonView::Text(call_id),
                    "changes"@ => ctx.mirror->0.changes,
                    "reason"@ => text_if_given(reason),
                    "grant_root"@ => text_if_given(ctx.mirror->0.grant_root),
                    "title"@ => JsonView::Text("Proposed Patch"@),
                ],
            )
            &&& ends_stream(after.effects.take(k), s, ctx.remaining)
            &&& after.state == ended(s)
        }),
{
    lemma_objects();
    law_stream_ends(s, StreamKind::Answer, ctx.remaining);
    let msg = EventMsgView::ApplyPatchApprovalRequest { call_id, changes, reason, grant_root };
    let after = s.handle(id, msg, ctx);
    let closed = s.finalize_active_stream(ctx.remaining).effects;
    assert(after.effects.take(closed.len() as int) =~= closed);
}

// ---------------------------------------------------------------------------
// Commands, patches and tool calls
// ---------------------------------------------------------------------------

/// A command that begins ends the running stream, is shown as running, and is remembered under its
/// call. Other calls are not touched.
pub proof fn law_command_begins(
    s: WidgetView,
    id: Seq<char>,
    call_id: Seq<char>,
    command: Seq<Seq<char>>,
    cwd: PathBuf,
    ctx: EventContextView,
)
    ensures
        ({
            let msg = EventMsgView::ExecCommandBegin { call_id, command, cwd };
            let after = s.handle(id, msg, ctx);
            let n = after.effects.len() as int;
            &&& n >= 1
            &&& after.effects[n - 1] == EffectView::Pane(
                PaneCallView::UpdateStatusText("running command"@),
            )
            &&& ends_stream(after.effects.take(n - 1), s, ctx.remaining)
            &&& after.state == WidgetView {
                running_commands: s.running_commands.insert(
                    call_id,
                    RunningCommandView { command, cwd },
                ),
                active_history_cell: Some(HistoryCellView::ActiveExecCommand(command)),
                ..ended(s)
            }
        }),
{
    law_stream_ends(s, StreamKind::Answer, ctx.remaining);
    let after = s.handle(id, EventMsgView::ExecCommandBegin { call_id, command, cwd }, ctx);
    assert(after.effects.take(after.effects.len() - 1) =~= s.finalize_active_stream(
        ctx.remaining,
    ).effects);
}

/// A command that ends is shown once, with all that it has put out, under the command of its call,
/// or under the call where none is known. The call is forgotten, and no entry is in progress.
pub proof fn law_command_ends(
    s: WidgetView,
    id: Seq<char>,
    call_id: Seq<char>,
    exit_code: i32,
    stdout: Seq<char>,
    stderr: Seq<char>,
    ctx: EventContextView,
)
    ensures
        ({
            let msg = EventMsgView::ExecCommandEnd { call_id, exit_code, stdout, stderr };
            let after = s.handle(id, msg, ctx);
            &&& after.effects == seq![
                EffectView::History(
                    HistoryCellView::CompletedExecCommand {
                        command: if s.running_commands.contains_key(call_id) {
                            s.running_commands[call_id].command
                        } else {
                            seq![call_id]
                        },
                        output: CommandOutputView { exit_code, stdout, stderr },
                    },
                ),
            ]
            &&& after.state == WidgetView {
                running_commands: s.running_commands.remove(call_id),
                active_history_cell: None,
                ..s
            }
        }),
{
}

/// A patch that is about to be applied is shown.
pub proof fn law_patch_begins(
    s: WidgetView,
    id: Seq<char>,
    call_id: Seq<char>,
    auto_approved: bool,
    changes: Seq<ChangedFileView>,
    ctx: EventContextView,
)
    ensures
        ({
            let msg = EventMsgView::PatchApplyBegin { call_id, auto_approved, changes };
            let after = s.handle(id, msg, ctx);
            &&& after.effects == seq![
                EffectView::History(
                    HistoryCellView::PatchEvent {
                        event_type: PatchEventType::ApplyBegin { auto_approved },
                        changes,
                    },
                ),
            ]
            &&& after.state == s
        }),
{
}

/// A patch that could not be applied is shown with the error; and the editor learns in any case
/// how it went, if it listens.
pub proof fn law_patch_ends(
    s: WidgetView,
    id: Seq<char>,
    call_id: Seq<char>,
    stderr: Seq<char>,
    success: bool,
    ctx: EventContextView,
)
    ensures
        ({
            let msg = EventMsgView::PatchApplyEnd { call_id, stderr, success };
            let after = s.handle(id, msg, ctx);
            let n = after.effects.len() as int;
            let told = ctx.extension_active && s.ipc_connected;
            let f: int = if success {
                0
            } else {
                1
            };
            &&& n == f + (if told {
                1int
            } else {
                0int
            })
            &&& !success ==> after.effects[0] == EffectView::History(
                HistoryCellView::PatchApplyFailure(stderr),
            )
            &&& told ==> tells_editor(
                after.effects[f],
                map![
                    "type"@ => JsonView::Text("patch_applied"@),
                    "success"@ => JsonView::Bool(success),
                    "call_id"@ => JsonView::Text(call_id),
                ],
            )
            &&& after.state == s
        }),
{
    lemma_objects();
}

/// A tool call is shown when it begins, once the running stream has ended; and when it ends, as an
/// error only if it says so of itself.
pub proof fn law_tool_calls(
    s: WidgetView,
    id: Seq<char>,
    call_id: Seq<char>,
    result: Option<Option<bool>>,
    ctx: EventContextView,
)
    ensures
        ({
            let after = s.handle(id, EventMsgView::McpToolCallBegin { call_id }, ctx);
            let n = after.effects.len() as int;
            &&& n >= 1
            &&& after.effects[n - 1] == EffectView::History(HistoryCellView::ActiveMcpToolCall)
            &&& ends_stream(after.effects.take(n - 1), s, ctx.remaining)
            &&& after.state == ended(s)
        }),
        ({
            let after = s.handle(id, EventMsgView::McpToolCallEnd { call_id, result }, ctx);
            &&& after.effects == seq![
                EffectView::History(
                    HistoryCellView::CompletedMcpToolCall {
                        num_cols: 80,
                        is_error: result is Some && result->0 is Some && result->0->0,
                    },
                ),
            ]
            &&& after.state == s
        }),
{
    law_stream_ends(s, StreamKind::Answer, ctx.remaining);
    let after = s.handle(id, EventMsgView::McpToolCallBegin { call_id }, ctx);
    assert(after.effects.take(after.effects.len() - 1) =~= s.finalize_active_stream(
        ctx.remaining,
    ).effects);
}

// ---------------------------------------------------------------------------
// The other events
// ---------------------------------------------------------------------------

/// A task that starts and one that is complete show on the pane.
pub proof fn law_task_starts_and_completes(
    s: WidgetView,
    id: Seq<char>,
    last_agent_message: Option<Seq<char>>,
    ctx: EventContextView,
)
    ensures
        s.handle(id, EventMsgView::TaskStarted, ctx).effects == seq![
            EffectView::Pane(PaneCallView::ClearCtrlCQuitHint),
            EffectView::Pane(PaneCallView::SetTaskRunning(true)),
            EffectView::Pane(PaneCallView::UpdateStatusText("waiting for model"@)),
            EffectView::App(AppEventView::RequestRedraw),
        ],
        s.handle(id, EventMsgView::TaskStarted, ctx).state == s,
        s.handle(id, EventMsgView::TaskComplete { last_agent_message }, ctx).effects == seq![
            EffectView::Pane(PaneCallView::SetTaskRunning(false)),
            EffectView::Pane(PaneCallView::ClearLiveRing),
            EffectView::App(AppEventView::RequestRedraw),
        ],
        s.handle(id, EventMsgView::TaskComplete { last_agent_message }, ctx).state == s,
{
}

/// Events that the widget only hands on are handed on whole, and change nothing.
pub proof fn law_events_are_handed_on(
    s: WidgetView,
    id: Seq<char>,
    offset: usize,
    log_id: u64,
    entry: Option<Seq<char>>,
    message: Seq<char>,
    ctx: EventContextView,
)
    ensures
        ({
            let after = s.handle(id, EventMsgView::PlanUpdate, ctx);
            &&& after.effects == seq![EffectView::History(HistoryCellView::PlanUpdate)]
            &&& after.state == s
        }),
        ({
            let msg = EventMsgView::GetHistoryEntryResponse { offset, log_id, entry };
            let after = s.handle(id, msg, ctx);
            &&& after.effects == seq![
                EffectView::Pane(
                    PaneCallView::OnHistoryEntryResponse { log_id, offset, entry },
                ),
            ]
            &&& after.state == s
        }),
        ({
            let after = s.handle(id, EventMsgView::ShutdownComplete, ctx);
            &&& after.effects == seq![EffectView::App(AppEventView::ExitRequest)]
            &&& after.state == s
        }),
        ({
            let after = s.handle(id, EventMsgView::BackgroundEvent { message }, ctx);
            &&& after.effects == seq![EffectView::Log("BackgroundEvent: "@ + message)]
            &&& after.state == s
        }),
        ({
            let after = s.handle(id, EventMsgView::ExecCommandOutputDelta, ctx);
            &&& after.effects.len() == 0
            &&& after.state == s
        }),
{
}

/// The changes of a turn go to the editor where its extension is active and there is a channel,
/// and to the log where the extension is not active.
pub proof fn law_turn_diff(
    s: WidgetView,
    id: Seq<char>,
    unified_diff: Seq<char>,
    ctx: EventContextView,
)
    ensures
        ({
            let after = s.handle(id, EventMsgView::TurnDiff { unified_diff }, ctx);
            &&& after.state == s
            &&& if !ctx.extension_active {
                after.effects == seq![EffectView::Log("TurnDiffEvent: "@ + unified_diff)]
            } else if s.ipc_connected {
                after.effects.len() == 1 && tells_editor(
                    after.effects[0],
                    map![
                        "type"@ => JsonView::Text("turn_diff"@),
                        "unified_diff"@ => JsonView::Text(unified_diff),
                        "title"@ => JsonView::Text("Turn Diff"@),
                    ],
                )
            } else {
                after.effects.len() == 0
            }
        }),
{
    lemma_objects();
}

// ---------------------------------------------------------------------------
// The builder of live rows
// ---------------------------------------------------------------------------

/// A piece of a stream is appended to the builder, which starts afresh for a new stream and gives
/// up the rows of the old one first.
pub proof fn law_piece_goes_to_the_builder(
    s: WidgetView,
    msg: EventMsgView,
    kind: StreamKind,
    delta: Seq<char>,
)
    requires
        is_piece(msg, kind, delta),
    ensures
        ({
            let calls = s.row_calls(msg);
            let n = calls.len() as int;
            &&& n >= 3
            &&& calls[n - 3] == RowCallView::PushFragment(delta)
            &&& calls[n - 2] == RowCallView::DrainCommitReady(s.live_max_rows as usize)
            &&& calls[n - 1] == RowCallView::DisplayRows
            &&& if s.current_stream == Some(kind) {
                n == 3
            } else if s.current_stream is None {
                n == 4 && calls[0] == RowCallView::Reset
            } else {
                n == 7 && calls[0] == RowCallView::EndLine && calls[1] == RowCallView::DrainRows
                    && calls[2] == RowCallView::Reset && calls[3] == RowCallView::Reset
            }
        }),
{
}

/// The rows that remain are taken out of the builder exactly where a stream ends, and a whole
/// answer is wrapped exactly where it is shown. Other events do not touch the builder.
pub proof fn law_builder_is_used_where_needed(
    s: WidgetView,
    msg: EventMsgView,
    message: Seq<char>,
)
    ensures
        ({
            let calls = s.row_calls(EventMsgView::AgentMessage { message });
            let whole = message.len() > 0 && s.answer_buffer.len() == 0 && s.current_stream != Some(
                StreamKind::Answer,
            );
            let wrapping = seq![
                RowCallView::Reset,
                RowCallView::PushFragment(message),
                RowCallView::EndLine,
                RowCallView::DisplayRows,
                RowCallView::Reset,
            ];
            let closing = seq![RowCallView::EndLine, RowCallView::DrainRows, RowCallView::Reset];
            if whole && s.current_stream is Some {
                calls == closing + wrapping
            } else if whole {
                calls == wrapping
            } else if s.current_stream == Some(StreamKind::Answer) {
                calls == closing
            } else {
                calls.len() == 0
            }
        }),
        msg is AgentReasoning || msg is AgentReasoningRawContent ==> s.row_calls(msg) == (
        if s.current_stream == Some(StreamKind::Reasoning) {
            seq![RowCallView::EndLine, RowCallView::DrainRows, RowCallView::Reset]
        } else {
            Seq::empty()
        }),
        msg is ExecApprovalRequest || msg is ApplyPatchApprovalRequest || msg is ExecCommandBegin
            || msg is McpToolCallBegin ==> s.row_calls(msg) == (if s.current_stream is Some {
            seq![RowCallView::EndLine, RowCallView::DrainRows, RowCallView::Reset]
        } else {
            Seq::empty()
        }),
        msg is SessionConfigured || msg is TaskStarted || msg is TaskComplete || msg is TokenCount
            || msg is Error || msg is PlanUpdate || msg is ExecCommandOutputDelta
            || msg is ExecCommandEnd || msg is PatchApplyBegin || msg is PatchApplyEnd
            || msg is McpToolCallEnd || msg is GetHistoryEntryResponse || msg is ShutdownComplete
            || msg is TurnDiff || msg is BackgroundEvent ==> s.row_calls(msg).len() == 0,
{
}

/// The entry in progress counts with its own height, and only while there is one.
pub proof fn law_entry_in_progress_has_its_height(s: WidgetView, cell_height: u16)
    ensures
        s.active_history_cell is Some ==> s.active_height(cell_height) == cell_height,
        s.active_history_cell is None ==> s.active_height(cell_height) == 0,
{
}

} // verus!
