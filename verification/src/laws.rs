//! What holds of the library as a whole.
use std::path::PathBuf;

use vstd::prelude::*;

use crate::app_event::{AppEventView, LineView, SelectionView};
use crate::chatwidget::initial_state;
use crate::effect::{
    ApprovalRequestView, CommandOutputView, EffectView, HistoryCellView, PaneCallView,
    PatchEventType,
};
use crate::install::{
    after_probe, candidates, earlier, listed_version, needs_install, stable_tools, version_of,
    InstallFailure, InstallState, Version,
};
use crate::ipc::{WriterInputView, WriterStepView, WriterView};
use crate::json::{distinct_keys, json_text, object_of, JsonView};
use crate::layout::{rows_on_screen, stacked, Rect};
use crate::patch::{detected_changes, runs_as_apply_patch};
use crate::payload::{
    exec_patch_members, lemma_keys, patch_applied_members, patch_request_members,
    turn_diff_members,
};
use crate::protocol::{
    changed_paths, distinct_paths, no_usage, patched_paths, protocol_change, usage_fits, usage_sum,
    ChangedFileView, EventMsgView, InputItemView, OpView, PatchedFile, TokenUsage,
};
use crate::selection::{context_of, selection_block, selection_header, selection_of};
use crate::text::{
    decimal, decimal_value, is_digit, lines_of, natural_of, numeral_digits, split_on,
};
use crate::transition::{
    header_line, insert_history, plain_line, plain_lines, redraw, CancellationEvent,
    EventContextView, Outcome, StreamKind, WidgetView,
};
use crate::user_message::{text_items, UserMessageView};

verus! {

// ---------------------------------------------------------------------------
// The invariant
// ---------------------------------------------------------------------------

/// A widget starts without a stream, and with no header shown.
pub proof fn law_start_keeps_header_in_step(
    prompt: Option<Seq<char>>,
    images: Seq<PathBuf>,
    model_context_window: Option<u64>,
    marker: Option<Seq<char>>,
)
    ensures
        initial_state(prompt, images, model_context_window, marker).inv(),
{
}

/// Whatever happens to the widget, the header of a stream has been shown exactly while there is
/// a stream.
pub proof fn law_header_in_step_with_stream(
    s: WidgetView,
    id: Seq<char>,
    msg: EventMsgView,
    ctx: EventContextView,
    pane_result: CancellationEvent,
    task_running: bool,
    hint_visible: bool,
    sel: Option<SelectionView>,
)
    requires
        s.inv(),
    ensures
        s.handle(id, msg, ctx).state.inv(),
        s.interrupt(task_running).state.inv(),
        s.ctrl_c(pane_result, task_running, hint_visible).state.inv(),
        s.set_vscode_selection(sel).state.inv(),
        s.clear_token_usage().state.inv(),
{
}

// ---------------------------------------------------------------------------
// Streams
// ---------------------------------------------------------------------------

/// The lines that an effect appends to the history directly.
pub open spec fn lines_in(effect: EffectView) -> Seq<LineView> {
    match effect {
        EffectView::App(AppEventView::InsertHistory(lines)) => lines,
        _ => Seq::empty(),
    }
}

/// The lines that effects append to the history directly, in their order.
pub open spec fn history_lines(effects: Seq<EffectView>) -> Seq<LineView>
    decreases effects.len(),
{
    if effects.len() == 0 {
        Seq::empty()
    } else {
        history_lines(effects.drop_last()) + lines_in(effects.last())
    }
}

proof fn lemma_history_lines_add(a: Seq<EffectView>, b: Seq<EffectView>)
    ensures
        history_lines(a + b) == history_lines(a) + history_lines(b),
    decreases b.len(),
{
    if b.len() == 0 {
        assert(a + b =~= a);
    } else {
        assert((a + b).drop_last() =~= a + b.drop_last());
        lemma_history_lines_add(a, b.drop_last());
        assert(history_lines(a + b) =~= history_lines(a) + history_lines(b));
    }
}

proof fn lemma_history_lines_one(e: EffectView)
    ensures
        history_lines(seq![e]) == lines_in(e),
{
    reveal_with_fuel(history_lines, 2);
    assert(seq![e].drop_last() =~= Seq::empty());
    assert(history_lines(seq![e]) =~= lines_in(e));
}

proof fn lemma_history_lines_two(e: EffectView, f: EffectView)
    ensures
        history_lines(seq![e, f]) == lines_in(e) + lines_in(f),
{
    lemma_history_lines_one(e);
    lemma_history_lines_one(f);
    lemma_history_lines_add(seq![e], seq![f]);
    assert(seq![e] + seq![f] =~= seq![e, f]);
}

/// A piece of a stream: its text, the rows that overflowed, and the rows that are left to show.
pub struct Piece {
    pub delta: Seq<char>,
    pub drained: Seq<Seq<char>>,
    pub rows: Seq<Seq<char>>,
}

/// The context in which a piece is handled.
pub open spec fn piece_context(ctx: EventContextView, piece: Piece) -> EventContextView {
    EventContextView { drained: piece.drained, rows: piece.rows, ..ctx }
}

/// The outcome of pieces of one stream, one after the other.
pub open spec fn stream_run(
    s: WidgetView,
    kind: StreamKind,
    ctx: EventContextView,
    pieces: Seq<Piece>,
) -> Outcome
    decreases pieces.len(),
{
    if pieces.len() == 0 {
        s.unchanged()
    } else {
        let before = stream_run(s, kind, ctx, pieces.drop_last());
        let last = before.state.stream_delta(
            kind,
            pieces.last().delta,
            piece_context(ctx, pieces.last()),
        );
        Outcome { state: last.state, effects: before.effects + last.effects }
    }
}

/// All rows that overflowed, in their order.
pub open spec fn all_drained(pieces: Seq<Piece>) -> Seq<Seq<char>>
    decreases pieces.len(),
{
    if pieces.len() == 0 {
        Seq::empty()
    } else {
        all_drained(pieces.drop_last()) + pieces.last().drained
    }
}

/// The text of all pieces.
pub open spec fn all_text(pieces: Seq<Piece>) -> Seq<char>
    decreases pieces.len(),
{
    if pieces.len() == 0 {
        Seq::empty()
    } else {
        all_text(pieces.drop_last()) + pieces.last().delta
    }
}

/// The buffer of a stream.
pub open spec fn buffer_of(s: WidgetView, kind: StreamKind) -> Seq<char> {
    match kind {
        StreamKind::Answer => s.answer_buffer,
        StreamKind::Reasoning => s.reasoning_buffer,
    }
}

proof fn lemma_plain_lines_add(a: Seq<Seq<char>>, b: Seq<Seq<char>>)
    ensures
        plain_lines(a + b) == plain_lines(a) + plain_lines(b),
{
    assert(plain_lines(a + b) =~= plain_lines(a) + plain_lines(b));
}

proof fn lemma_one_piece(
    s: WidgetView,
    kind: StreamKind,
    delta: Seq<char>,
    ctx: EventContextView,
)
    requires
        s.inv(),
        s.current_stream is None || s.current_stream == Some(kind),
    ensures
        ({
            let after = s.stream_delta(kind, delta, ctx);
            &&& after.state.inv()
            &&& after.state.current_stream == Some(kind)
            &&& buffer_of(after.state, kind) == buffer_of(s, kind) + delta
            &&& history_lines(after.effects) == (if s.current_stream is None {
                seq![header_line(kind)]
            } else {
                Seq::empty()
            }) + plain_lines(ctx.drained)
        }),
{
    let begun = s.begin_stream(kind, ctx.remaining);
    let pushed = begun.state.buffered(kind, delta).push_rows(ctx.drained, ctx.rows);
    lemma_history_lines_add(begun.effects + pushed.effects, seq![redraw()]);
    lemma_history_lines_add(begun.effects, pushed.effects);
    lemma_history_lines_one(redraw());
    if s.current_stream is None {
        let status = EffectView::Pane(PaneCallView::UpdateStatusText("waiting for model"@));
        let header = insert_history(seq![header_line(kind)]);
        assert(begun.effects =~= seq![status, header]);
        lemma_history_lines_two(status, header);
        assert(history_lines(begun.effects) =~= seq![header_line(kind)]);
    } else {
        assert(history_lines(begun.effects) =~= Seq::empty());
    }
    let live = EffectView::Pane(
        PaneCallView::SetLiveRingRows {
            max_rows: begun.state.live_max_rows,
            rows: plain_lines(ctx.rows),
        },
    );
    if ctx.drained.len() == 0 {
        assert(pushed.effects =~= seq![live]);
        lemma_history_lines_one(live);
        assert(history_lines(pushed.effects) =~= plain_lines(ctx.drained));
    } else {
        let shown = insert_history(Seq::empty() + plain_lines(ctx.drained));
        assert(pushed.effects =~= seq![shown, live]);
        lemma_history_lines_two(shown, live);
        assert(history_lines(pushed.effects) =~= plain_lines(ctx.drained));
    }
    assert(history_lines(s.stream_delta(kind, delta, ctx).effects) =~= (
    if s.current_stream is None {
        seq![header_line(kind)]
    } else {
        Seq::empty()
    }) + plain_lines(ctx.drained));
}

/// While pieces of a stream come in, the history gets its header once, and after it every row
/// that overflows, once and in order; and the stream's buffer collects the text of all pieces.
pub proof fn law_stream_shows_every_row_once(
    s: WidgetView,
    kind: StreamKind,
    ctx: EventContextView,
    pieces: Seq<Piece>,
)
    requires
        s.inv(),
        s.current_stream is None,
        pieces.len() > 0,
    ensures
        ({
            let run = stream_run(s, kind, ctx, pieces);
            &&& run.state.inv()
            &&& run.state.current_stream == Some(kind)
            &&& buffer_of(run.state, kind) == buffer_of(s, kind) + all_text(pieces)
            &&& history_lines(run.effects) == seq![header_line(kind)] + plain_lines(
                all_drained(pieces),
            )
        }),
    decreases pieces.len(),
{
    reveal_with_fuel(stream_run, 2);
    reveal_with_fuel(all_text, 2);
    reveal_with_fuel(all_drained, 2);
    let rest = pieces.drop_last();
    let last = pieces.last();
    let before = stream_run(s, kind, ctx, rest);
    let after = before.state.stream_delta(kind, last.delta, piece_context(ctx, last));
    if rest.len() > 0 {
        law_stream_shows_every_row_once(s, kind, ctx, rest);
    }
    lemma_one_piece(before.state, kind, last.delta, piece_context(ctx, last));
    lemma_history_lines_add(before.effects, after.effects);
    lemma_plain_lines_add(all_drained(rest), last.drained);
    let run = stream_run(s, kind, ctx, pieces);
    assert(buffer_of(run.state, kind) =~= buffer_of(s, kind) + all_text(pieces));
    assert(history_lines(run.effects) =~= seq![header_line(kind)] + plain_lines(
        all_drained(pieces),
    ));
}

/// When a stream ends, the history gets the rows that remain, in order, and a blank line after
/// them; nothing if no row remains.
pub proof fn law_stream_ends_with_remaining_rows(
    s: WidgetView,
    kind: StreamKind,
    remaining: Seq<Seq<char>>,
)
    requires
        s.inv(),
        s.current_stream == Some(kind),
    ensures
        s.finalize_stream(kind, remaining).state.current_stream is None,
        history_lines(s.finalize_stream(kind, remaining).effects) == (if remaining.len() > 0 {
            plain_lines(remaining).push(plain_line(""@))
        } else {
            Seq::empty()
        }),
{
    let ring = EffectView::Pane(PaneCallView::ClearLiveRing);
    let lines = Seq::<LineView>::empty() + plain_lines(remaining) + seq![plain_line(""@)];
    let effects = s.finalize_stream(kind, remaining).effects;
    if remaining.len() > 0 {
        assert(effects =~= seq![insert_history(lines), ring]);
        lemma_history_lines_two(insert_history(lines), ring);
        assert(history_lines(effects) =~= plain_lines(remaining).push(plain_line(""@)));
    } else {
        assert(effects =~= seq![ring]);
        lemma_history_lines_one(ring);
        assert(history_lines(effects) =~= Seq::empty());
    }
}

/// A whole answer, or a whole line of reasoning, from its first piece to its final event: the
/// history gets the header, every row of the stream in order, and a blank line where rows
/// remained at the end.
pub proof fn law_stream_transcript(
    s: WidgetView,
    kind: StreamKind,
    ctx: EventContextView,
    pieces: Seq<Piece>,
    remaining: Seq<Seq<char>>,
)
    requires
        s.inv(),
        s.current_stream is None,
        pieces.len() > 0,
    ensures
        ({
            let run = stream_run(s, kind, ctx, pieces);
            let end = run.state.finalize_stream(kind, remaining);
            history_lines(run.effects + end.effects) == seq![header_line(kind)] + plain_lines(
                all_drained(pieces) + remaining,
            ) + (if remaining.len() > 0 {
                seq![plain_line(""@)]
            } else {
                Seq::empty()
            })
        }),
{
    law_stream_shows_every_row_once(s, kind, ctx, pieces);
    let run = stream_run(s, kind, ctx, pieces);
    law_stream_ends_with_remaining_rows(run.state, kind, remaining);
    let end = run.state.finalize_stream(kind, remaining);
    lemma_history_lines_add(run.effects, end.effects);
    lemma_plain_lines_add(all_drained(pieces), remaining);
    assert(history_lines(run.effects + end.effects) =~= seq![header_line(kind)] + plain_lines(
        all_drained(pieces) + remaining,
    ) + (if remaining.len() > 0 {
        seq![plain_line(""@)]
    } else {
        Seq::empty()
    }));
}

/// A stream ends once: to end it again, or to end one that is not running, does nothing. To begin
/// one that is running does nothing either.
pub proof fn law_streams_begin_and_end_once(
    s: WidgetView,
    kind: StreamKind,
    remaining: Seq<Seq<char>>,
    more: Seq<Seq<char>>,
)
    ensures
        s.finalize_stream(kind, remaining).state.finalize_stream(kind, more)
            == s.finalize_stream(kind, remaining).state.unchanged(),
        s.current_stream != Some(kind) ==> s.finalize_stream(kind, more) == s.unchanged(),
        s.begin_stream(kind, remaining).state.begin_stream(kind, more) == s.begin_stream(
            kind,
            remaining,
        ).state.unchanged(),
{
}

/// Where a stream begins while one of the other kind is running, the other one ends first, with
/// the rows that remain of it and a blank line after them; then the history gets the header of
/// the new one.
pub proof fn law_other_stream_ends_first(
    s: WidgetView,
    kind: StreamKind,
    remaining: Seq<Seq<char>>,
)
    requires
        s.inv(),
        s.current_stream is Some,
        s.current_stream != Some(kind),
    ensures
        s.begin_stream(kind, remaining).state.current_stream == Some(kind),
        history_lines(s.begin_stream(kind, remaining).effects) == (if remaining.len() > 0 {
            plain_lines(remaining).push(plain_line(""@))
        } else {
            Seq::empty()
        }).push(header_line(kind)),
{
    let other = s.current_stream->0;
    let closed = s.finalize_stream(other, remaining);
    let status = EffectView::Pane(PaneCallView::UpdateStatusText("waiting for model"@));
    let header = insert_history(seq![header_line(kind)]);
    law_stream_ends_with_remaining_rows(s, other, remaining);
    lemma_history_lines_two(status, header);
    lemma_history_lines_add(closed.effects, seq![status, header]);
    assert(s.begin_stream(kind, remaining).effects =~= closed.effects + seq![status, header]);
    assert(history_lines(s.begin_stream(kind, remaining).effects) =~= history_lines(
        closed.effects,
    ).push(header_line(kind)));
}

/// An answer as a whole: header, rows, and a blank line.
pub open spec fn whole_answer(rows: Seq<Seq<char>>) -> Seq<LineView> {
    seq![header_line(StreamKind::Answer)] + plain_lines(rows).push(plain_line(""@))
}

/// The lines about streams that an event puts into the history: where it ends a stream, the rows
/// that remain and a blank line after them; where it begins one, the header; and the rows that
/// overflow. An answer of which no text has been streamed is there as a whole.
pub open spec fn stream_lines(s: WidgetView, msg: EventMsgView, ctx: EventContextView) -> Seq<
    LineView,
> {
    let closing = if s.closes_stream(msg) && ctx.remaining.len() > 0 {
        plain_lines(ctx.remaining).push(plain_line(""@))
    } else {
        Seq::empty()
    };
    let rest = match WidgetView::delta_of(msg) {
        Some((kind, _)) => {
            let header = if s.current_stream == Some(kind) {
                Seq::empty()
            } else {
                seq![header_line(kind)]
            };
            header + plain_lines(ctx.drained)
        },
        None => if s.unstreamed_answer(msg) is Some {
            whole_answer(ctx.rows)
        } else {
            Seq::empty()
        },
    };
    closing + rest
}

proof fn lemma_no_history_lines(effects: Seq<EffectView>)
    requires
        forall|i: int| 0 <= i < effects.len() ==> lines_in(#[trigger] effects[i]).len() == 0,
    ensures
        history_lines(effects) == Seq::<LineView>::empty(),
    decreases effects.len(),
{
    if effects.len() > 0 {
        let rest = effects.drop_last();
        assert forall|i: int| 0 <= i < rest.len() implies lines_in(
            #[trigger] rest[i],
        ).len() == 0 by {
            assert(rest[i] == effects[i]);
        }
        lemma_no_history_lines(rest);
        assert(lines_in(effects[effects.len() - 1]).len() == 0);
        assert(history_lines(effects) =~= Seq::empty());
    }
}

proof fn lemma_closing_lines(s: WidgetView, remaining: Seq<Seq<char>>, after: Seq<EffectView>)
    requires
        s.inv(),
        forall|i: int| 0 <= i < after.len() ==> lines_in(#[trigger] after[i]).len() == 0,
    ensures
        history_lines(s.finalize_active_stream(remaining).effects + after) == (
        if s.current_stream is Some && remaining.len() > 0 {
            plain_lines(remaining).push(plain_line(""@))
        } else {
            Seq::empty()
        }),
{
    if let Some(kind) = s.current_stream {
        law_stream_ends_with_remaining_rows(s, kind, remaining);
    }
    lemma_no_history_lines(after);
    lemma_history_lines_add(s.finalize_active_stream(remaining).effects, after);
}

proof fn lemma_delta_lines(
    s: WidgetView,
    kind: StreamKind,
    delta: Seq<char>,
    ctx: EventContextView,
)
    requires
        s.inv(),
    ensures
        history_lines(s.stream_delta(kind, delta, ctx).effects) == (if s.current_stream is Some
            && s.current_stream != Some(kind) && ctx.remaining.len() > 0 {
            plain_lines(ctx.remaining).push(plain_line(""@))
        } else {
            Seq::empty()
        }) + ((if s.current_stream == Some(kind) {
            Seq::empty()
        } else {
            seq![header_line(kind)]
        }) + plain_lines(ctx.drained)),
{
    if s.current_stream is None || s.current_stream == Some(kind) {
        lemma_one_piece(s, kind, delta, ctx);
        assert(history_lines(s.stream_delta(kind, delta, ctx).effects) =~= Seq::empty() + ((
        if s.current_stream == Some(kind) {
            Seq::empty()
        } else {
            seq![header_line(kind)]
        }) + plain_lines(ctx.drained)));
    } else {
        let begun = s.begin_stream(kind, ctx.remaining);
        law_other_stream_ends_first(s, kind, ctx.remaining);
        lemma_one_piece(begun.state, kind, delta, ctx);
        let after = begun.state.stream_delta(kind, delta, ctx);
        assert(s.stream_delta(kind, delta, ctx).effects =~= begun.effects + after.effects);
        lemma_history_lines_add(begun.effects, after.effects);
        assert(history_lines(s.stream_delta(kind, delta, ctx).effects) =~= (
        if ctx.remaining.len() > 0 {
            plain_lines(ctx.remaining).push(plain_line(""@))
        } else {
            Seq::empty()
        }) + (seq![header_line(kind)] + plain_lines(ctx.drained)));
    }
}

proof fn lemma_unstreamed_lines(s: WidgetView, ctx: EventContextView)
    requires
        s.inv(),
    ensures
        history_lines(
            s.finalize_active_stream(ctx.remaining).effects + seq![
                insert_history(whole_answer(ctx.rows)),
                redraw(),
            ],
        ) == (if s.current_stream is Some && ctx.remaining.len() > 0 {
            plain_lines(ctx.remaining).push(plain_line(""@))
        } else {
            Seq::empty()
        }) + whole_answer(ctx.rows),
{
    let closed = s.finalize_active_stream(ctx.remaining).effects;
    let whole = insert_history(whole_answer(ctx.rows));
    lemma_closing_lines(s, ctx.remaining, Seq::empty());
    assert(closed + Seq::<EffectView>::empty() =~= closed);
    lemma_history_lines_two(whole, redraw());
    lemma_history_lines_add(closed, seq![whole, redraw()]);
    assert(history_lines(seq![whole, redraw()]) =~= whole_answer(ctx.rows));
}

proof fn lemma_final_text_lines(
    s: WidgetView,
    id: Seq<char>,
    msg: EventMsgView,
    ctx: EventContextView,
)
    requires
        s.inv(),
        msg is AgentMessage || msg is AgentReasoning || msg is AgentReasoningRawContent,
    ensures
        history_lines(s.handle(id, msg, ctx).effects) == stream_lines(s, msg, ctx),
{
    let effects = s.handle(id, msg, ctx).effects;
    let closed = s.finalize_active_stream(ctx.remaining).effects;
    if s.unstreamed_answer(msg) is Some {
        lemma_unstreamed_lines(s, ctx);
        assert(effects =~= closed + seq![insert_history(whole_answer(ctx.rows)), redraw()]);
    } else if s.closes_stream(msg) {
        assert(effects =~= closed + seq![redraw()]);
        lemma_closing_lines(s, ctx.remaining, seq![redraw()]);
    } else {
        lemma_no_history_lines(effects);
    }
    assert(history_lines(effects) =~= stream_lines(s, msg, ctx));
}

proof fn lemma_request_lines(
    s: WidgetView,
    id: Seq<char>,
    msg: EventMsgView,
    ctx: EventContextView,
)
    requires
        s.inv(),
        msg is ExecApprovalRequest || msg is ApplyPatchApprovalRequest || msg is ExecCommandBegin
            || msg is McpToolCallBegin,
    ensures
        history_lines(s.handle(id, msg, ctx).effects) == stream_lines(s, msg, ctx),
{
    let effects = s.handle(id, msg, ctx).effects;
    let closed = s.finalize_active_stream(ctx.remaining).effects;
    let after = effects.skip(closed.len() as int);
    assert(effects =~= closed + after);
    lemma_closing_lines(s, ctx.remaining, after);
    assert(history_lines(effects) =~= stream_lines(s, msg, ctx));
}

/// Whatever the event, the history gets the rows of streams as they are handed over, once and in
/// order: first the rows that remain of a stream that ends, with a blank line after them, then the
/// header of a stream that begins, and then the rows that overflow. The final text of an answer
/// of which no text has been streamed is there as a whole. No other event puts any line of a
/// stream there.
#[verifier::spinoff_prover]
pub proof fn law_history_gets_the_rows_of_streams(
    s: WidgetView,
    id: Seq<char>,
    msg: EventMsgView,
    ctx: EventContextView,
)
    requires
        s.inv(),
    ensures
        history_lines(s.handle(id, msg, ctx).effects) == stream_lines(s, msg, ctx),
{
    let effects = s.handle(id, msg, ctx).effects;
    match msg {
        EventMsgView::AgentMessageDelta { delta } => {
            lemma_delta_lines(s, StreamKind::Answer, delta, ctx);
        },
        EventMsgView::AgentReasoningDelta { delta } => {
            lemma_delta_lines(s, StreamKind::Reasoning, delta, ctx);
        },
        EventMsgView::AgentReasoningRawContentDelta { delta } => {
            lemma_delta_lines(s, StreamKind::Reasoning, delta, ctx);
        },
        EventMsgView::AgentMessage { .. } | EventMsgView::AgentReasoning { .. }
        | EventMsgView::AgentReasoningRawContent { .. } => {
            lemma_final_text_lines(s, id, msg, ctx);
        },
        EventMsgView::ExecApprovalRequest { .. }
        | EventMsgView::ApplyPatchApprovalRequest { .. }
        | EventMsgView::ExecCommandBegin { .. }
        | EventMsgView::McpToolCallBegin { .. } => {
            lemma_request_lines(s, id, msg, ctx);
        },
        _ => {
            lemma_no_history_lines(effects);
        },
    }
}

/// The rows that an event leads to asking for are the rows that it uses: where it ends no stream,
/// the remaining rows do not matter; where it is no piece of a stream, the rows that overflow do
/// not; and where it brings no text to show, neither do the others.
pub proof fn law_rows_are_asked_for_where_used(
    s: WidgetView,
    id: Seq<char>,
    msg: EventMsgView,
    ctx: EventContextView,
    other: EventContextView,
)
    requires
        other.extension_active == ctx.extension_active,
        other.proposal == ctx.proposal,
        other.mirror == ctx.mirror,
        s.closes_stream(msg) ==> other.remaining == ctx.remaining,
        WidgetView::delta_of(msg) is Some ==> other.drained == ctx.drained,
        WidgetView::delta_of(msg) is Some || s.unstreamed_answer(msg) is Some ==> other.rows
            == ctx.rows,
    ensures
        s.handle(id, msg, other) == s.handle(id, msg, ctx),
{
}

// ---------------------------------------------------------------------------
// Runs
// ---------------------------------------------------------------------------

/// An event, and the context in which it is handled.
pub struct Occurrence {
    pub id: Seq<char>,
    pub msg: EventMsgView,
    pub ctx: EventContextView,
}

/// Something that changes the widget, or may: an event, the escape key or Ctrl-Z, Ctrl-C, a new
/// selection, or that the count of tokens is cleared.
pub enum Step {
    Event(Occurrence),
    Interruption { task_running: bool },
    CtrlC { pane_result: CancellationEvent, task_running: bool, hint_visible: bool },
    Selection(Option<SelectionView>),
    Clearing,
}

/// The state after one step.
pub open spec fn after_step(s: WidgetView, step: Step) -> WidgetView {
    match step {
        Step::Event(e) => s.handle(e.id, e.msg, e.ctx).state,
        Step::Interruption { task_running } => s.interrupt(task_running).state,
        Step::CtrlC { pane_result, task_running, hint_visible } => s.ctrl_c(
            pane_result,
            task_running,
            hint_visible,
        ).state,
        Step::Selection(sel) => s.set_vscode_selection(sel).state,
        Step::Clearing => s.clear_token_usage().state,
    }
}

/// The state after steps, one after the other.
pub open spec fn state_after(s: WidgetView, steps: Seq<Step>) -> WidgetView
    decreases steps.len(),
{
    if steps.len() == 0 {
        s
    } else {
        after_step(state_after(s, steps.drop_last()), steps.last())
    }
}

/// The header of a stream has been shown exactly while there is a stream, in every state that a
/// widget reaches.
pub proof fn law_header_in_step_along_runs(s: WidgetView, steps: Seq<Step>)
    requires
        s.inv(),
    ensures
        state_after(s, steps).inv(),
    decreases steps.len(),
{
    if steps.len() > 0 {
        law_header_in_step_along_runs(s, steps.drop_last());
    }
}

/// Whether a step says that the command of this call begins or ends.
pub open spec fn about_call(step: Step, call_id: Seq<char>) -> bool {
    match step {
        Step::Event(e) => match e.msg {
            EventMsgView::ExecCommandBegin { call_id: c, .. } => c == call_id,
            EventMsgView::ExecCommandEnd { call_id: c, .. } => c == call_id,
            _ => false,
        },
        _ => false,
    }
}

proof fn lemma_command_stays(s: WidgetView, steps: Seq<Step>, call_id: Seq<char>)
    requires
        forall|i: int| 0 <= i < steps.len() ==> !about_call(#[trigger] steps[i], call_id),
    ensures
        state_after(s, steps).command_of(call_id) == s.command_of(call_id),
    decreases steps.len(),
{
    if steps.len() > 0 {
        let rest = steps.drop_last();
        assert forall|i: int| 0 <= i < rest.len() implies !about_call(
            #[trigger] rest[i],
            call_id,
        ) by {
            assert(rest[i] == steps[i]);
        }
        lemma_command_stays(s, rest, call_id);
        assert(!about_call(steps[steps.len() - 1], call_id));
    }
}

/// A command that has begun is shown as the command that has ended, whatever else happens in
/// between, be it an interruption; and once it has ended, the call is forgotten.
pub proof fn law_command_is_shown_when_it_ends(
    s: WidgetView,
    call_id: Seq<char>,
    command: Seq<Seq<char>>,
    cwd: PathBuf,
    ctx: EventContextView,
    between: Seq<Step>,
    output: CommandOutputView,
)
    requires
        forall|i: int| 0 <= i < between.len() ==> !about_call(#[trigger] between[i], call_id),
    ensures
        ({
            let begun = s.exec_begin(call_id, command, cwd, ctx).state;
            let end = state_after(begun, between).exec_end(call_id, output);
            &&& end.effects == seq![
                EffectView::History(HistoryCellView::CompletedExecCommand { command, output }),
            ]
            &&& end.state.active_history_cell is None
            &&& end.state.command_of(call_id) == seq![call_id]
        }),
{
    lemma_command_stays(s.exec_begin(call_id, command, cwd, ctx).state, between, call_id);
}

/// The initial message is submitted when the session is configured, and never again: whatever
/// happens after that, none is left to submit.
pub proof fn law_initial_message_is_submitted_once(
    s: WidgetView,
    log_id: u64,
    entry_count: usize,
    steps: Seq<Step>,
)
    ensures
        state_after(
            s.session_configured(log_id, entry_count).state,
            steps,
        ).initial_user_message is None,
    decreases steps.len(),
{
    if steps.len() > 0 {
        law_initial_message_is_submitted_once(s, log_id, entry_count, steps.drop_last());
    }
}

// ---------------------------------------------------------------------------
// Answers
// ---------------------------------------------------------------------------

/// Whether a step leaves the text of an answer in its buffer: it is neither a final text nor an
/// error, and interrupts nothing.
pub open spec fn keeps_answer(step: Step) -> bool {
    match step {
        Step::Event(e) => !(e.msg is AgentMessage) && !(e.msg is Error),
        Step::Interruption { task_running } => !task_running,
        Step::CtrlC { pane_result, task_running, .. } => pane_result == CancellationEvent::Handled
            || !task_running,
        _ => true,
    }
}

proof fn lemma_answer_stays(s: WidgetView, steps: Seq<Step>)
    requires
        s.answer_buffer.len() > 0,
        forall|i: int| 0 <= i < steps.len() ==> keeps_answer(#[trigger] steps[i]),
    ensures
        state_after(s, steps).answer_buffer.len() > 0,
    decreases steps.len(),
{
    if steps.len() > 0 {
        let rest = steps.drop_last();
        assert forall|i: int| 0 <= i < rest.len() implies keeps_answer(#[trigger] rest[i]) by {
            assert(rest[i] == steps[i]);
        }
        lemma_answer_stays(s, rest);
        assert(keeps_answer(steps[steps.len() - 1]));
    }
}

/// An answer that has been streamed is not shown again. Once text of it has come, and whatever
/// happens then, be it that the stream ends early, its final text puts no line into the history
/// but the rows that remain of the answer's stream, if it is still running, and a blank line after
/// them. The steps in between hold no other final text, no error and no interruption.
pub proof fn law_streamed_answer_is_not_shown_again(
    s: WidgetView,
    id: Seq<char>,
    delta: Seq<char>,
    first: EventContextView,
    between: Seq<Step>,
    message: Seq<char>,
    ctx: EventContextView,
)
    requires
        s.inv(),
        delta.len() > 0,
        forall|i: int| 0 <= i < between.len() ==> keeps_answer(#[trigger] between[i]),
    ensures
        ({
            let begun = s.handle(id, EventMsgView::AgentMessageDelta { delta }, first).state;
            let before = state_after(begun, between);
            let end = before.handle(id, EventMsgView::AgentMessage { message }, ctx);
            history_lines(end.effects) == (if before.current_stream == Some(StreamKind::Answer)
                && ctx.remaining.len() > 0 {
                plain_lines(ctx.remaining).push(plain_line(""@))
            } else {
                Seq::empty()
            })
        }),
{
    let begun = s.handle(id, EventMsgView::AgentMessageDelta { delta }, first).state;
    let before = state_after(begun, between);
    let msg = EventMsgView::AgentMessage { message };
    law_header_in_step_along_runs(begun, between);
    lemma_answer_stays(begun, between);
    law_history_gets_the_rows_of_streams(before, id, msg, ctx);
    assert(stream_lines(before, msg, ctx) =~= (if before.current_stream == Some(StreamKind::Answer)
        && ctx.remaining.len() > 0 {
        plain_lines(ctx.remaining).push(plain_line(""@))
    } else {
        Seq::empty()
    }));
}

/// Whether a step is a piece of an answer.
pub open spec fn is_answer_piece(step: Step) -> bool {
    match step {
        Step::Event(e) => e.msg is AgentMessageDelta,
        _ => false,
    }
}

proof fn lemma_no_answer_comes(s: WidgetView, steps: Seq<Step>)
    requires
        s.answer_buffer.len() == 0,
        s.current_stream != Some(StreamKind::Answer),
        forall|i: int| 0 <= i < steps.len() ==> !is_answer_piece(#[trigger] steps[i]),
    ensures
        state_after(s, steps).answer_buffer.len() == 0,
        state_after(s, steps).current_stream != Some(StreamKind::Answer),
    decreases steps.len(),
{
    if steps.len() > 0 {
        let rest = steps.drop_last();
        assert forall|i: int| 0 <= i < rest.len() implies !is_answer_piece(#[trigger] rest[i]) by {
            assert(rest[i] == steps[i]);
        }
        lemma_no_answer_comes(s, rest);
        assert(!is_answer_piece(steps[steps.len() - 1]));
    }
}

/// An answer of which no piece has come, be it since the start or since the last final text, is
/// shown as a whole by its final text. A stream of reasoning that is running ends first.
pub proof fn law_unstreamed_answer_is_shown(
    s: WidgetView,
    steps: Seq<Step>,
    id: Seq<char>,
    message: Seq<char>,
    ctx: EventContextView,
)
    requires
        s.inv(),
        s.answer_buffer.len() == 0,
        s.current_stream != Some(StreamKind::Answer),
        forall|i: int| 0 <= i < steps.len() ==> !is_answer_piece(#[trigger] steps[i]),
        message.len() > 0,
    ensures
        ({
            let before = state_after(s, steps);
            let end = before.handle(id, EventMsgView::AgentMessage { message }, ctx);
            &&& end.state.current_stream is None
            &&& history_lines(end.effects) == (if before.current_stream is Some
                && ctx.remaining.len() > 0 {
                plain_lines(ctx.remaining).push(plain_line(""@))
            } else {
                Seq::empty()
            }) + whole_answer(ctx.rows)
        }),
{
    let before = state_after(s, steps);
    law_header_in_step_along_runs(s, steps);
    lemma_no_answer_comes(s, steps);
    law_history_gets_the_rows_of_streams(
        before,
        id,
        EventMsgView::AgentMessage { message },
        ctx,
    );
}

/// A widget starts ready for an answer, and is ready for the next one after a final text: no text
/// is buffered, and no answer is being streamed.
pub proof fn law_final_text_makes_ready_for_the_next_answer(
    prompt: Option<Seq<char>>,
    images: Seq<PathBuf>,
    model_context_window: Option<u64>,
    marker: Option<Seq<char>>,
    s: WidgetView,
    id: Seq<char>,
    message: Seq<char>,
    ctx: EventContextView,
)
    ensures
        ({
            let start = initial_state(prompt, images, model_context_window, marker);
            &&& start.answer_buffer.len() == 0
            &&& start.current_stream != Some(StreamKind::Answer)
        }),
        ({
            let after = s.handle(id, EventMsgView::AgentMessage { message }, ctx).state;
            &&& after.answer_buffer.len() == 0
            &&& after.current_stream != Some(StreamKind::Answer)
        }),
{
}

// ---------------------------------------------------------------------------
// Tokens
// ---------------------------------------------------------------------------

/// Usages add up in any order.
pub proof fn law_usage_adds_up(a: TokenUsage, b: TokenUsage, c: TokenUsage)
    requires
        usage_fits(a, b),
        usage_fits(b, c),
        usage_fits(usage_sum(a, b), c),
    ensures
        usage_fits(b, a),
        usage_sum(a, b) == usage_sum(b, a),
        usage_fits(a, usage_sum(b, c)),
        usage_sum(usage_sum(a, b), c) == usage_sum(a, usage_sum(b, c)),
        usage_sum(no_usage(), a) == a,
{
}

/// The sum of usages.
pub open spec fn total_of(usages: Seq<TokenUsage>) -> TokenUsage
    decreases usages.len(),
{
    if usages.len() == 0 {
        no_usage()
    } else {
        usage_sum(total_of(usages.drop_last()), usages.last())
    }
}

/// The token counts of steps, since the last clearing.
pub open spec fn counts_since_clearing(steps: Seq<Step>) -> Seq<TokenUsage>
    decreases steps.len(),
{
    if steps.len() == 0 {
        Seq::empty()
    } else {
        let before = counts_since_clearing(steps.drop_last());
        match steps.last() {
            Step::Clearing => Seq::empty(),
            Step::Event(e) => match e.msg {
                EventMsgView::TokenCount(usage) => before.push(usage),
                _ => before,
            },
            _ => before,
        }
    }
}

/// The last token count of steps, or the one from before where there is none among them. A
/// clearing leaves it alone.
pub open spec fn last_count(earlier_count: TokenUsage, steps: Seq<Step>) -> TokenUsage
    decreases steps.len(),
{
    if steps.len() == 0 {
        earlier_count
    } else {
        match steps.last() {
            Step::Event(e) => match e.msg {
                EventMsgView::TokenCount(usage) => usage,
                _ => last_count(earlier_count, steps.drop_last()),
            },
            _ => last_count(earlier_count, steps.drop_last()),
        }
    }
}

/// After the count has been cleared, and whatever happens then, the widget's total is the sum of
/// the counts since the last clearing, and its last usage is the last count.
pub proof fn law_tokens_are_counted_from_the_last_clearing(s: WidgetView, steps: Seq<Step>)
    ensures
        state_after(s.clear_token_usage().state, steps).total_token_usage == total_of(
            counts_since_clearing(steps),
        ),
        state_after(s.clear_token_usage().state, steps).last_token_usage == last_count(
            s.last_token_usage,
            steps,
        ),
    decreases steps.len(),
{
    if steps.len() > 0 {
        law_tokens_are_counted_from_the_last_clearing(s, steps.drop_last());
        let before = counts_since_clearing(steps.drop_last());
        if let Step::Event(e) = steps.last() {
            if let EventMsgView::TokenCount(usage) = e.msg {
                assert(before.push(usage).drop_last() =~= before);
            }
        }
    }
}

// ---------------------------------------------------------------------------
// The editor's selection
// ---------------------------------------------------------------------------

/// A selection that spans any line goes with the next text that the user submits: the agent gets
/// the text, and after it the selection, with its header and in a fenced block. The histories get
/// the text alone.
pub proof fn law_selection_goes_with_the_next_message(
    s: WidgetView,
    sel: SelectionView,
    text: Seq<char>,
)
    requires
        sel.lines > 0,
    ensures
        s.set_vscode_selection(Some(sel)).state.submit_typed(text) == seq![
            EffectView::Op(
                OpView::UserInput {
                    items: text_items(Some(text)).push(
                        InputItemView::Text {
                            text: selection_header(sel) + selection_block(sel),
                        },
                    ),
                },
            ),
        ] + (if text.len() > 0 {
            seq![
                EffectView::Op(OpView::AddToHistory { text }),
                EffectView::History(HistoryCellView::UserPrompt(text)),
            ]
        } else {
            Seq::empty()
        }),
{
    let t = s.set_vscode_selection(Some(sel)).state;
    let message = UserMessageView {
        extra_text: context_of(t.vscode_selection),
        ..UserMessageView::plain(text)
    };
    let context = selection_header(sel) + selection_block(sel);
    assert(context.len() > 0) by {
        reveal_strlit("```");
    }
    assert(message.items() =~= text_items(Some(text)).push(InputItemView::Text { text: context }));
}

/// Without a selection, or with one that spans no line, a text that the user submits goes to the
/// agent as it is.
pub proof fn law_no_selection_adds_nothing(s: WidgetView, text: Seq<char>)
    requires
        s.vscode_selection matches Some(sel) ==> sel.lines == 0,
    ensures
        s.submit_typed(text) == s.submit_user_message(UserMessageView::plain(text)),
{
}

/// What is selected in the editor is only ever part of a message that the user submits: what the
/// widget does with events, and when it is told of a selection, does not depend on the selected
/// text.
#[verifier::spinoff_prover]
#[verifier::rlimit(30)]
pub proof fn law_selected_text_leaves_only_with_a_message(
    s: WidgetView,
    sel: SelectionView,
    text: Option<Seq<char>>,
    id: Seq<char>,
    msg: EventMsgView,
    ctx: EventContextView,
    pane_result: CancellationEvent,
    task_running: bool,
    hint_visible: bool,
)
    ensures
        ({
            let with_text = WidgetView {
                vscode_selection: Some(SelectionView { text, ..sel }),
                ..s
            };
            &&& with_text.handle(id, msg, ctx).effects == s.handle(id, msg, ctx).effects
            &&& with_text.interrupt(task_running).effects == s.interrupt(task_running).effects
            &&& with_text.ctrl_c(pane_result, task_running, hint_visible).effects == s.ctrl_c(
                pane_result,
                task_running,
                hint_visible,
            ).effects
            &&& with_text.clear_token_usage().effects == s.clear_token_usage().effects
            &&& s.set_vscode_selection(Some(SelectionView { text, ..sel })).effects
                == s.set_vscode_selection(Some(sel)).effects
        }),
{
    let with_text = WidgetView { vscode_selection: Some(SelectionView { text, ..sel }), ..s };
    assert(with_text.handle(id, msg, ctx).effects =~= s.handle(id, msg, ctx).effects);
}

// ---------------------------------------------------------------------------
// The order of effects
// ---------------------------------------------------------------------------

/// A patch is shown in the history before the user is asked to approve it.
pub proof fn law_patch_is_shown_before_the_question(
    s: WidgetView,
    id: Seq<char>,
    call_id: Seq<char>,
    changes: Seq<ChangedFileView>,
    reason: Option<Seq<char>>,
    grant_root: Option<PathBuf>,
    ctx: EventContextView,
)
    ensures
        ({
            let msg = EventMsgView::ApplyPatchApprovalRequest {
                call_id,
                changes,
                reason,
                grant_root,
            };
            let effects = s.handle(id, msg, ctx).effects;
            let n = effects.len() as int;
            &&& n >= 3
            &&& effects[n - 3] == EffectView::History(
                HistoryCellView::PatchEvent {
                    event_type: PatchEventType::ApprovalRequest,
                    changes,
                },
            )
            &&& effects[n - 2] == EffectView::Pane(
                PaneCallView::PushApprovalRequest(
                    ApprovalRequestView::ApplyPatch { id, reason, grant_root },
                ),
            )
            &&& effects[n - 1] == redraw()
        }),
{
}

/// Where a command would apply a patch, the editor gets to see it before the user is asked.
pub proof fn law_editor_sees_a_patch_before_the_question(
    s: WidgetView,
    id: Seq<char>,
    call_id: Seq<char>,
    command: Seq<Seq<char>>,
    cwd: PathBuf,
    reason: Option<Seq<char>>,
    ctx: EventContextView,
)
    requires
        s.ipc_connected,
        ctx.extension_active,
        ctx.proposal is Some,
    ensures
        ({
            let msg = EventMsgView::ExecApprovalRequest { call_id, command, cwd, reason };
            let effects = s.handle(id, msg, ctx).effects;
            let n = effects.len() as int;
            let patch = ctx.proposal->0;
            &&& n >= 3
            &&& effects[n - 3] == EffectView::Ipc(
                json_text(
                    JsonView::Object(object_of(exec_patch_members(patch.changes, patch.cwd))),
                ),
            )
            &&& effects[n - 2] == EffectView::Pane(
                PaneCallView::PushApprovalRequest(
                    ApprovalRequestView::Exec { id, command, cwd, reason },
                ),
            )
            &&& effects[n - 1] == redraw()
        }),
{
}

/// The lines that effects send to the editor, in their order.
pub open spec fn editor_lines(effects: Seq<EffectView>) -> Seq<Seq<char>>
    decreases effects.len(),
{
    if effects.len() == 0 {
        Seq::empty()
    } else {
        let before = editor_lines(effects.drop_last());
        match effects.last() {
            EffectView::Ipc(line) => before.push(line),
            _ => before,
        }
    }
}

/// None of the effects sends a line to the editor.
pub open spec fn nothing_to_editor(effects: Seq<EffectView>) -> bool {
    forall|i: int| 0 <= i < effects.len() ==> !((#[trigger] effects[i]) is Ipc)
}

proof fn lemma_editor_lines_none(effects: Seq<EffectView>)
    requires
        nothing_to_editor(effects),
    ensures
        editor_lines(effects) == Seq::<Seq<char>>::empty(),
    decreases effects.len(),
{
    if effects.len() > 0 {
        assert(!(effects[effects.len() - 1] is Ipc));
        lemma_editor_lines_none(effects.drop_last());
    }
}

proof fn lemma_editor_lines_around(
    before: Seq<EffectView>,
    told: Seq<EffectView>,
    after: Seq<EffectView>,
)
    requires
        nothing_to_editor(before),
        nothing_to_editor(after),
        told.len() == 0 || (told.len() == 1 && told[0] is Ipc),
    ensures
        editor_lines(before + (told + after)) == (if told.len() == 0 {
            Seq::empty()
        } else {
            seq![told[0]->Ipc_0]
        }),
    decreases after.len(),
{
    let all = before + (told + after);
    if after.len() > 0 {
        assert(!(after[after.len() - 1] is Ipc));
        assert(all.drop_last() =~= before + (told + after.drop_last()));
        lemma_editor_lines_around(before, told, after.drop_last());
    } else if told.len() > 0 {
        assert(all.drop_last() =~= before);
        lemma_editor_lines_none(before);
        assert(editor_lines(all) =~= seq![told[0]->Ipc_0]);
    } else {
        assert(all =~= before);
        lemma_editor_lines_none(before);
    }
}

/// The message of which the editor is told by an event: a patch that a command would apply, a
/// patch for which approval is asked, that a patch has been applied, or the changes of a turn.
pub open spec fn message_for(msg: EventMsgView, ctx: EventContextView) -> Option<
    Seq<(Seq<char>, JsonView)>,
> {
    match msg {
        EventMsgView::ExecApprovalRequest { .. } => match ctx.proposal {
            Some(patch) => Some(exec_patch_members(patch.changes, patch.cwd)),
            None => None,
        },
        EventMsgView::ApplyPatchApprovalRequest { call_id, reason, .. } => match ctx.mirror {
            Some(patch) => Some(
                patch_request_members(call_id, patch.changes, reason, patch.grant_root),
            ),
            None => None,
        },
        EventMsgView::PatchApplyEnd { call_id, success, .. } => Some(
            patch_applied_members(success, call_id),
        ),
        EventMsgView::TurnDiff { unified_diff } => Some(turn_diff_members(unified_diff)),
        _ => None,
    }
}

/// The editor is told of an event exactly where the event has a message for it, its extension is
/// active and there is a channel to it; and it is told in one line.
pub proof fn law_editor_is_told_where_it_listens(
    s: WidgetView,
    id: Seq<char>,
    msg: EventMsgView,
    ctx: EventContextView,
)
    ensures
        editor_lines(s.handle(id, msg, ctx).effects) == (match message_for(msg, ctx) {
            Some(members) if ctx.extension_active && s.ipc_connected => seq![
                json_text(JsonView::Object(object_of(members))),
            ],
            _ => Seq::empty(),
        }),
{
    let effects = s.handle(id, msg, ctx).effects;
    let told = match message_for(msg, ctx) {
        Some(members) if ctx.extension_active => s.to_editor(members),
        _ => Seq::empty(),
    };
    let closed = s.finalize_active_stream(ctx.remaining).effects;
    assert(nothing_to_editor(closed));
    match msg {
        EventMsgView::ExecApprovalRequest { command, cwd, reason, .. } => {
            let after = seq![
                EffectView::Pane(
                    PaneCallView::PushApprovalRequest(
                        ApprovalRequestView::Exec { id, command, cwd, reason },
                    ),
                ),
                redraw(),
            ];
            assert(effects =~= closed + (told + after));
            lemma_editor_lines_around(closed, told, after);
        },
        EventMsgView::ApplyPatchApprovalRequest { call_id, changes, reason, grant_root } => {
            let after = seq![
                EffectView::History(
                    HistoryCellView::PatchEvent {
                        event_type: PatchEventType::ApprovalRequest,
                        changes,
                    },
                ),
                EffectView::Pane(
                    PaneCallView::PushApprovalRequest(
                        ApprovalRequestView::ApplyPatch { id, reason, grant_root },
                    ),
                ),
                redraw(),
            ];
            assert(effects =~= closed + (told + after));
            lemma_editor_lines_around(closed, told, after);
        },
        EventMsgView::PatchApplyEnd { call_id, stderr, success } => {
            let failure = if success {
                Seq::empty()
            } else {
                seq![EffectView::History(HistoryCellView::PatchApplyFailure(stderr))]
            };
            assert(effects =~= failure + (told + Seq::empty()));
            lemma_editor_lines_around(failure, told, Seq::empty());
        },
        EventMsgView::TurnDiff { .. } => {
            if ctx.extension_active {
                assert(effects =~= Seq::empty() + (told + Seq::empty()));
                lemma_editor_lines_around(Seq::empty(), told, Seq::empty());
            } else {
                assert(nothing_to_editor(effects));
                lemma_editor_lines_none(effects);
            }
        },
        EventMsgView::SessionConfigured { .. } => {
            if let Some(message) = s.initial_user_message {
                assert(nothing_to_editor(s.submit_user_message(message)));
            }
            assert(nothing_to_editor(effects));
            lemma_editor_lines_none(effects);
        },
        EventMsgView::AgentMessageDelta { delta } => {
            lemma_delta_tells_nothing(s, StreamKind::Answer, delta, ctx);
            lemma_editor_lines_none(effects);
        },
        EventMsgView::AgentReasoningDelta { delta } => {
            lemma_delta_tells_nothing(s, StreamKind::Reasoning, delta, ctx);
            lemma_editor_lines_none(effects);
        },
        EventMsgView::AgentReasoningRawContentDelta { delta } => {
            lemma_delta_tells_nothing(s, StreamKind::Reasoning, delta, ctx);
            lemma_editor_lines_none(effects);
        },
        _ => {
            assert(nothing_to_editor(effects));
            lemma_editor_lines_none(effects);
        },
    }
}

proof fn lemma_delta_tells_nothing(
    s: WidgetView,
    kind: StreamKind,
    delta: Seq<char>,
    ctx: EventContextView,
)
    ensures
        nothing_to_editor(s.stream_delta(kind, delta, ctx).effects),
{
    let begun = s.begin_stream(kind, ctx.remaining);
    assert(nothing_to_editor(begun.effects));
    let pushed = begun.state.buffered(kind, delta).push_rows(ctx.drained, ctx.rows);
    assert(nothing_to_editor(pushed.effects));
}

/// An interruption leaves no stream, no entry in progress and no buffered text behind, tells the
/// agent, and clears the rows that are shown live.
pub proof fn law_interruption_leaves_nothing_behind(s: WidgetView)
    ensures
        ({
            let after = s.interrupt(true);
            &&& after.state.current_stream is None
            &&& after.state.active_history_cell is None
            &&& after.state.answer_buffer.len() == 0
            &&& after.state.reasoning_buffer.len() == 0
            &&& after.state.content_buffer.len() == 0
            &&& after.effects.contains(EffectView::Op(OpView::Interrupt))
            &&& after.effects.contains(EffectView::Pane(PaneCallView::SetTaskRunning(false)))
            &&& after.effects.contains(EffectView::Pane(PaneCallView::ClearLiveRing))
            &&& after.effects.contains(EffectView::ResetRows)
        }),
{
    let effects = s.interrupt(true).effects;
    assert(effects[1] == EffectView::Op(OpView::Interrupt));
    assert(effects[2] == EffectView::Pane(PaneCallView::SetTaskRunning(false)));
    assert(effects[3] == EffectView::Pane(PaneCallView::ClearLiveRing));
    assert(effects[4] == EffectView::ResetRows);
}

// ---------------------------------------------------------------------------
// Lines to the editor
// ---------------------------------------------------------------------------

/// The state of the writer after inputs, one after the other.
pub open spec fn writer_after(w: WriterView, inputs: Seq<WriterInputView>) -> WriterView
    decreases inputs.len(),
{
    if inputs.len() == 0 {
        w
    } else {
        writer_after(w, inputs.drop_last()).after(inputs.last())
    }
}

/// Every input comes of the step that the writer wants at the time.
pub open spec fn writer_accepts(w: WriterView, inputs: Seq<WriterInputView>) -> bool
    decreases inputs.len(),
{
    inputs.len() > 0 ==> writer_accepts(w, inputs.drop_last()) && writer_after(
        w,
        inputs.drop_last(),
    ).accepts(inputs.last())
}

/// The lines that the writer has got.
pub open spec fn lines_received(inputs: Seq<WriterInputView>) -> Seq<Seq<char>>
    decreases inputs.len(),
{
    if inputs.len() == 0 {
        Seq::empty()
    } else {
        let before = lines_received(inputs.drop_last());
        match inputs.last() {
            WriterInputView::Received(line) => before.push(line),
            _ => before,
        }
    }
}

/// The texts that have been written: those of the steps that went well.
pub open spec fn texts_written(w: WriterView, inputs: Seq<WriterInputView>) -> Seq<Seq<char>>
    decreases inputs.len(),
{
    if inputs.len() == 0 {
        Seq::empty()
    } else {
        let before = texts_written(w, inputs.drop_last());
        match (inputs.last(), writer_after(w, inputs.drop_last()).step()) {
            (WriterInputView::Written, WriterStepView::Write(text)) => before.push(text),
            _ => before,
        }
    }
}

/// A line as it is written.
pub open spec fn as_written(lines: Seq<Seq<char>>) -> Seq<Seq<char>> {
    lines.map_values(|line: Seq<char>| line + "\n"@)
}

/// The writer loses no line, and keeps the order: at any time, what has been written and what is
/// in the backlog are together the lines that it has got.
pub proof fn law_writer_loses_no_line(w: WriterView, inputs: Seq<WriterInputView>)
    requires
        w.backlog.len() == 0,
        writer_accepts(w, inputs),
    ensures
        texts_written(w, inputs) + as_written(writer_after(w, inputs).backlog) == as_written(
            lines_received(inputs),
        ),
    decreases inputs.len(),
{
    if inputs.len() > 0 {
        let rest = inputs.drop_last();
        law_writer_loses_no_line(w, rest);
        let before = writer_after(w, rest);
        match inputs.last() {
            WriterInputView::Received(line) => {
                assert(as_written(before.backlog.push(line)) =~= as_written(before.backlog).push(
                    line + "\n"@,
                ));
                assert(as_written(lines_received(rest).push(line)) =~= as_written(
                    lines_received(rest),
                ).push(line + "\n"@));
            },
            WriterInputView::Written => {
                assert(as_written(before.backlog) =~= seq![before.backlog[0] + "\n"@]
                    + as_written(before.backlog.drop_first()));
            },
            _ => {},
        }
    }
    assert(texts_written(w, inputs) + as_written(writer_after(w, inputs).backlog) =~= as_written(
        lines_received(inputs),
    ));
}

// ---------------------------------------------------------------------------
// Messages to the editor
// ---------------------------------------------------------------------------

proof fn lemma_member_of_list(members: Seq<(Seq<char>, JsonView)>, k: int)
    requires
        distinct_keys(members),
        0 <= k < members.len(),
    ensures
        JsonView::Object(object_of(members)).member(members[k].0) == Some(members[k].1),
    decreases members.len(),
{
    let rest = members.drop_last();
    if k < members.len() - 1 {
        assert(members[k].0 != members[members.len() - 1].0);
        assert forall|i: int, j: int|
            #![trigger rest[i], rest[j]]
            0 <= i < j < rest.len() implies rest[i].0 != rest[j].0 by {
            assert(members[i] == rest[i]);
            assert(members[j] == rest[j]);
        }
        lemma_member_of_list(rest, k);
        assert(rest[k] == members[k]);
    }
}

/// What the editor reads in the message about a command that would apply a patch: its type, the
/// changes, a title and the directory.
pub proof fn law_editor_reads_a_proposed_command(changes: JsonView, cwd: Seq<char>)
    ensures
        ({
            let message = JsonView::Object(object_of(exec_patch_members(changes, cwd)));
            &&& message.text_member("type"@) == Some("apply_patch"@)
            &&& message.member("changes"@) == Some(changes)
            &&& message.text_member("title"@) == Some("Proposed Patch"@)
            &&& message.text_member("cwd"@) == Some(cwd)
        }),
{
    let members = exec_patch_members(changes, cwd);
    lemma_keys();
    lemma_member_of_list(members, 0);
    lemma_member_of_list(members, 1);
    lemma_member_of_list(members, 2);
    lemma_member_of_list(members, 3);
}

/// What the editor reads in the message about a patch for which approval is asked: its type, the
/// call, the changes, a title, and the reason and the directory as far as they are given.
pub proof fn law_editor_reads_a_proposed_patch(
    call_id: Seq<char>,
    changes: JsonView,
    reason: Option<Seq<char>>,
    grant_root: Option<Seq<char>>,
)
    ensures
        ({
            let message = JsonView::Object(
                object_of(patch_request_members(call_id, changes, reason, grant_root)),
            );
            &&& message.text_member("type"@) == Some("apply_patch"@)
            &&& message.text_member("call_id"@) == Some(call_id)
            &&& message.member("changes"@) == Some(changes)
            &&& message.text_member("reason"@) == reason
            &&& message.text_member("grant_root"@) == grant_root
            &&& message.text_member("title"@) == Some("Proposed Patch"@)
        }),
{
    let members = patch_request_members(call_id, changes, reason, grant_root);
    lemma_keys();
    lemma_member_of_list(members, 0);
    lemma_member_of_list(members, 1);
    lemma_member_of_list(members, 2);
    lemma_member_of_list(members, 3);
    lemma_member_of_list(members, 4);
    lemma_member_of_list(members, 5);
}

/// What the editor reads in the message that a patch has been applied: its type, whether that
/// went well, and the call.
pub proof fn law_editor_reads_an_applied_patch(success: bool, call_id: Seq<char>)
    ensures
        ({
            let message = JsonView::Object(object_of(patch_applied_members(success, call_id)));
            &&& message.text_member("type"@) == Some("patch_applied"@)
            &&& message.member("success"@) == Some(JsonView::Bool(success))
            &&& message.text_member("call_id"@) == Some(call_id)
        }),
{
    let members = patch_applied_members(success, call_id);
    lemma_keys();
    lemma_member_of_list(members, 0);
    lemma_member_of_list(members, 1);
    lemma_member_of_list(members, 2);
}

/// What the editor reads in the message about the changes of a turn: its type, the changes and a
/// title.
pub proof fn law_editor_reads_a_turn_diff(unified_diff: Seq<char>)
    ensures
        ({
            let message = JsonView::Object(object_of(turn_diff_members(unified_diff)));
            &&& message.text_member("type"@) == Some("turn_diff"@)
            &&& message.text_member("unified_diff"@) == Some(unified_diff)
            &&& message.text_member("title"@) == Some("Turn Diff"@)
        }),
{
    let members = turn_diff_members(unified_diff);
    lemma_keys();
    lemma_member_of_list(members, 0);
    lemma_member_of_list(members, 1);
    lemma_member_of_list(members, 2);
}

/// A message from the editor that is no object stands for an empty selection, which adds nothing
/// to a message.
pub proof fn law_other_messages_select_nothing(v: JsonView)
    requires
        !(v is Object),
    ensures
        selection_of(v).lines == 0,
        selection_of(v).text is None,
        context_of(Some(selection_of(v))) is None,
{
}

// ---------------------------------------------------------------------------
// Layout
// ---------------------------------------------------------------------------

/// The two areas lie one below the other, and together they are all rows of the area on the
/// screen. The upper one has no more rows than its maximum, and just as many where there is room
/// for both; the lower one has at least its minimum, or all rows there are.
pub proof fn law_areas_fill_the_screen(area: Rect, max: u16, min: u16)
    ensures
        ({
            let (upper, lower) = stacked(area, max, min);
            let rows = rows_on_screen(area);
            &&& upper.x == area.x && upper.width == area.width && upper.y == area.y
            &&& lower.x == area.x && lower.width == area.width
            &&& lower.y == upper.y + upper.height
            &&& upper.height + lower.height == rows
            &&& upper.height <= max
            &&& max + min <= rows ==> upper.height == max
            &&& min <= i16::MAX ==> lower.height >= min || lower.height == rows
        }),
{
}

// ---------------------------------------------------------------------------
// Text and numbers
// ---------------------------------------------------------------------------

proof fn lemma_decimal_digits(n: nat)
    ensures
        decimal(n).len() > 0,
        forall|i: int| 0 <= i < decimal(n).len() ==> is_digit(#[trigger] decimal(n)[i]),
        decimal_value(decimal(n)) == n,
    decreases n,
{
    reveal_with_fuel(decimal_value, 2);
    if n < 10 {
        assert(decimal(n).drop_last() =~= Seq::empty());
    } else {
        lemma_decimal_digits(n / 10);
        assert(decimal(n).drop_last() =~= decimal(n / 10));
    }
}

/// A line number in the header of a selection reads back as itself.
pub proof fn law_numerals_read_back(n: u64)
    ensures
        natural_of(decimal(n as nat)) == Some(n),
{
    lemma_decimal_digits(n as nat);
    let s = decimal(n as nat);
    assert(is_digit(s[0]));
    assert(numeral_digits(s) == s);
}

/// Parts with a separator between them.
pub open spec fn joined(parts: Seq<Seq<char>>, sep: char) -> Seq<char>
    decreases parts.len(),
{
    if parts.len() == 0 {
        Seq::empty()
    } else if parts.len() == 1 {
        parts[0]
    } else {
        joined(parts.drop_last(), sep).push(sep) + parts.last()
    }
}

/// A text is made up of its parts and the separators between them, and no part holds a separator.
pub proof fn law_split_text_joins_back(s: Seq<char>, sep: char)
    ensures
        split_on(s, sep).len() > 0,
        joined(split_on(s, sep), sep) == s,
        forall|i: int|
            0 <= i < split_on(s, sep).len() ==> !(#[trigger] split_on(s, sep)[i]).contains(sep),
    decreases s.len(),
{
    let parts = split_on(s, sep);
    if s.len() == 0 {
        assert(parts =~= seq![s]);
    } else {
        let before = split_on(s.drop_last(), sep);
        law_split_text_joins_back(s.drop_last(), sep);
        if s.last() == sep {
            assert(parts.drop_last() =~= before);
            assert(parts.last() =~= Seq::empty());
            assert(joined(parts, sep) =~= s);
        } else {
            let n = before.len() as int;
            assert(parts.drop_last() =~= before.drop_last());
            assert(parts.last() == before[n - 1].push(s.last()));
            if n == 1 {
                assert(joined(before, sep) == before[0]);
            }
            assert(joined(parts, sep) =~= joined(before, sep).push(s.last()));
            assert(joined(parts, sep) =~= s);
            assert forall|i: int| 0 <= i < parts.len() implies !(#[trigger] parts[i]).contains(
                sep,
            ) by {
                if i == n - 1 {
                    assert(!before[i].contains(sep));
                    assert forall|j: int| 0 <= j < parts[i].len() implies parts[i][j] != sep by {
                        if j < before[i].len() {
                            assert(before[i][j] == parts[i][j]);
                        }
                    }
                } else {
                    assert(parts[i] == before[i]);
                }
            }
        }
    }
}

/// No line of a text holds a line feed.
pub proof fn law_lines_hold_no_line_feed(s: Seq<char>)
    ensures
        forall|i: int|
            0 <= i < lines_of(s).len() ==> !(#[trigger] lines_of(s)[i]).contains('\n'),
{
    law_split_text_joins_back(s, '\n');
    let parts = split_on(s, '\n');
    assert forall|i: int| 0 <= i < lines_of(s).len() implies !(#[trigger] lines_of(
        s,
    )[i]).contains('\n') by {
        assert(!parts[i].contains('\n'));
        let line = lines_of(s)[i];
        assert forall|j: int| 0 <= j < line.len() implies line[j] != '\n' by {
            assert(parts[i][j] == line[j]);
        }
    }
}

// ---------------------------------------------------------------------------
// Installing the extension
// ---------------------------------------------------------------------------

/// Versions are in a strict total order.
pub proof fn law_versions_are_ordered(a: Version, b: Version, c: Version)
    ensures
        !earlier(a, a),
        earlier(a, b) && earlier(b, c) ==> earlier(a, c),
        earlier(a, b) || earlier(b, a) || a == b,
        !(earlier(a, b) && earlier(b, a)),
{
}

proof fn lemma_three_digits(a: char, b: char, c: char)
    requires
        is_digit(a),
        is_digit(b),
        is_digit(c),
    ensures
        version_of(seq![a, '.', b, '.', c]) == (
            (a as u64 - '0' as u64) as u64,
            (b as u64 - '0' as u64) as u64,
            (c as u64 - '0' as u64) as u64,
        ),
{
    let s0 = Seq::<char>::empty();
    let s1 = seq![a];
    let s2 = seq![a, '.'];
    let s3 = seq![a, '.', b];
    let s4 = seq![a, '.', b, '.'];
    let s5 = seq![a, '.', b, '.', c];
    assert(s1.drop_last() =~= s0);
    assert(s2.drop_last() =~= s1);
    assert(s3.drop_last() =~= s2);
    assert(s4.drop_last() =~= s3);
    assert(s5.drop_last() =~= s4);
    assert(split_on(s0, '.') =~= seq![s0]);
    assert(split_on(s1, '.') =~= seq![seq![a]]) by {
        assert(s0.push(a) =~= seq![a]);
    }
    assert(split_on(s2, '.') =~= seq![seq![a], s0]);
    assert(split_on(s3, '.') =~= seq![seq![a], seq![b]]) by {
        assert(s0.push(b) =~= seq![b]);
    }
    assert(split_on(s4, '.') =~= seq![seq![a], seq![b], s0]);
    assert(split_on(s5, '.') =~= seq![seq![a], seq![b], seq![c]]) by {
        assert(s0.push(c) =~= seq![c]);
    }
    lemma_one_digit(a);
    lemma_one_digit(b);
    lemma_one_digit(c);
}

proof fn lemma_one_digit(c: char)
    requires
        is_digit(c),
    ensures
        natural_of(seq![c]) == Some((c as u64 - '0' as u64) as u64),
{
    reveal_with_fuel(decimal_value, 2);
    assert(numeral_digits(seq![c]) == seq![c]);
    assert(seq![c].drop_last() =~= Seq::empty());
    assert(decimal_value(seq![c]) == (c as nat - '0' as nat) as nat);
}

/// The extension is installed or updated where the list of extensions cannot be had, where it
/// does not name the extension, and where it gives version zero; in no other case.
pub proof fn law_installed_unless_recent(listing: Option<Seq<char>>)
    ensures
        needs_install(listing) == (match listing {
            Some(text) => match listed_version(text) {
                Some(version) => version_of(version) == (0u64, 0u64, 0u64),
                None => true,
            },
            None => true,
        }),
{
    reveal_strlit("0.0.1");
    assert("0.0.1"@ =~= seq!['0', '.', '0', '.', '1']);
    lemma_three_digits('0', '0', '1');
}

/// The extension is updated where it is listed as version `0.0.0`, as it is on a line that gives
/// no version.
pub proof fn law_extension_without_version_is_updated(listing: Seq<char>)
    requires
        listed_version(listing) == Some("0.0.0"@),
    ensures
        needs_install(Some(listing)),
{
    reveal_strlit("0.0.0");
    assert("0.0.0"@ =~= seq!['0', '.', '0', '.', '0']);
    lemma_three_digits('0', '0', '0');
    law_installed_unless_recent(Some(listing));
}

/// The state of the installer after candidates have been tried, one after the other.
pub open spec fn probed_all(count: nat, results: Seq<bool>) -> InstallState
    decreases results.len(),
{
    if results.len() == 0 {
        InstallState::Probe(0)
    } else {
        after_probe(probed_all(count, results.drop_last()), count, results.last())
    }
}

/// The installer uses the first candidate that works, and gives up where none does.
pub proof fn law_first_working_tool_is_used(count: nat, results: Seq<bool>)
    requires
        0 < count <= usize::MAX,
        results.len() <= count,
        forall|i: int| 0 <= i < results.len() - 1 ==> !(#[trigger] results[i]),
    ensures
        probed_all(count, results) == (if results.len() > 0 && results.last() {
            InstallState::List((results.len() - 1) as usize)
        } else if results.len() < count {
            InstallState::Probe(results.len() as usize)
        } else {
            InstallState::Failed(InstallFailure::NoTool)
        }),
    decreases results.len(),
{
    if results.len() > 0 {
        let rest = results.drop_last();
        assert forall|i: int| 0 <= i < rest.len() - 1 implies !(#[trigger] rest[i]) by {
            assert(rest[i] == results[i]);
        }
        if rest.len() > 0 {
            assert(rest.last() == results[results.len() - 2]);
        }
        law_first_working_tool_is_used(count, rest);
    }
}

/// Where a tool of the editor's stable edition works, a tool of the stable edition is used.
pub proof fn law_stable_tool_is_preferred(windows: bool, works: Seq<bool>, i: int)
    requires
        works.len() == candidates(windows).len(),
        0 <= i < stable_tools(windows).len(),
        works[i],
    ensures
        exists|k: int|
            {
                &&& 0 <= k < stable_tools(windows).len()
                &&& #[trigger] probed_all(candidates(windows).len(), works.take(k + 1))
                    == InstallState::List(k as usize)
                &&& candidates(windows)[k] == stable_tools(windows)[k]
            },
    decreases i,
{
    if exists|j: int| 0 <= j < i && works[j] {
        let j = choose|j: int| 0 <= j < i && works[j];
        law_stable_tool_is_preferred(windows, works, j);
    } else {
        law_first_working_tool_is_used(candidates(windows).len(), works.take(i + 1));
        assert(probed_all(candidates(windows).len(), works.take(i + 1)) == InstallState::List(
            i as usize,
        ));
    }
}

// ---------------------------------------------------------------------------
// Patches
// ---------------------------------------------------------------------------

/// The changes that a command would make are those of the patch in it, file by file, and nothing
/// else: every file is there under its path, in its place, and none occurs twice unless it does
/// in the patch.
pub proof fn law_detected_changes_are_those_of_the_patch(
    command: Seq<Seq<char>>,
    files: Seq<PatchedFile>,
    fallback: Option<Seq<PatchedFile>>,
)
    ensures
        ({
            let found = detected_changes(command, Some(files), fallback);
            &&& found is Some
            &&& found->0.len() == files.len()
            &&& forall|i: int|
                0 <= i < files.len() ==> (#[trigger] found->0[i]).path == files[i].path
                    && found->0[i].change == protocol_change(files[i].change)
            &&& distinct_paths(patched_paths(files)) ==> distinct_paths(changed_paths(found->0))
        }),
        detected_changes(command, None, None) is None,
        !runs_as_apply_patch(command) ==> detected_changes(command, None, fallback) is None,
        runs_as_apply_patch(command) ==> detected_changes(command, None, Some(files))
            == detected_changes(command, Some(files), None),
{
    let found = detected_changes(command, Some(files), fallback)->0;
    assert(changed_paths(found) =~= patched_paths(files));
}

} // verus!
