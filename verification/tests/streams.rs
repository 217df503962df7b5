use codex_tui::app_event::{AppEvent, Line, LineStyle};
use codex_tui::chatwidget::ChatWidget;
use codex_tui::context::EventContext;
use codex_tui::effect::{Effect, PaneCall, RowCall};
use codex_tui::protocol::{Event, EventMsg};
use codex_tui::transition::StreamKind;

fn widget() -> ChatWidget {
    ChatWidget::new(None, Vec::new(), None, None, false).0
}

fn rows(texts: &[&str]) -> Vec<String> {
    texts.iter().map(|t| t.to_string()).collect()
}

fn context(remaining: &[&str], drained: &[&str], live: &[&str]) -> EventContext {
    EventContext {
        remaining: rows(remaining),
        drained: rows(drained),
        rows: rows(live),
        ..EventContext::empty()
    }
}

fn event(msg: EventMsg) -> Event {
    Event { id: "id".to_string(), msg }
}

fn answer(delta: &str) -> EventMsg {
    EventMsg::AgentMessageDelta { delta: delta.to_string() }
}

fn reasoning(delta: &str) -> EventMsg {
    EventMsg::AgentReasoningDelta { delta: delta.to_string() }
}

fn plain(text: &str) -> Line {
    Line { text: text.to_string(), style: LineStyle::Plain }
}

fn codex() -> Line {
    Line { text: "codex".to_string(), style: LineStyle::MagentaBold }
}

fn thinking() -> Line {
    Line { text: "thinking".to_string(), style: LineStyle::MagentaItalic }
}

fn insert(lines: Vec<Line>) -> Effect {
    Effect::App(AppEvent::InsertHistory(lines))
}

fn waiting() -> Effect {
    Effect::Pane(PaneCall::UpdateStatusText("waiting for model".to_string()))
}

fn live(texts: &[&str]) -> Effect {
    Effect::Pane(PaneCall::SetLiveRingRows {
        max_rows: 3,
        rows: texts.iter().map(|t| plain(t)).collect(),
    })
}

/// Whether a stream of this kind is running: its final event ends it.
fn streams(w: &ChatWidget, kind: StreamKind) -> bool {
    let last = match kind {
        StreamKind::Answer => EventMsg::AgentMessage { message: String::new() },
        StreamKind::Reasoning => EventMsg::AgentReasoning { text: String::new() },
    };
    !w.row_calls(&last).is_empty()
}

fn is_idle(w: &ChatWidget) -> bool {
    !streams(w, StreamKind::Answer) && !streams(w, StreamKind::Reasoning)
}

fn ring_cleared() -> Effect {
    Effect::Pane(PaneCall::ClearLiveRing)
}

fn redraw() -> Effect {
    Effect::App(AppEvent::RequestRedraw)
}

fn shown(effects: &[Effect]) -> Vec<String> {
    let mut texts = Vec::new();
    for effect in effects {
        if let Effect::App(AppEvent::InsertHistory(lines)) = effect {
            for line in lines {
                texts.push(line.text.clone());
            }
        }
    }
    texts
}

#[test]
fn first_piece_shows_the_header() {
    let mut w = widget();
    assert_eq!(
        w.handle_codex_event(event(answer("Hel")), context(&[], &[], &["Hel"])),
        vec![waiting(), insert(vec![codex()]), live(&["Hel"]), redraw()]
    );
    assert!(streams(&w, StreamKind::Answer));
}

#[test]
fn later_pieces_show_rows_that_overflow() {
    let mut w = widget();
    w.handle_codex_event(event(answer("a")), context(&[], &[], &["a"]));
    assert_eq!(
        w.handle_codex_event(event(answer("b")), context(&[], &["r1", "r2"], &["r3"])),
        vec![insert(vec![plain("r1"), plain("r2")]), live(&["r3"]), redraw()]
    );
    assert_eq!(
        w.handle_codex_event(event(answer("c")), context(&[], &[], &["r3"])),
        vec![live(&["r3"]), redraw()]
    );
}

#[test]
fn reasoning_is_headed_thinking() {
    for msg in [
        reasoning("x"),
        EventMsg::AgentReasoningRawContentDelta { delta: "x".to_string() },
    ] {
        let mut w = widget();
        assert_eq!(
            w.handle_codex_event(event(msg), context(&[], &[], &["x"])),
            vec![waiting(), insert(vec![thinking()]), live(&["x"]), redraw()]
        );
        assert!(streams(&w, StreamKind::Reasoning));
    }
}

#[test]
fn final_event_shows_the_remaining_rows_and_a_blank_line() {
    let mut w = widget();
    w.handle_codex_event(event(answer("a")), context(&[], &[], &["a"]));
    assert_eq!(
        w.handle_codex_event(
            event(EventMsg::AgentMessage { message: "ignored".to_string() }),
            context(&["a", "b"], &[], &[])
        ),
        vec![
            insert(vec![plain("a"), plain("b"), plain("")]),
            ring_cleared(),
            redraw()
        ]
    );
    assert!(is_idle(&w));
}

#[test]
fn final_event_without_rows_shows_nothing() {
    for (first, last) in [
        (answer("a"), EventMsg::AgentMessage { message: String::new() }),
        (reasoning("a"), EventMsg::AgentReasoning { text: String::new() }),
        (reasoning("a"), EventMsg::AgentReasoningRawContent { text: String::new() }),
    ] {
        let mut w = widget();
        w.handle_codex_event(event(first), context(&[], &[], &["a"]));
        assert_eq!(
            w.handle_codex_event(event(last), context(&[], &[], &[])),
            vec![ring_cleared(), redraw()]
        );
        assert!(is_idle(&w));
    }
}

#[test]
fn stream_ends_once() {
    let mut w = widget();
    w.handle_codex_event(event(answer("a")), context(&[], &[], &["a"]));
    let last = EventMsg::AgentMessage { message: String::new() };
    w.handle_codex_event(event(last), context(&["a"], &[], &[]));
    let again = EventMsg::AgentMessage { message: String::new() };
    assert_eq!(
        w.handle_codex_event(event(again), context(&["left over"], &[], &[])),
        vec![redraw()]
    );
}

#[test]
fn final_event_of_the_other_stream_does_nothing() {
    let mut w = widget();
    w.handle_codex_event(event(answer("a")), context(&[], &[], &["a"]));
    let other = EventMsg::AgentReasoning { text: String::new() };
    assert_eq!(w.handle_codex_event(event(other), context(&["a"], &[], &[])), vec![redraw()]);
    assert!(streams(&w, StreamKind::Answer));
}

#[test]
fn other_stream_ends_first() {
    let mut w = widget();
    w.handle_codex_event(event(reasoning("think")), context(&[], &[], &["think"]));
    assert_eq!(
        w.handle_codex_event(event(answer("say")), context(&["think"], &[], &["say"])),
        vec![
            insert(vec![plain("think"), plain("")]),
            ring_cleared(),
            waiting(),
            insert(vec![codex()]),
            live(&["say"]),
            redraw()
        ]
    );
    assert!(streams(&w, StreamKind::Answer));
}

#[test]
fn whole_stream_is_shown_in_order() {
    let mut w = widget();
    let mut effects = Vec::new();
    effects.extend(w.handle_codex_event(event(answer("1")), context(&[], &[], &["1"])));
    effects.extend(w.handle_codex_event(event(answer("2")), context(&[], &["1"], &["2"])));
    effects.extend(w.handle_codex_event(event(answer("3")), context(&[], &["2"], &["3"])));
    let last = EventMsg::AgentMessage { message: String::new() };
    effects.extend(w.handle_codex_event(event(last), context(&["3"], &[], &[])));
    assert_eq!(shown(&effects), vec!["codex", "1", "2", "3", ""]);
}

#[test]
fn header_stays_in_step_with_the_stream() {
    let mut w = widget();
    let events = vec![
        (answer("a"), true),
        (answer("b"), false),
        (reasoning("b"), true),
        (EventMsg::TaskStarted, false),
        (EventMsg::AgentReasoning { text: String::new() }, false),
        (answer("c"), true),
        (EventMsg::Error { message: "e".to_string() }, false),
        (reasoning("d"), true),
        (EventMsg::McpToolCallBegin { call_id: "c".to_string() }, false),
        (reasoning("e"), true),
    ];
    for (msg, header) in events {
        let effects = w.handle_codex_event(event(msg), context(&["r"], &["s"], &["t"]));
        let texts = shown(&effects);
        assert_eq!(texts.iter().any(|t| t == "codex" || t == "thinking"), header);
        w.on_esc(false);
        w.set_vscode_selection(None);
        w.clear_token_usage();
    }
}

#[test]
fn interruption_lets_the_next_stream_start_afresh() {
    let mut w = widget();
    w.handle_codex_event(event(answer("a")), context(&[], &[], &["a"]));
    w.on_esc(true);
    assert!(is_idle(&w));
    assert_eq!(
        w.handle_codex_event(event(answer("b")), context(&[], &[], &["b"])),
        vec![waiting(), insert(vec![codex()]), live(&["b"]), redraw()]
    );
}

#[test]
fn final_answer_without_a_stream_is_shown() {
    let mut w = widget();
    let message = || EventMsg::AgentMessage { message: "hi".to_string() };
    assert_eq!(
        w.row_calls(&message()),
        vec![
            RowCall::Reset,
            RowCall::PushFragment("hi".to_string()),
            RowCall::EndLine,
            RowCall::DisplayRows,
            RowCall::Reset,
        ]
    );
    assert_eq!(
        w.handle_codex_event(event(message()), context(&[], &[], &["hi"])),
        vec![insert(vec![codex(), plain("hi"), plain("")]), redraw()]
    );
    assert!(is_idle(&w));
    assert_eq!(
        w.handle_codex_event(event(message()), context(&[], &[], &["hi"])),
        vec![insert(vec![codex(), plain("hi"), plain("")]), redraw()]
    );
}

#[test]
fn streamed_answer_is_not_shown_again() {
    let early_ends = vec![
        EventMsg::McpToolCallBegin { call_id: "c".to_string() },
        reasoning("think"),
        EventMsg::ExecCommandBegin {
            call_id: "c".to_string(),
            command: Vec::new(),
            cwd: std::path::PathBuf::from("/work"),
        },
    ];
    for end in early_ends {
        let mut w = widget();
        w.handle_codex_event(event(answer("x")), context(&[], &[], &["x"]));
        let effects = w.handle_codex_event(event(end), context(&["x"], &[], &[]));
        assert_eq!(shown(&effects)[..2], ["x", ""]);
        w.set_vscode_selection(None);
        w.on_esc(false);
        let last = || EventMsg::AgentMessage { message: "x".to_string() };
        assert_eq!(w.row_calls(&last()), Vec::new());
        assert_eq!(
            w.handle_codex_event(event(last()), context(&["r"], &[], &["x"])),
            vec![redraw()]
        );
        let effects = w.handle_codex_event(event(last()), context(&[], &[], &["x"]));
        assert!(effects.contains(&insert(vec![codex(), plain("x"), plain("")])));
    }
}

#[test]
fn answer_after_an_interruption_or_an_error_is_shown() {
    for interrupted in [true, false] {
        let mut w = widget();
        w.handle_codex_event(event(answer("x")), context(&[], &[], &["x"]));
        if interrupted {
            w.on_esc(true);
        } else {
            let error = EventMsg::Error { message: "e".to_string() };
            w.handle_codex_event(event(error), context(&[], &[], &[]));
        }
        let last = EventMsg::AgentMessage { message: "y".to_string() };
        assert_eq!(
            w.handle_codex_event(event(last), context(&[], &[], &["y"])),
            vec![insert(vec![codex(), plain("y"), plain("")]), redraw()]
        );
    }
}

#[test]
fn final_answer_ends_a_stream_of_reasoning_first() {
    let mut w = widget();
    w.handle_codex_event(event(reasoning("think")), context(&[], &[], &["think"]));
    let message = || EventMsg::AgentMessage { message: "hi".to_string() };
    assert_eq!(
        w.row_calls(&message()),
        vec![
            RowCall::EndLine,
            RowCall::DrainRows,
            RowCall::Reset,
            RowCall::Reset,
            RowCall::PushFragment("hi".to_string()),
            RowCall::EndLine,
            RowCall::DisplayRows,
            RowCall::Reset,
        ]
    );
    assert_eq!(
        w.handle_codex_event(event(message()), context(&["think"], &[], &["hi"])),
        vec![
            insert(vec![plain("think"), plain("")]),
            ring_cleared(),
            insert(vec![codex(), plain("hi"), plain("")]),
            redraw()
        ]
    );
    assert!(is_idle(&w));
}

#[test]
fn empty_final_answer_shows_nothing() {
    let mut w = widget();
    let last = EventMsg::AgentMessage { message: String::new() };
    assert_eq!(w.handle_codex_event(event(last), context(&[], &[], &[])), vec![redraw()]);
}

#[test]
fn single_steps_of_a_stream() {
    let mut w = widget();
    let mut out = Vec::new();
    w.begin_stream(StreamKind::Reasoning, Vec::new(), &mut out);
    w.begin_stream(StreamKind::Reasoning, Vec::new(), &mut out);
    assert_eq!(out, vec![waiting(), insert(vec![thinking()])]);
    let mut out = Vec::new();
    w.finalize_stream(StreamKind::Answer, rows(&["r"]), &mut out);
    assert_eq!(out, Vec::new());
    w.finalize_active_stream(rows(&["r"]), &mut out);
    w.finalize_active_stream(rows(&["r"]), &mut out);
    assert_eq!(out, vec![insert(vec![plain("r"), plain("")]), ring_cleared()]);
}

#[test]
fn rows_are_asked_for_where_they_are_used() {
    let mut w = widget();
    let pushed = |text: &str| {
        vec![
            RowCall::PushFragment(text.to_string()),
            RowCall::DrainCommitReady(3),
            RowCall::DisplayRows,
        ]
    };
    let closing = || vec![RowCall::EndLine, RowCall::DrainRows, RowCall::Reset];

    let mut first = vec![RowCall::Reset];
    first.extend(pushed("a"));
    assert_eq!(w.row_calls(&answer("a")), first);
    assert_eq!(w.row_calls(&EventMsg::AgentMessage { message: String::new() }), Vec::new());
    assert_eq!(
        w.row_calls(&EventMsg::McpToolCallBegin { call_id: String::new() }),
        Vec::new()
    );

    w.handle_codex_event(event(answer("a")), context(&[], &[], &["a"]));
    assert_eq!(w.row_calls(&answer("b")), pushed("b"));
    let mut switch = closing();
    switch.push(RowCall::Reset);
    switch.extend(pushed("c"));
    assert_eq!(w.row_calls(&reasoning("c")), switch);
    assert_eq!(w.row_calls(&EventMsg::AgentMessage { message: String::new() }), closing());
    assert_eq!(w.row_calls(&EventMsg::AgentReasoning { text: String::new() }), Vec::new());
    assert_eq!(
        w.row_calls(&EventMsg::McpToolCallBegin { call_id: String::new() }),
        closing()
    );
    assert_eq!(w.row_calls(&EventMsg::TaskStarted), Vec::new());
}
