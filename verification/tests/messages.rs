use std::path::PathBuf;

use codex_tui::app_event::{AppEvent, VscodeSelectionInfo};
use codex_tui::chatwidget::{ChatWidget, InputResult, KeyEventKind};
use codex_tui::context::EventContext;
use codex_tui::effect::{AnyEffect, Effect, HistoryCell, PaneCall};
use codex_tui::protocol::{AnyOp, Event, EventMsg, InputItem, Op};
use codex_tui::user_message::{create_initial_user_message, UserMessage};

fn widget() -> ChatWidget {
    ChatWidget::new(None, Vec::new(), None, None, false).0
}

fn text_item(text: &str) -> InputItem {
    InputItem::Text { text: text.to_string() }
}

fn submitted(items: Vec<InputItem>, text: &str) -> Vec<Effect> {
    vec![
        Effect::Op(Op::UserInput { items }),
        Effect::Op(Op::AddToHistory { text: text.to_string() }),
        Effect::History(HistoryCell::UserPrompt(text.to_string())),
    ]
}

fn selection(lines: usize) -> VscodeSelectionInfo {
    VscodeSelectionInfo {
        lines,
        characters: 1,
        text: Some("x".to_string()),
        rel_path: Some("a.rs".to_string()),
        language_id: Some("rust".to_string()),
        start_line: Some(7),
        end_line: Some(7),
    }
}

fn configured() -> Event {
    Event {
        id: "id".to_string(),
        msg: EventMsg::SessionConfigured { history_log_id: 9, history_entry_count: 2 },
    }
}

#[test]
fn text_alone_makes_a_plain_message() {
    assert_eq!(
        UserMessage::from("hi".to_string()),
        UserMessage { text: "hi".to_string(), image_paths: Vec::new(), extra_text: None }
    );
}

#[test]
fn items_are_text_hidden_text_and_images() {
    let message = UserMessage {
        text: "hi".to_string(),
        image_paths: vec![PathBuf::from("a.png"), PathBuf::from("b.png")],
        extra_text: Some("extra".to_string()),
    };
    assert_eq!(
        message.into_items(),
        vec![
            text_item("hi"),
            text_item("extra"),
            InputItem::LocalImage { path: PathBuf::from("a.png") },
            InputItem::LocalImage { path: PathBuf::from("b.png") },
        ]
    );
    let empty = UserMessage {
        text: String::new(),
        image_paths: Vec::new(),
        extra_text: Some(String::new()),
    };
    assert_eq!(empty.into_items(), Vec::new());
}

#[test]
fn initial_message_needs_text_or_an_image() {
    assert_eq!(create_initial_user_message(String::new(), Vec::new()), None);
    assert_eq!(
        create_initial_user_message("hi".to_string(), Vec::new()),
        Some(UserMessage::from("hi".to_string()))
    );
    let images = vec![PathBuf::from("a.png")];
    assert_eq!(
        create_initial_user_message(String::new(), images),
        Some(UserMessage {
            text: String::new(),
            image_paths: vec![PathBuf::from("a.png")],
            extra_text: None
        })
    );
}

#[test]
fn new_widget_shows_whether_the_extension_is_there() {
    let (_, effects) = ChatWidget::new(None, Vec::new(), None, Some("{}"), true);
    assert_eq!(effects, vec![Effect::Pane(PaneCall::SetIdeDetected(true))]);
    let (_, effects) = ChatWidget::new(None, Vec::new(), None, None, false);
    assert_eq!(effects, Vec::new());
}

#[test]
fn new_widget_has_a_channel_where_one_is_advertised() {
    for marker in [None, Some("no json"), Some("{\"ipc_path\":1}")] {
        let (_, effects) = ChatWidget::new(None, Vec::new(), None, marker, false);
        assert_eq!(effects, Vec::new());
    }
    let marker = Some("{\"ipc_path\":\"/tmp/s\"}");
    let (_, effects) = ChatWidget::new(None, Vec::new(), None, marker, true);
    assert_eq!(
        effects,
        vec![
            Effect::StartIpcReader("/tmp/s".to_string()),
            Effect::StartIpcWriter("/tmp/s".to_string()),
            Effect::Pane(PaneCall::SetIdeDetected(true)),
        ]
    );
}

#[test]
fn initial_message_is_submitted_once() {
    let (mut widget, _) =
        ChatWidget::new(Some("hello".to_string()), Vec::new(), None, None, false);
    let mut expected = vec![
        Effect::Pane(PaneCall::SetHistoryMetadata { log_id: 9, entry_count: 2 }),
        Effect::History(HistoryCell::SessionInfo),
    ];
    expected.extend(submitted(vec![text_item("hello")], "hello"));
    expected.push(Effect::App(AppEvent::RequestRedraw));
    assert_eq!(widget.handle_codex_event(configured(), EventContext::empty()), expected);
    assert_eq!(
        widget.handle_codex_event(configured(), EventContext::empty()),
        vec![
            Effect::Pane(PaneCall::SetHistoryMetadata { log_id: 9, entry_count: 2 }),
            Effect::History(HistoryCell::SessionInfo),
            Effect::App(AppEvent::RequestRedraw),
        ]
    );
}

#[test]
fn initial_images_go_without_text() {
    let images = vec![PathBuf::from("a.png")];
    let (mut widget, _) = ChatWidget::new(None, images, None, None, false);
    let effects = widget.handle_codex_event(configured(), EventContext::empty());
    assert_eq!(
        effects[2],
        Effect::Op(Op::UserInput {
            items: vec![InputItem::LocalImage { path: PathBuf::from("a.png") }]
        })
    );
    assert_eq!(effects.len(), 4);
}

#[test]
fn text_message_is_submitted_as_if_typed() {
    let mut widget = widget();
    assert_eq!(
        widget.submit_text_message("hi".to_string()),
        submitted(vec![text_item("hi")], "hi")
    );
    widget.set_vscode_selection(Some(selection(1)));
    assert_eq!(
        widget.submit_text_message("hi".to_string()),
        submitted(
            vec![text_item("hi"), text_item("From a.rs:L7-L7\n```rust\nx\n```\n")],
            "hi"
        )
    );
    assert_eq!(
        widget.submit_text_message("hi".to_string()),
        widget.handle_key_event(InputResult::Submitted("hi".to_string()))
    );
    assert_eq!(widget.submit_text_message(String::new()), Vec::new());
}

#[test]
fn selection_goes_with_the_next_message() {
    let mut widget = widget();
    assert_eq!(
        widget.set_vscode_selection(Some(selection(1))),
        vec![Effect::Pane(PaneCall::SetVscodeSelectionHint {
            lines: Some(1),
            rel_path: Some("a.rs".to_string()),
        })]
    );
    assert_eq!(
        widget.handle_key_event(InputResult::Submitted("explain".to_string())),
        submitted(
            vec![text_item("explain"), text_item("From a.rs:L7-L7\n```rust\nx\n```\n")],
            "explain"
        )
    );
}

#[test]
fn selection_goes_even_without_text() {
    let mut widget = widget();
    widget.set_vscode_selection(Some(selection(1)));
    assert_eq!(
        widget.handle_key_event(InputResult::Submitted(String::new())),
        vec![Effect::Op(Op::UserInput {
            items: vec![text_item("From a.rs:L7-L7\n```rust\nx\n```\n")]
        })]
    );
}

#[test]
fn no_selection_adds_nothing() {
    let mut widget = widget();
    assert_eq!(
        widget.handle_key_event(InputResult::Submitted("hi".to_string())),
        submitted(vec![text_item("hi")], "hi")
    );
    assert_eq!(
        widget.set_vscode_selection(Some(selection(0))),
        vec![Effect::Pane(PaneCall::SetVscodeSelectionHint {
            lines: None,
            rel_path: Some("a.rs".to_string()),
        })]
    );
    assert_eq!(
        widget.handle_key_event(InputResult::Submitted("hi".to_string())),
        submitted(vec![text_item("hi")], "hi")
    );
    assert_eq!(
        widget.set_vscode_selection(None),
        vec![Effect::Pane(PaneCall::SetVscodeSelectionHint { lines: None, rel_path: None })]
    );
}

#[test]
fn selected_text_leaves_only_with_a_message() {
    let mut with_text = widget();
    let mut without_text = widget();
    let hint = with_text.set_vscode_selection(Some(selection(1)));
    let other = VscodeSelectionInfo { text: None, ..selection(1) };
    assert_eq!(without_text.set_vscode_selection(Some(other)), hint);
    assert_eq!(
        with_text.handle_codex_event(configured(), EventContext::empty()),
        without_text.handle_codex_event(configured(), EventContext::empty())
    );
}

#[test]
fn key_that_submits_nothing_has_no_effect() {
    assert_eq!(widget().handle_key_event(InputResult::NotSubmitted), Vec::new());
}

#[test]
fn pressed_key_hides_the_hint() {
    assert_eq!(
        widget().before_key_event(KeyEventKind::Press),
        vec![Effect::Pane(PaneCall::ClearCtrlCQuitHint)]
    );
    assert_eq!(widget().before_key_event(KeyEventKind::Repeat), Vec::new());
    assert_eq!(widget().before_key_event(KeyEventKind::Release), Vec::new());
}

#[test]
fn output_on_request_goes_where_it_belongs() {
    let widget = widget();
    assert_eq!(
        widget.handle_paste("text".to_string()),
        vec![Effect::Pane(PaneCall::HandlePaste("text".to_string()))]
    );
    assert_eq!(
        widget.add_diff_output("diff".to_string()),
        vec![Effect::History(HistoryCell::DiffOutput("diff".to_string()))]
    );
    assert_eq!(
        widget.add_prompts_output(),
        vec![Effect::History(HistoryCell::PromptsOutput)]
    );
    assert_eq!(widget.submit_op(Op::Shutdown), vec![Effect::Op(Op::Shutdown)]);
    assert_eq!(
        widget.submit_op(AnyOp::Forwarded("approve")),
        vec![AnyEffect::Op(AnyOp::Forwarded("approve"))]
    );
    assert_eq!(
        widget.update_latest_log("line".to_string(), true),
        vec![Effect::Pane(PaneCall::UpdateStatusText("line".to_string()))]
    );
    assert_eq!(widget.update_latest_log("line".to_string(), false), Vec::new());
}
