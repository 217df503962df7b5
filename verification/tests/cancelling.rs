use std::path::PathBuf;

use codex_tui::app_event::AppEvent;
use codex_tui::chatwidget::ChatWidget;
use codex_tui::context::EventContext;
use codex_tui::effect::{Effect, HistoryCell, PaneCall, RowCall};
use codex_tui::protocol::{Event, EventMsg, Op};
use codex_tui::transition::CancellationEvent;

fn event(msg: EventMsg) -> Event {
    Event { id: "id".to_string(), msg }
}

fn delta() -> EventMsg {
    EventMsg::AgentMessageDelta { delta: "a".to_string() }
}

fn command() -> Vec<String> {
    vec!["ls".to_string()]
}

fn busy_widget() -> ChatWidget {
    let (mut widget, _) = ChatWidget::new(None, Vec::new(), None, None, false);
    let begin = EventMsg::ExecCommandBegin {
        call_id: "call".to_string(),
        command: command(),
        cwd: PathBuf::from("/work"),
    };
    widget.handle_codex_event(event(begin), EventContext::empty());
    widget.handle_codex_event(event(delta()), EventContext::empty());
    widget
}

fn interruption() -> Vec<Effect> {
    vec![
        Effect::Pane(PaneCall::ClearCtrlCQuitHint),
        Effect::Op(Op::Interrupt),
        Effect::Pane(PaneCall::SetTaskRunning(false)),
        Effect::Pane(PaneCall::ClearLiveRing),
        Effect::ResetRows,
        Effect::App(AppEvent::RequestRedraw),
    ]
}

/// No stream is running, so that the next piece starts afresh, and no entry is in progress.
fn is_idle(widget: &ChatWidget) -> bool {
    widget.row_calls(&delta())[0] == RowCall::Reset && widget.active_history_cell().is_none()
}

#[test]
fn interruption_leaves_nothing_behind() {
    let mut widget = busy_widget();
    assert!(!is_idle(&widget));
    let mut out = Vec::new();
    widget.interrupt_running_task(true, &mut out);
    assert_eq!(out, interruption());
    assert!(is_idle(&widget));
}

#[test]
fn escape_interrupts_a_task() {
    let mut widget = busy_widget();
    assert_eq!(widget.on_esc(true), (true, interruption()));
    assert!(is_idle(&widget));
    let mut widget = busy_widget();
    assert_eq!(widget.on_esc(false), (false, Vec::new()));
    assert!(!is_idle(&widget));
}

#[test]
fn suspending_interrupts_a_task() {
    let mut widget = busy_widget();
    assert_eq!(widget.on_ctrl_z(true), interruption());
    assert!(is_idle(&widget));
    assert_eq!(widget.on_ctrl_z(false), Vec::new());
}

#[test]
fn pane_may_use_the_key_up() {
    let mut widget = busy_widget();
    assert_eq!(
        widget.on_ctrl_c(CancellationEvent::Handled, true, true),
        (CancellationEvent::Handled, Vec::new())
    );
    assert!(!is_idle(&widget));
}

#[test]
fn cancelling_interrupts_a_task_and_uses_the_key_up() {
    for hint_visible in [false, true] {
        let mut widget = busy_widget();
        assert_eq!(
            widget.on_ctrl_c(CancellationEvent::Ignored, true, hint_visible),
            (CancellationEvent::Handled, interruption())
        );
        assert!(is_idle(&widget));
    }
}

#[test]
fn cancelling_twice_shuts_down() {
    let mut widget = busy_widget();
    assert_eq!(
        widget.on_ctrl_c(CancellationEvent::Ignored, false, false),
        (
            CancellationEvent::Handled,
            vec![Effect::Pane(PaneCall::ShowCtrlCQuitHint)]
        )
    );
    assert_eq!(
        widget.on_ctrl_c(CancellationEvent::Ignored, false, true),
        (CancellationEvent::Handled, vec![Effect::Op(Op::Shutdown)])
    );
    assert!(!is_idle(&widget));
}

#[test]
fn command_is_known_after_an_interruption() {
    let mut widget = busy_widget();
    widget.on_esc(true);
    let end = EventMsg::ExecCommandEnd {
        call_id: "call".to_string(),
        exit_code: 0,
        stdout: String::new(),
        stderr: String::new(),
    };
    match widget.handle_codex_event(event(end), EventContext::empty()).pop() {
        Some(Effect::History(HistoryCell::CompletedExecCommand { command: shown, .. })) => {
            assert_eq!(shown, command())
        }
        other => panic!("{other:?}"),
    }
}
