use std::path::PathBuf;

use codex_tui::app_event::{AppEvent, Line, LineStyle};
use codex_tui::chatwidget::ChatWidget;
use codex_tui::context::{EventContext, PatchMirror, ProposedPatch};
use codex_tui::effect::{
    ApprovalRequest, CommandOutput, Effect, HistoryCell, PaneCall, PatchEventType,
};
use codex_tui::protocol::{ChangedFile, Event, EventMsg, FileChange};

fn widget(marker: Option<&str>) -> ChatWidget {
    ChatWidget::new(None, Vec::new(), None, marker, false).0
}

fn connected() -> ChatWidget {
    widget(Some("{\"ipc_path\":\"/tmp/s\"}"))
}

fn event(msg: EventMsg) -> Event {
    Event { id: "id".to_string(), msg }
}

fn active() -> EventContext {
    EventContext { extension_active: true, ..EventContext::empty() }
}

fn handle(w: &mut ChatWidget, msg: EventMsg) -> Vec<Effect> {
    w.handle_codex_event(event(msg), EventContext::empty())
}

fn redraw() -> Effect {
    Effect::App(AppEvent::RequestRedraw)
}

fn status(text: &str) -> Effect {
    Effect::Pane(PaneCall::UpdateStatusText(text.to_string()))
}

fn words(command: &[&str]) -> Vec<String> {
    command.iter().map(|w| w.to_string()).collect()
}

fn changes() -> Vec<ChangedFile> {
    vec![ChangedFile {
        path: PathBuf::from("a.txt"),
        change: FileChange::Add { content: "a\n".to_string() },
    }]
}

fn json(text: &str) -> serde_json::Value {
    serde_json::from_str(text).unwrap()
}

fn sent(effect: &Effect) -> serde_json::Value {
    match effect {
        Effect::Ipc(line) => {
            assert!(!line.contains('\n'));
            json(line)
        }
        other => panic!("{other:?}"),
    }
}

fn exec_request() -> EventMsg {
    EventMsg::ExecApprovalRequest {
        call_id: "call".to_string(),
        command: words(&["apply_patch", "PATCH"]),
        cwd: PathBuf::from("/work"),
        reason: Some("why".to_string()),
    }
}

fn exec_question() -> Effect {
    Effect::Pane(PaneCall::PushApprovalRequest(ApprovalRequest::Exec {
        id: "id".to_string(),
        command: words(&["apply_patch", "PATCH"]),
        cwd: PathBuf::from("/work"),
        reason: Some("why".to_string()),
    }))
}

fn patch_request() -> EventMsg {
    EventMsg::ApplyPatchApprovalRequest {
        call_id: "call".to_string(),
        changes: changes(),
        reason: None,
        grant_root: Some(PathBuf::from("/work")),
    }
}

fn patch_question() -> Vec<Effect> {
    vec![
        Effect::History(HistoryCell::PatchEvent {
            event_type: PatchEventType::ApprovalRequest,
            changes: changes(),
        }),
        Effect::Pane(PaneCall::PushApprovalRequest(ApprovalRequest::ApplyPatch {
            id: "id".to_string(),
            reason: None,
            grant_root: Some(PathBuf::from("/work")),
        })),
        redraw(),
    ]
}

fn proposal() -> EventContext {
    EventContext {
        proposal: Some(ProposedPatch {
            changes: json(r#"{"a.txt":{"add":{"content":"a\n"}}}"#),
            cwd: "/work".to_string(),
        }),
        ..active()
    }
}

fn mirror() -> EventContext {
    EventContext {
        mirror: Some(PatchMirror {
            changes: json(r#"{"a.txt":{"add":{"content":"a\n"}}}"#),
            grant_root: Some("/work".to_string()),
        }),
        ..active()
    }
}

#[test]
fn task_starts_and_completes() {
    let mut w = widget(None);
    assert_eq!(
        handle(&mut w, EventMsg::TaskStarted),
        vec![
            Effect::Pane(PaneCall::ClearCtrlCQuitHint),
            Effect::Pane(PaneCall::SetTaskRunning(true)),
            status("waiting for model"),
            redraw(),
        ]
    );
    assert_eq!(
        handle(&mut w, EventMsg::TaskComplete { last_agent_message: Some("m".to_string()) }),
        vec![
            Effect::Pane(PaneCall::SetTaskRunning(false)),
            Effect::Pane(PaneCall::ClearLiveRing),
            redraw(),
        ]
    );
}

#[test]
fn error_ends_the_task() {
    let mut w = widget(None);
    handle(&mut w, EventMsg::AgentMessageDelta { delta: "a".to_string() });
    assert_eq!(
        handle(&mut w, EventMsg::Error { message: "bad".to_string() }),
        vec![
            Effect::History(HistoryCell::ErrorEvent("bad".to_string())),
            Effect::Pane(PaneCall::SetTaskRunning(false)),
            Effect::Pane(PaneCall::ClearLiveRing),
            Effect::ResetRows,
            redraw(),
        ]
    );
    assert_eq!(
        w.row_calls(&EventMsg::McpToolCallBegin { call_id: "c".to_string() }),
        Vec::new()
    );
}

#[test]
fn plan_and_tool_calls_go_to_the_history() {
    let mut w = widget(None);
    assert_eq!(
        handle(&mut w, EventMsg::PlanUpdate),
        vec![Effect::History(HistoryCell::PlanUpdate)]
    );
    assert_eq!(
        handle(&mut w, EventMsg::McpToolCallBegin { call_id: "c".to_string() }),
        vec![Effect::History(HistoryCell::ActiveMcpToolCall)]
    );
    for (result, is_error) in [
        (None, false),
        (Some(None), false),
        (Some(Some(false)), false),
        (Some(Some(true)), true),
    ] {
        assert_eq!(
            handle(&mut w, EventMsg::McpToolCallEnd { call_id: "c".to_string(), result }),
            vec![Effect::History(HistoryCell::CompletedMcpToolCall { num_cols: 80, is_error })]
        );
    }
}

#[test]
fn tool_call_ends_the_stream() {
    let mut w = widget(None);
    handle(&mut w, EventMsg::AgentMessageDelta { delta: "a".to_string() });
    let ctx = EventContext { remaining: vec!["a".to_string()], ..EventContext::empty() };
    let msg = EventMsg::McpToolCallBegin { call_id: "c".to_string() };
    assert_eq!(
        w.handle_codex_event(event(msg), ctx),
        vec![
            Effect::App(AppEvent::InsertHistory(vec![
                Line { text: "a".to_string(), style: LineStyle::Plain },
                Line { text: String::new(), style: LineStyle::Plain },
            ])),
            Effect::Pane(PaneCall::ClearLiveRing),
            Effect::History(HistoryCell::ActiveMcpToolCall),
        ]
    );
}

#[test]
fn command_is_shown_when_it_ends() {
    let mut w = widget(None);
    assert_eq!(
        handle(
            &mut w,
            EventMsg::ExecCommandBegin {
                call_id: "c1".to_string(),
                command: words(&["ls", "-l"]),
                cwd: PathBuf::from("/work"),
            }
        ),
        vec![status("running command")]
    );
    assert_eq!(
        w.active_history_cell(),
        Some(&HistoryCell::ActiveExecCommand(words(&["ls", "-l"])))
    );
    handle(
        &mut w,
        EventMsg::ExecCommandBegin {
            call_id: "c2".to_string(),
            command: words(&["pwd"]),
            cwd: PathBuf::from("/work"),
        },
    );
    assert_eq!(handle(&mut w, EventMsg::ExecCommandOutputDelta), Vec::new());
    let end = |call_id: &str| EventMsg::ExecCommandEnd {
        call_id: call_id.to_string(),
        exit_code: 1,
        stdout: "out".to_string(),
        stderr: "err".to_string(),
    };
    let completed = |command: &[&str]| {
        vec![Effect::History(HistoryCell::CompletedExecCommand {
            command: words(command),
            output: CommandOutput {
                exit_code: 1,
                stdout: "out".to_string(),
                stderr: "err".to_string(),
            },
        })]
    };
    assert_eq!(handle(&mut w, end("c1")), completed(&["ls", "-l"]));
    assert_eq!(w.active_history_cell(), None);
    assert_eq!(handle(&mut w, end("c2")), completed(&["pwd"]));
    assert_eq!(handle(&mut w, end("c1")), completed(&["c1"]));
}

#[test]
fn request_to_run_a_command_asks_the_user() {
    let mut w = widget(None);
    assert_eq!(handle(&mut w, exec_request()), vec![exec_question(), redraw()]);
    let mut w = connected();
    assert_eq!(handle(&mut w, exec_request()), vec![exec_question(), redraw()]);
    assert_eq!(
        w.handle_codex_event(event(exec_request()), active()),
        vec![exec_question(), redraw()]
    );
}

#[test]
fn editor_sees_a_patch_before_the_question() {
    let mut w = connected();
    let effects = w.handle_codex_event(event(exec_request()), proposal());
    assert_eq!(effects.len(), 3);
    assert_eq!(
        sent(&effects[0]),
        json(
            r#"{"type":"apply_patch","changes":{"a.txt":{"add":{"content":"a\n"}}},
                "title":"Proposed Patch","cwd":"/work"}"#
        )
    );
    assert_eq!(effects[1], exec_question());
    assert_eq!(effects[2], redraw());
}

#[test]
fn editor_is_not_told_without_a_channel_or_an_extension() {
    let mut w = widget(None);
    assert_eq!(
        w.handle_codex_event(event(exec_request()), proposal()),
        vec![exec_question(), redraw()]
    );
    assert_eq!(w.handle_codex_event(event(patch_request()), mirror()), patch_question());
    let mut w = connected();
    let inactive = EventContext { extension_active: false, ..proposal() };
    assert_eq!(
        w.handle_codex_event(event(exec_request()), inactive),
        vec![exec_question(), redraw()]
    );
}

#[test]
fn patch_is_shown_before_the_question() {
    let mut w = widget(None);
    assert_eq!(handle(&mut w, patch_request()), patch_question());
    let mut w = connected();
    let effects = w.handle_codex_event(event(patch_request()), mirror());
    assert_eq!(
        sent(&effects[0]),
        json(
            r#"{"type":"apply_patch","call_id":"call",
                "changes":{"a.txt":{"add":{"content":"a\n"}}},
                "reason":null,"grant_root":"/work","title":"Proposed Patch"}"#
        )
    );
    assert_eq!(effects[1..], patch_question());
}

#[test]
fn patch_is_applied() {
    let mut w = connected();
    assert_eq!(
        handle(
            &mut w,
            EventMsg::PatchApplyBegin {
                call_id: "call".to_string(),
                auto_approved: true,
                changes: changes(),
            }
        ),
        vec![Effect::History(HistoryCell::PatchEvent {
            event_type: PatchEventType::ApplyBegin { auto_approved: true },
            changes: changes(),
        })]
    );
    let end = |success: bool| EventMsg::PatchApplyEnd {
        call_id: "call".to_string(),
        stderr: "err".to_string(),
        success,
    };
    assert_eq!(handle(&mut w, end(true)), Vec::new());
    assert_eq!(
        handle(&mut w, end(false)),
        vec![Effect::History(HistoryCell::PatchApplyFailure("err".to_string()))]
    );
    let effects = w.handle_codex_event(event(end(true)), active());
    assert_eq!(effects.len(), 1);
    assert_eq!(
        sent(&effects[0]),
        json(r#"{"type":"patch_applied","success":true,"call_id":"call"}"#)
    );
    let effects = w.handle_codex_event(event(end(false)), active());
    assert_eq!(effects.len(), 2);
    assert_eq!(
        effects[0],
        Effect::History(HistoryCell::PatchApplyFailure("err".to_string()))
    );
    assert_eq!(
        sent(&effects[1]),
        json(r#"{"type":"patch_applied","success":false,"call_id":"call"}"#)
    );
}

#[test]
fn turn_diff_goes_to_the_editor_in_one_line() {
    let diff = || EventMsg::TurnDiff { unified_diff: "--- a\r\n+++ b\n\u{2028}".to_string() };
    let mut w = connected();
    assert_eq!(
        handle(&mut w, diff()),
        vec![Effect::Log("TurnDiffEvent: --- a\r\n+++ b\n\u{2028}".to_string())]
    );
    let effects = w.handle_codex_event(event(diff()), active());
    assert_eq!(effects.len(), 1);
    assert_eq!(
        sent(&effects[0]),
        json(
            r#"{"type":"turn_diff","unified_diff":"--- a\r\n+++ b\n\u2028","title":"Turn Diff"}"#
        )
    );
    let mut w = widget(None);
    assert_eq!(w.handle_codex_event(event(diff()), active()), Vec::new());
}

#[test]
fn message_to_the_editor_is_compact() {
    let mut w = connected();
    let msg = EventMsg::TurnDiff { unified_diff: "\"x\"".to_string() };
    assert_eq!(
        w.handle_codex_event(event(msg), active()),
        vec![Effect::Ipc(
            r#"{"title":"Turn Diff","type":"turn_diff","unified_diff":"\"x\""}"#.to_string()
        )]
    );
}

#[test]
fn history_entry_goes_to_the_pane() {
    let mut w = widget(None);
    assert_eq!(
        handle(
            &mut w,
            EventMsg::GetHistoryEntryResponse {
                offset: 3,
                log_id: 9,
                entry: Some("text".to_string()),
            }
        ),
        vec![Effect::Pane(PaneCall::OnHistoryEntryResponse {
            log_id: 9,
            offset: 3,
            entry: Some("text".to_string()),
        })]
    );
}

#[test]
fn shutdown_exits_the_application() {
    let mut w = widget(None);
    assert_eq!(
        handle(&mut w, EventMsg::ShutdownComplete),
        vec![Effect::App(AppEvent::ExitRequest)]
    );
}

#[test]
fn background_event_is_logged() {
    let mut w = widget(None);
    assert_eq!(
        handle(&mut w, EventMsg::BackgroundEvent { message: "m".to_string() }),
        vec![Effect::Log("BackgroundEvent: m".to_string())]
    );
}
