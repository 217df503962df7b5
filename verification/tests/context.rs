use std::path::PathBuf;

use codex_tui::context::{patch_mirror, proposed_patch, EventContext};
use codex_tui::protocol::{ChangedFile, EventMsg, FileChange, PatchChange, PatchedFile};

fn parse(command: &Vec<String>, cwd: &PathBuf) -> Option<Vec<PatchedFile>> {
    if command[0] == "apply_patch" {
        Some(vec![PatchedFile { path: cwd.join("a.txt"), change: PatchChange::Delete }])
    } else {
        None
    }
}

fn changes_json(changes: &Vec<ChangedFile>) -> serde_json::Value {
    changes.iter().map(|c| (path_text(&c.path), serde_json::Value::from("deleted"))).collect()
}

fn path_text(path: &PathBuf) -> String {
    path.to_str().unwrap().to_string()
}

fn exec_request(command: &[&str]) -> EventMsg {
    EventMsg::ExecApprovalRequest {
        call_id: "call".to_string(),
        command: command.iter().map(|w| w.to_string()).collect(),
        cwd: PathBuf::from("/work"),
        reason: None,
    }
}

fn changed() -> Vec<ChangedFile> {
    vec![ChangedFile { path: PathBuf::from("/work/b.txt"), change: FileChange::Delete }]
}

fn patch_request() -> EventMsg {
    EventMsg::ApplyPatchApprovalRequest {
        call_id: "call".to_string(),
        changes: changed(),
        reason: None,
        grant_root: Some(PathBuf::from("/work")),
    }
}

fn json(text: &str) -> serde_json::Value {
    serde_json::from_str(text).unwrap()
}

#[test]
fn command_with_a_patch_proposes_it() {
    for command in [
        vec!["apply_patch", "PATCH"],
        vec!["codex", "--codex-run-as-apply-patch", "PATCH"],
    ] {
        let msg = exec_request(&command);
        let ctx = EventContext::for_event(&msg, true, parse, changes_json, path_text);
        let patch = ctx.proposal.unwrap();
        assert_eq!(patch.changes, json(r#"{"/work/a.txt":"deleted"}"#));
        assert_eq!(patch.cwd, "/work");
        assert!(ctx.mirror.is_none());
        assert!(ctx.extension_active);
        assert!(ctx.remaining.is_empty() && ctx.drained.is_empty() && ctx.rows.is_empty());
    }
}

#[test]
fn command_without_a_patch_proposes_nothing() {
    let msg = exec_request(&["ls", "-l", "x"]);
    let ctx = EventContext::for_event(&msg, true, parse, changes_json, path_text);
    assert!(ctx.proposal.is_none());
    let command = vec!["ls".to_string()];
    let cwd = PathBuf::from("/work");
    assert!(proposed_patch(&command, &cwd, parse, changes_json, path_text).is_none());
}

#[test]
fn patch_is_mirrored() {
    let ctx = EventContext::for_event(&patch_request(), true, parse, changes_json, path_text);
    let mirror = ctx.mirror.unwrap();
    assert_eq!(mirror.changes, json(r#"{"/work/b.txt":"deleted"}"#));
    assert_eq!(mirror.grant_root, Some("/work".to_string()));
    assert!(ctx.proposal.is_none());
    let mirror = patch_mirror(&changed(), &None, changes_json, path_text);
    assert_eq!(mirror.grant_root, None);
}

#[test]
fn nothing_is_prepared_without_the_extension() {
    for msg in [exec_request(&["apply_patch", "PATCH"]), patch_request()] {
        let ctx = EventContext::for_event(&msg, false, parse, changes_json, path_text);
        assert!(ctx.proposal.is_none());
        assert!(ctx.mirror.is_none());
        assert!(!ctx.extension_active);
    }
}

#[test]
fn other_events_have_no_patch() {
    let msg = EventMsg::TaskStarted;
    let ctx = EventContext::for_event(&msg, true, parse, changes_json, path_text);
    assert!(ctx.proposal.is_none());
    assert!(ctx.mirror.is_none());
}
