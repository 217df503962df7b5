use codex_tui::payload::{
    exec_patch_payload, patch_applied_payload, patch_request_payload, turn_diff_payload,
};

fn parse(text: &str) -> serde_json::Value {
    serde_json::from_str(text).unwrap()
}

fn changes() -> serde_json::Value {
    parse(r#"{"a.txt":{"delete":{}}}"#)
}

#[test]
fn editor_reads_a_proposed_command() {
    let payload = exec_patch_payload(changes(), "/work".to_string());
    assert_eq!(
        payload,
        parse(
            r#"{"type":"apply_patch","changes":{"a.txt":{"delete":{}}},
                "title":"Proposed Patch","cwd":"/work"}"#
        )
    );
    assert_eq!(payload.get("cwd").and_then(|v| v.as_str()), Some("/work"));
}

#[test]
fn editor_reads_a_proposed_patch() {
    assert_eq!(
        patch_request_payload(
            "call".to_string(),
            changes(),
            Some("why".to_string()),
            Some("/work".to_string())
        ),
        parse(
            r#"{"type":"apply_patch","call_id":"call","changes":{"a.txt":{"delete":{}}},
                "reason":"why","grant_root":"/work","title":"Proposed Patch"}"#
        )
    );
    assert_eq!(
        patch_request_payload("call".to_string(), changes(), None, None),
        parse(
            r#"{"type":"apply_patch","call_id":"call","changes":{"a.txt":{"delete":{}}},
                "reason":null,"grant_root":null,"title":"Proposed Patch"}"#
        )
    );
}

#[test]
fn editor_reads_an_applied_patch() {
    for success in [true, false] {
        let payload = patch_applied_payload(success, "call".to_string());
        assert_eq!(
            payload,
            parse(&format!(
                r#"{{"type":"patch_applied","success":{success},"call_id":"call"}}"#
            ))
        );
    }
}

#[test]
fn editor_reads_a_turn_diff() {
    assert_eq!(
        turn_diff_payload("--- a\n+++ b\n".to_string()),
        parse(r#"{"type":"turn_diff","unified_diff":"--- a\n+++ b\n","title":"Turn Diff"}"#)
    );
}
