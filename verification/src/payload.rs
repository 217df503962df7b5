//! The messages that the editor gets about proposed and applied changes.
use vstd::prelude::*;
use vstd::string::*;

use crate::json::{
    json_bool, json_model, json_null, json_object, json_string, members_view, object_of, JsonView,
};

verus! {

/// A text or null.
pub open spec fn text_or_null(text: Option<Seq<char>>) -> JsonView {
    match text {
        Some(s) => JsonView::Text(s),
        None => JsonView::Null,
    }
}

/// The members of the message about a patch that a command would apply.
pub open spec fn exec_patch_members(changes: JsonView, cwd: Seq<char>) -> Seq<
    (Seq<char>, JsonView),
> {
    seq![
        ("type"@, JsonView::Text("apply_patch"@)),
        ("changes"@, changes),
        ("title"@, JsonView::Text("Proposed Patch"@)),
        ("cwd"@, JsonView::Text(cwd)),
    ]
}

/// The members of the message about a patch for which approval is asked.
pub open spec fn patch_request_members(
    call_id: Seq<char>,
    changes: JsonView,
    reason: Option<Seq<char>>,
    grant_root: Option<Seq<char>>,
) -> Seq<(Seq<char>, JsonView)> {
    seq![
        ("type"@, JsonView::Text("apply_patch"@)),
        ("call_id"@, JsonView::Text(call_id)),
        ("changes"@, changes),
        ("reason"@, text_or_null(reason)),
        ("grant_root"@, text_or_null(grant_root)),
        ("title"@, JsonView::Text("Proposed Patch"@)),
    ]
}

/// The members of the message that a patch has been applied, or could not be.
pub open spec fn patch_applied_members(success: bool, call_id: Seq<char>) -> Seq<
    (Seq<char>, JsonView),
> {
    seq![
        ("type"@, JsonView::Text("patch_applied"@)),
        ("success"@, JsonView::Bool(success)),
        ("call_id"@, JsonView::Text(call_id)),
    ]
}

/// The members of the message about the changes of a turn.
pub open spec fn turn_diff_members(unified_diff: Seq<char>) -> Seq<(Seq<char>, JsonView)> {
    seq![
        ("type"@, JsonView::Text("turn_diff"@)),
        ("unified_diff"@, JsonView::Text(unified_diff)),
        ("title"@, JsonView::Text("Turn Diff"@)),
    ]
}

/// The keys of every message differ.
pub proof fn lemma_keys()
    ensures
        "type"@ != "changes"@,
        "type"@ != "title"@,
        "type"@ != "cwd"@,
        "type"@ != "call_id"@,
        "type"@ != "reason"@,
        "type"@ != "grant_root"@,
        "type"@ != "success"@,
        "type"@ != "unified_diff"@,
        "changes"@ != "title"@,
        "changes"@ != "cwd"@,
        "changes"@ != "reason"@,
        "changes"@ != "grant_root"@,
        "changes"@ != "call_id"@,
        "title"@ != "cwd"@,
        "call_id"@ != "reason"@,
        "call_id"@ != "grant_root"@,
        "call_id"@ != "title"@,
        "call_id"@ != "success"@,
        "reason"@ != "grant_root"@,
        "reason"@ != "title"@,
        "grant_root"@ != "title"@,
        "unified_diff"@ != "title"@,
{
    reveal_strlit("type");
    reveal_strlit("changes");
    reveal_strlit("title");
    reveal_strlit("cwd");
    reveal_strlit("call_id");
    reveal_strlit("reason");
    reveal_strlit("grant_root");
    reveal_strlit("success");
    reveal_strlit("unified_diff");
    assert("type"@.len() == 4 && "changes"@.len() == 7 && "title"@.len() == 5);
    assert("cwd"@.len() == 3 && "call_id"@.len() == 7 && "reason"@.len() == 6);
    assert("grant_root"@.len() == 10 && "success"@.len() == 7 && "unified_diff"@.len() == 12);
    assert("changes"@[1] != "call_id"@[1]);
    assert("call_id"@[1] != "success"@[1]);
}

fn text_member(key: &str, text: String) -> (r: (String, serde_json::Value))
    ensures
        r.0@ == key@,
        json_model(r.1) == JsonView::Text(text@),
{
    (key.to_string(), json_string(text))
}

fn optional_text_member(key: &str, text: Option<String>) -> (r: (String, serde_json::Value))
    ensures
        r.0@ == key@,
        json_model(r.1) == text_or_null(text.deep_view()),
{
    match text {
        Some(s) => (key.to_string(), json_string(s)),
        None => (key.to_string(), json_null()),
    }
}

/// The message about a patch that a command would apply in the directory `cwd`.
pub fn exec_patch_payload(changes: serde_json::Value, cwd: String) -> (r: serde_json::Value)
    ensures
        json_model(r) == JsonView::Object(
            object_of(exec_patch_members(json_model(changes), cwd@)),
        ),
{
    let mut members: Vec<(String, serde_json::Value)> = Vec::new();
    members.push(text_member("type", "apply_patch".to_string()));
    members.push(("changes".to_string(), changes));
    members.push(text_member("title", "Proposed Patch".to_string()));
    members.push(text_member("cwd", cwd));
    proof {
        lemma_keys();
        assert(members_view(members@) =~= exec_patch_members(json_model(changes), cwd@));
    }
    json_object(members)
}

/// The message about a patch for which approval is asked.
pub fn patch_request_payload(
    call_id: String,
    changes: serde_json::Value,
    reason: Option<String>,
    grant_root: Option<String>,
) -> (r: serde_json::Value)
    ensures
        json_model(r) == JsonView::Object(
            object_of(
                patch_request_members(
                    call_id@,
                    json_model(changes),
                    reason.deep_view(),
                    grant_root.deep_view(),
                ),
            ),
        ),
{
    let mut members: Vec<(String, serde_json::Value)> = Vec::new();
    members.push(text_member("type", "apply_patch".to_string()));
    members.push(text_member("call_id", call_id));
    members.push(("changes".to_string(), changes));
    members.push(optional_text_member("reason", reason));
    members.push(optional_text_member("grant_root", grant_root));
    members.push(text_member("title", "Proposed Patch".to_string()));
    proof {
        lemma_keys();
        assert(members_view(members@) =~= patch_request_members(
            call_id@,
            json_model(changes),
            reason.deep_view(),
            grant_root.deep_view(),
        ));
    }
    json_object(members)
}

/// The message that a patch has been applied, or could not be.
pub fn patch_applied_payload(success: bool, call_id: String) -> (r: serde_json::Value)
    ensures
        json_model(r) == JsonView::Object(object_of(patch_applied_members(success, call_id@))),
{
    let mut members: Vec<(String, serde_json::Value)> = Vec::new();
    members.push(text_member("type", "patch_applied".to_string()));
    members.push(("success".to_string(), json_bool(success)));
    members.push(text_member("call_id", call_id));
    proof {
        lemma_keys();
        assert(members_view(members@) =~= patch_applied_members(success, call_id@));
    }
    json_object(members)
}

/// The message about the changes of a turn.
pub fn turn_diff_payload(unified_diff: String) -> (r: serde_json::Value)
    ensures
        json_model(r) == JsonView::Object(object_of(turn_diff_members(unified_diff@))),
{
    let mut members: Vec<(String, serde_json::Value)> = Vec::new();
    members.push(text_member("type", "turn_diff".to_string()));
    members.push(text_member("unified_diff", unified_diff));
    members.push(text_member("title", "Turn Diff".to_string()));
    proof {
        lemma_keys();
        assert(members_view(members@) =~= turn_diff_members(unified_diff@));
    }
    json_object(members)
}

} // verus!
