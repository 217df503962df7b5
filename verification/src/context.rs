//! What is known from outside when an event is handled, and how the patches that belong to the
//! event come into it.
use std::path::PathBuf;

use vstd::prelude::*;

use crate::json::json_model;
use crate::patch::{find_patch, finds_changes};
use crate::protocol::{ChangedFile, EventMsg, PatchedFile};
use crate::transition::{EventContextView, PatchMirrorView, ProposedPatchView};

verus! {

/// A patch that a command would apply: the changes in the form in which the editor gets them,
/// and the text of the directory in which the command would run.
#[derive(Debug)]
pub struct ProposedPatch {
    pub changes: serde_json::Value,
    pub cwd: String,
}

impl DeepView for ProposedPatch {
    type V = ProposedPatchView;

    open spec fn deep_view(&self) -> ProposedPatchView {
        ProposedPatchView { changes: json_model(self.changes), cwd: self.cwd@ }
    }
}

/// A patch for which approval is asked: the changes in the form in which the editor gets them,
/// and the text of the directory for which approval is asked.
#[derive(Debug)]
pub struct PatchMirror {
    pub changes: serde_json::Value,
    pub grant_root: Option<String>,
}

impl DeepView for PatchMirror {
    type V = PatchMirrorView;

    open spec fn deep_view(&self) -> PatchMirrorView {
        PatchMirrorView {
            changes: json_model(self.changes),
            grant_root: self.grant_root.deep_view(),
        }
    }
}

/// What is known from outside when an event is handled.
#[derive(Debug)]
pub struct EventContext {
    /// The rows that were taken out when the stream ended.
    pub remaining: Vec<String>,
    /// The rows that overflowed when text was appended.
    pub drained: Vec<String>,
    /// The rows that are left to show.
    pub rows: Vec<String>,
    /// Whether the editor's extension is active.
    pub extension_active: bool,
    /// The patch that a command would apply, where there is one.
    pub proposal: Option<ProposedPatch>,
    /// The patch for which approval is asked.
    pub mirror: Option<PatchMirror>,
}

impl DeepView for EventContext {
    type V = EventContextView;

    open spec fn deep_view(&self) -> EventContextView {
        EventContextView {
            remaining: self.remaining.deep_view(),
            drained: self.drained.deep_view(),
            rows: self.rows.deep_view(),
            extension_active: self.extension_active,
            proposal: self.proposal.deep_view(),
            mirror: self.mirror.deep_view(),
        }
    }
}

impl EventContext {
    /// A context without rows, without the extension and without patches.
    pub fn empty() -> (r: EventContext)
        ensures
            r.deep_view() == (EventContextView {
                remaining: Seq::empty(),
                drained: Seq::empty(),
                rows: Seq::empty(),
                extension_active: false,
                proposal: None,
                mirror: None,
            }),
    {
        let r = EventContext {
            remaining: Vec::new(),
            drained: Vec::new(),
            rows: Vec::new(),
            extension_active: false,
            proposal: None,
            mirror: None,
        };
        assert(r.deep_view().remaining =~= Seq::empty());
        assert(r.deep_view().drained =~= Seq::empty());
        assert(r.deep_view().rows =~= Seq::empty());
        r
    }
}

// ---------------------------------------------------------------------------
// Patches in the form in which the editor gets them
// ---------------------------------------------------------------------------

/// `patch` is what the editor is to get of a request to run a command in a directory: nothing
/// where `parse` finds no patch, or else what `changes_json` makes of the changes, and what
/// `path_text` makes of the directory.
pub open spec fn proposes<
    F: Fn(&Vec<String>, &PathBuf) -> Option<Vec<PatchedFile>>,
    G: Fn(&Vec<ChangedFile>) -> serde_json::Value,
    H: Fn(&PathBuf) -> String,
>(
    command: Vec<String>,
    cwd: PathBuf,
    parse: F,
    changes_json: G,
    path_text: H,
    patch: Option<ProposedPatchView>,
) -> bool {
    match patch {
        None => finds_changes(command, cwd, parse, None),
        Some(patch) => exists|changes: Vec<ChangedFile>, json: serde_json::Value, text: String|
            {
                &&& finds_changes(command, cwd, parse, Some(changes.deep_view()))
                &&& #[trigger] call_ensures(changes_json, (&changes,), json)
                &&& #[trigger] call_ensures(path_text, (&cwd,), text)
                &&& patch == ProposedPatchView { changes: json_model(json), cwd: text@ }
            },
    }
}

/// The patch that a command would apply in a directory, as the editor gets it.
pub fn proposed_patch<
    F: Fn(&Vec<String>, &PathBuf) -> Option<Vec<PatchedFile>>,
    G: Fn(&Vec<ChangedFile>) -> serde_json::Value,
    H: Fn(&PathBuf) -> String,
>(
    command: &Vec<String>,
    cwd: &PathBuf,
    parse: F,
    changes_json: G,
    path_text: H,
) -> (r: Option<ProposedPatch>)
    requires
        forall|c: &Vec<String>, d: &PathBuf| call_requires(parse, (c, d)),
        forall|c: &Vec<ChangedFile>| call_requires(changes_json, (c,)),
        forall|d: &PathBuf| call_requires(path_text, (d,)),
    ensures
        proposes(*command, *cwd, parse, changes_json, path_text, r.deep_view()),
{
    match find_patch(command, cwd, parse) {
        Some(changes) => {
            let json = changes_json(&changes);
            let text = path_text(cwd);
            assert(call_ensures(changes_json, (&changes,), json));
            assert(call_ensures(path_text, (cwd,), text));
            Some(ProposedPatch { changes: json, cwd: text })
        },
        None => None,
    }
}

/// `text` is what `path_text` makes of a path, if there is one.
pub open spec fn optional_path_text<H: Fn(&PathBuf) -> String>(
    path: Option<PathBuf>,
    path_text: H,
    text: Option<Seq<char>>,
) -> bool {
    match (path, text) {
        (None, None) => true,
        (Some(path), Some(text)) => exists|t: String|
            #[trigger] call_ensures(path_text, (&path,), t) && t@ == text,
        _ => false,
    }
}

/// `patch` is what the editor is to get of a patch for which approval is asked: what
/// `changes_json` makes of the changes, and what `path_text` makes of the directory for which
/// approval is asked.
pub open spec fn mirrors<
    G: Fn(&Vec<ChangedFile>) -> serde_json::Value,
    H: Fn(&PathBuf) -> String,
>(
    changes: Vec<ChangedFile>,
    grant_root: Option<PathBuf>,
    changes_json: G,
    path_text: H,
    patch: PatchMirrorView,
) -> bool {
    &&& exists|json: serde_json::Value|
        #[trigger] call_ensures(changes_json, (&changes,), json) && json_model(json)
            == patch.changes
    &&& optional_path_text(grant_root, path_text, patch.grant_root)
}

/// A patch for which approval is asked, as the editor gets it.
pub fn patch_mirror<
    G: Fn(&Vec<ChangedFile>) -> serde_json::Value,
    H: Fn(&PathBuf) -> String,
>(
    changes: &Vec<ChangedFile>,
    grant_root: &Option<PathBuf>,
    changes_json: G,
    path_text: H,
) -> (r: PatchMirror)
    requires
        forall|c: &Vec<ChangedFile>| call_requires(changes_json, (c,)),
        forall|d: &PathBuf| call_requires(path_text, (d,)),
    ensures
        mirrors(*changes, *grant_root, changes_json, path_text, r.deep_view()),
{
    let json = changes_json(changes);
    assert(call_ensures(changes_json, (changes,), json));
    let directory: Option<String> = match grant_root {
        Some(path) => {
            let text = path_text(path);
            assert(call_ensures(path_text, (path,), text));
            Some(text)
        },
        None => None,
    };
    PatchMirror { changes: json, grant_root: directory }
}

impl EventContext {
    /// The context for an event, yet without rows. The patches in it are those of the event:
    /// where the editor's extension is active, what a request to run a command proposes, and the
    /// mirror of a patch for which approval is asked.
    pub fn for_event<
        F: Fn(&Vec<String>, &PathBuf) -> Option<Vec<PatchedFile>>,
        G: Fn(&Vec<ChangedFile>) -> serde_json::Value,
        H: Fn(&PathBuf) -> String,
    >(
        msg: &EventMsg,
        extension_active: bool,
        parse: F,
        changes_json: G,
        path_text: H,
    ) -> (r: EventContext)
        requires
            forall|c: &Vec<String>, d: &PathBuf| call_requires(parse, (c, d)),
            forall|c: &Vec<ChangedFile>| call_requires(changes_json, (c,)),
            forall|d: &PathBuf| call_requires(path_text, (d,)),
        ensures
            r.deep_view().remaining == Seq::<Seq<char>>::empty(),
            r.deep_view().drained == Seq::<Seq<char>>::empty(),
            r.deep_view().rows == Seq::<Seq<char>>::empty(),
            r.extension_active == extension_active,
            match *msg {
                EventMsg::ExecApprovalRequest { command, cwd, .. } if extension_active => proposes(
                    command,
                    cwd,
                    parse,
                    changes_json,
                    path_text,
                    r.deep_view().proposal,
                ),
                _ => r.proposal is None,
            },
            match *msg {
                EventMsg::ApplyPatchApprovalRequest { changes, grant_root, .. }
                    if extension_active => r.mirror is Some && mirrors(
                    changes,
                    grant_root,
                    changes_json,
                    path_text,
                    r.deep_view().mirror->0,
                ),
                _ => r.mirror is None,
            },
    {
        let mut ctx = EventContext::empty();
        ctx.extension_active = extension_active;
        if extension_active {
            match msg {
                EventMsg::ExecApprovalRequest { command, cwd, .. } => {
                    ctx.proposal = proposed_patch(command, cwd, parse, changes_json, path_text);
                },
                EventMsg::ApplyPatchApprovalRequest { changes, grant_root, .. } => {
                    ctx.mirror = Some(patch_mirror(changes, grant_root, changes_json, path_text));
                },
                _ => {},
            }
        }
        ctx
    }
}

} // verus!
