//! Commands that would apply a patch.
use std::path::PathBuf;

use vstd::prelude::*;
use vstd::string::*;

use crate::protocol::{
    convert_changes, protocol_changes, ChangedFile, ChangedFileView, PatchedFile,
};
use crate::text::same_text;

verus! {

/// The command runs the agent itself to apply a patch: its second word says so, and its third
/// is the patch.
pub open spec fn runs_as_apply_patch(command: Seq<Seq<char>>) -> bool {
    command.len() >= 3 && command[1] == "--codex-run-as-apply-patch"@
}

/// The plain command in whose place such a command stands.
pub open spec fn plain_command(command: Seq<Seq<char>>) -> Option<Seq<Seq<char>>> {
    if runs_as_apply_patch(command) {
        Some(seq!["apply_patch"@, command[2]])
    } else {
        None
    }
}

/// The changes that a command would make. `direct` is the patch in the command itself, and
/// `fallback` the patch in the plain command in whose place it stands.
pub open spec fn detected_changes(
    command: Seq<Seq<char>>,
    direct: Option<Seq<PatchedFile>>,
    fallback: Option<Seq<PatchedFile>>,
) -> Option<Seq<ChangedFileView>> {
    match (direct, fallback) {
        (Some(files), _) => Some(protocol_changes(files)),
        (None, Some(files)) if runs_as_apply_patch(command) => Some(protocol_changes(files)),
        _ => None,
    }
}

/// The files of a patch, if there is one.
pub open spec fn patch_files(patch: Option<Vec<PatchedFile>>) -> Option<Seq<PatchedFile>> {
    match patch {
        Some(files) => Some(files@),
        None => None,
    }
}

/// `fallback` is what `parse` finds in the plain command in whose place a command stands, where
/// it is looked for there: where the command itself holds no patch.
pub open spec fn found_in_plain<F: Fn(&Vec<String>, &PathBuf) -> Option<Vec<PatchedFile>>>(
    command: Seq<Seq<char>>,
    cwd: PathBuf,
    parse: F,
    direct: Option<Vec<PatchedFile>>,
    fallback: Option<Vec<PatchedFile>>,
) -> bool {
    match (direct, plain_command(command)) {
        (None, Some(plain)) => exists|shim: Vec<String>|
            shim.deep_view() == plain && #[trigger] call_ensures(parse, (&shim, &cwd), fallback),
        _ => fallback is None,
    }
}

/// `changes` are those that a command would make in a directory: those of the patch that `parse`
/// finds in the command itself, or where there is none, in the plain command in whose place it
/// stands.
pub open spec fn finds_changes<F: Fn(&Vec<String>, &PathBuf) -> Option<Vec<PatchedFile>>>(
    command: Vec<String>,
    cwd: PathBuf,
    parse: F,
    changes: Option<Seq<ChangedFileView>>,
) -> bool {
    exists|direct: Option<Vec<PatchedFile>>, fallback: Option<Vec<PatchedFile>>|
        {
            &&& #[trigger] call_ensures(parse, (&command, &cwd), direct)
            &&& #[trigger] found_in_plain(command.deep_view(), cwd, parse, direct, fallback)
            &&& changes == detected_changes(
                command.deep_view(),
                patch_files(direct),
                patch_files(fallback),
            )
        }
}

fn is_run_as_apply_patch(command: &Vec<String>) -> (r: bool)
    ensures
        r == runs_as_apply_patch(command.deep_view()),
{
    command.len() >= 3 && same_text(command[1].as_str(), "--codex-run-as-apply-patch")
}

/// The plain command to look for a patch in, where the command itself holds none.
pub fn fallback_command(command: &Vec<String>) -> (r: Option<Vec<String>>)
    ensures
        r.deep_view() == plain_command(command.deep_view()),
{
    if is_run_as_apply_patch(command) {
        let mut shim: Vec<String> = Vec::new();
        shim.push("apply_patch".to_string());
        shim.push(command[2].clone());
        assert(shim.deep_view() =~= seq!["apply_patch"@, command.deep_view()[2]]);
        Some(shim)
    } else {
        None
    }
}

/// The changes that a command would make, if it would apply a patch.
pub fn detect_patch(
    command: &Vec<String>,
    direct: Option<Vec<PatchedFile>>,
    fallback: Option<Vec<PatchedFile>>,
) -> (r: Option<Vec<ChangedFile>>)
    ensures
        r.deep_view() == detected_changes(
            command.deep_view(),
            patch_files(direct),
            patch_files(fallback),
        ),
{
    match direct {
        Some(files) => Some(convert_changes(files)),
        None => match fallback {
            Some(files) => {
                if is_run_as_apply_patch(command) {
                    Some(convert_changes(files))
                } else {
                    None
                }
            },
            None => None,
        },
    }
}

/// Looks for a patch that a command would apply in a directory: in the command itself, and where
/// there is none, in the plain command in whose place it stands. `parse` finds the patch in a
/// command.
pub fn find_patch<F: Fn(&Vec<String>, &PathBuf) -> Option<Vec<PatchedFile>>>(
    command: &Vec<String>,
    cwd: &PathBuf,
    parse: F,
) -> (r: Option<Vec<ChangedFile>>)
    requires
        forall|c: &Vec<String>, d: &PathBuf| call_requires(parse, (c, d)),
    ensures
        finds_changes(*command, *cwd, parse, r.deep_view()),
{
    let direct = parse(command, cwd);
    let mut fallback: Option<Vec<PatchedFile>> = None;
    if direct.is_none() {
        if let Some(shim) = fallback_command(command) {
            fallback = parse(&shim, cwd);
            assert(call_ensures(parse, (&shim, cwd), fallback));
        }
    }
    assert(found_in_plain(command.deep_view(), *cwd, parse, direct, fallback));
    detect_patch(command, direct, fallback)
}

} // verus!
