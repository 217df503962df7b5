use std::path::PathBuf;

use codex_tui::patch::{detect_patch, fallback_command, find_patch};
use codex_tui::protocol::{ChangedFile, FileChange, PatchChange, PatchedFile};

fn words(command: &[&str]) -> Vec<String> {
    command.iter().map(|w| w.to_string()).collect()
}

fn patched() -> Vec<PatchedFile> {
    vec![
        PatchedFile {
            path: PathBuf::from("new.txt"),
            change: PatchChange::Add { content: "hello\n".to_string() },
        },
        PatchedFile { path: PathBuf::from("old.txt"), change: PatchChange::Delete },
        PatchedFile {
            path: PathBuf::from("a.txt"),
            change: PatchChange::Update {
                unified_diff: "@@\n-a\n+b\n".to_string(),
                move_path: Some(PathBuf::from("b.txt")),
                new_content: "b\n".to_string(),
            },
        },
    ]
}

fn changed() -> Vec<ChangedFile> {
    vec![
        ChangedFile {
            path: PathBuf::from("new.txt"),
            change: FileChange::Add { content: "hello\n".to_string() },
        },
        ChangedFile { path: PathBuf::from("old.txt"), change: FileChange::Delete },
        ChangedFile {
            path: PathBuf::from("a.txt"),
            change: FileChange::Update {
                unified_diff: "@@\n-a\n+b\n".to_string(),
                move_path: Some(PathBuf::from("b.txt")),
            },
        },
    ]
}

#[test]
fn agent_that_applies_a_patch_stands_for_the_plain_command() {
    assert_eq!(
        fallback_command(&words(&["codex", "--codex-run-as-apply-patch", "PATCH"])),
        Some(words(&["apply_patch", "PATCH"]))
    );
    assert_eq!(
        fallback_command(&words(&["codex", "--codex-run-as-apply-patch", "PATCH", "more"])),
        Some(words(&["apply_patch", "PATCH"]))
    );
}

#[test]
fn other_commands_stand_for_themselves() {
    for command in [
        vec![],
        vec!["codex"],
        vec!["codex", "--codex-run-as-apply-patch"],
        vec!["--codex-run-as-apply-patch", "codex", "PATCH"],
        vec!["codex", "--codex-run-as-apply-patches", "PATCH"],
        vec!["apply_patch", "PATCH", "x"],
    ] {
        assert_eq!(fallback_command(&words(&command)), None);
    }
}

#[test]
fn patch_in_the_command_itself_is_taken() {
    let command = words(&["apply_patch", "PATCH"]);
    assert_eq!(detect_patch(&command, Some(patched()), None), Some(changed()));
    assert_eq!(detect_patch(&command, Some(Vec::new()), Some(patched())), Some(Vec::new()));
}

#[test]
fn fallback_is_taken_only_for_the_agent_itself() {
    let plain = words(&["sh", "-c", "PATCH"]);
    assert_eq!(detect_patch(&plain, None, Some(patched())), None);
    let agent = words(&["codex", "--codex-run-as-apply-patch", "PATCH"]);
    assert_eq!(detect_patch(&agent, None, Some(patched())), Some(changed()));
    assert_eq!(detect_patch(&agent, None, None), None);
    assert_eq!(detect_patch(&plain, None, None), None);
}

#[test]
fn patch_is_looked_for_in_the_command_and_in_the_plain_one() {
    let cwd = PathBuf::from("/work");
    let in_plain = |c: &Vec<String>, d: &PathBuf| {
        assert_eq!(*d, PathBuf::from("/work"));
        if c[0] == "apply_patch" {
            Some(patched())
        } else {
            None
        }
    };
    let agent = words(&["codex", "--codex-run-as-apply-patch", "PATCH"]);
    assert_eq!(find_patch(&agent, &cwd, in_plain), Some(changed()));
    assert_eq!(find_patch(&words(&["apply_patch", "PATCH"]), &cwd, in_plain), Some(changed()));
    assert_eq!(find_patch(&words(&["ls"]), &cwd, in_plain), None);
    let in_agent_only = |c: &Vec<String>, _: &PathBuf| {
        if c[0] == "codex" {
            Some(Vec::new())
        } else {
            Some(patched())
        }
    };
    assert_eq!(find_patch(&agent, &cwd, in_agent_only), Some(Vec::new()));
}
