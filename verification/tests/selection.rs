use codex_tui::app_event::{AppEvent, VscodeSelectionInfo};
use codex_tui::selection::{dispatch_selection_from_str, selection_context, selection_from_json};

fn selection() -> VscodeSelectionInfo {
    VscodeSelectionInfo {
        lines: 2,
        characters: 11,
        text: Some("let a;\nlet".to_string()),
        rel_path: Some("src/a.rs".to_string()),
        language_id: Some("rust".to_string()),
        start_line: Some(3),
        end_line: Some(4),
    }
}

fn nothing_selected() -> VscodeSelectionInfo {
    VscodeSelectionInfo {
        lines: 0,
        characters: 0,
        text: None,
        rel_path: None,
        language_id: None,
        start_line: None,
        end_line: None,
    }
}

fn parse(text: &str) -> serde_json::Value {
    serde_json::from_str(text).unwrap()
}

#[test]
fn selection_message_is_read_member_by_member() {
    let v = parse(
        r#"{"type":"selection","lines":2,"characters":11,"text":"let a;\nlet",
            "path":"src/a.rs","languageId":"rust","startLine":3,"endLine":4}"#,
    );
    assert_eq!(selection_from_json(&v), Some(selection()));
}

#[test]
fn members_of_another_kind_count_as_missing() {
    let v = parse(
        r#"{"lines":"2","characters":-1,"text":7,"path":null,"languageId":["rust"],
            "startLine":1.5,"endLine":true}"#,
    );
    assert_eq!(selection_from_json(&v), Some(nothing_selected()));
}

#[test]
fn largest_numbers_are_kept() {
    let v = parse(r#"{"lines":1,"startLine":18446744073709551615,"endLine":18446744073709551616}"#);
    let sel = selection_from_json(&v).unwrap();
    assert_eq!(sel.start_line, Some(u64::MAX));
    assert_eq!(sel.end_line, None);
}

#[test]
fn line_of_the_editor_becomes_an_update() {
    assert_eq!(
        dispatch_selection_from_str(r#"{"type":"selection","lines":1,"text":"x"}"#),
        AppEvent::VscodeSelectionUpdate(Some(VscodeSelectionInfo {
            lines: 1,
            text: Some("x".to_string()),
            ..nothing_selected()
        }))
    );
}

#[test]
fn type_of_the_message_makes_no_difference() {
    assert_eq!(
        dispatch_selection_from_str(r#"{"type":"other","lines":1}"#),
        dispatch_selection_from_str(r#"{"type":"selection","lines":1}"#)
    );
    assert_eq!(
        dispatch_selection_from_str(r#"{"lines":1}"#),
        dispatch_selection_from_str(r#"{"type":"selection","lines":1}"#)
    );
}

#[test]
fn other_messages_select_nothing() {
    for text in ["null", "7", "\"text\"", "[1]", "{}", "true"] {
        let event = dispatch_selection_from_str(text);
        assert_eq!(event, AppEvent::VscodeSelectionUpdate(Some(nothing_selected())));
    }
    assert_eq!(selection_context(&Some(nothing_selected())), None);
}

#[test]
fn line_that_is_no_json_clears_the_selection() {
    for text in ["", "{", "selection", "{} {}", "{\"lines\":1,}"] {
        assert_eq!(
            dispatch_selection_from_str(text),
            AppEvent::VscodeSelectionUpdate(None)
        );
    }
}

#[test]
fn context_names_the_file_and_the_lines() {
    assert_eq!(
        selection_context(&Some(selection())),
        Some("From src/a.rs:L3-L4\n```rust\nlet a;\nlet\n```\n".to_string())
    );
}

#[test]
fn context_without_both_lines_names_the_file_alone() {
    for (start, end) in [(None, Some(4)), (Some(3), None), (None, None)] {
        let sel = VscodeSelectionInfo { start_line: start, end_line: end, ..selection() };
        assert_eq!(
            selection_context(&Some(sel)),
            Some("From src/a.rs\n```rust\nlet a;\nlet\n```\n".to_string())
        );
    }
}

#[test]
fn context_without_a_path_has_a_general_header() {
    let sel = VscodeSelectionInfo { rel_path: None, ..selection() };
    assert_eq!(
        selection_context(&Some(sel)),
        Some("Selected code:\n```rust\nlet a;\nlet\n```\n".to_string())
    );
}

#[test]
fn friendly_label_stands_in_the_header() {
    let sel = VscodeSelectionInfo {
        rel_path: Some("Output: Codex Extension".to_string()),
        start_line: None,
        language_id: None,
        ..selection()
    };
    assert_eq!(
        selection_context(&Some(sel)),
        Some("From Output: Codex Extension\n```\nlet a;\nlet\n```\n".to_string())
    );
}

#[test]
fn language_that_is_no_tag_is_left_out() {
    for language in ["c++", "a b", "x\n", "ü", "objective.c"] {
        let sel = VscodeSelectionInfo {
            language_id: Some(language.to_string()),
            ..selection()
        };
        assert_eq!(
            selection_context(&Some(sel)),
            Some("From src/a.rs:L3-L4\n```\nlet a;\nlet\n```\n".to_string())
        );
    }
    for language in ["objective-c", "type_script", "C0", "Z9az"] {
        let sel = VscodeSelectionInfo {
            language_id: Some(language.to_string()),
            ..selection()
        };
        assert_eq!(
            selection_context(&Some(sel)),
            Some(format!("From src/a.rs:L3-L4\n```{language}\nlet a;\nlet\n```\n"))
        );
    }
}

#[test]
fn text_with_a_fence_stands_as_it_is() {
    let sel = VscodeSelectionInfo { text: Some("```\nx\n```".to_string()), ..selection() };
    assert_eq!(
        selection_context(&Some(sel)),
        Some("From src/a.rs:L3-L4\n```rust\n```\nx\n```\n```\n".to_string())
    );
}

#[test]
fn missing_text_gives_an_empty_block() {
    let sel = VscodeSelectionInfo { text: None, ..selection() };
    assert_eq!(
        selection_context(&Some(sel)),
        Some("From src/a.rs:L3-L4\n```rust\n\n```\n".to_string())
    );
}

#[test]
fn selection_without_lines_adds_no_context() {
    let sel = VscodeSelectionInfo { lines: 0, ..selection() };
    assert_eq!(selection_context(&Some(sel)), None);
    assert_eq!(selection_context(&None), None);
}
