//! The editor's selection: how it is read from the editor's messages, and the context that a
//! selection adds to a user's message.
use vstd::prelude::*;
use vstd::string::*;

use crate::app_event::{AppEvent, AppEventView, SelectionView, VscodeSelectionInfo};
use crate::json::{json_model, natural_under, parse_json, parsed_json, text_under, JsonView};
use crate::text::{chars_of, decimal, decimal_text};

verus! {

// ---------------------------------------------------------------------------
// Selection messages
// ---------------------------------------------------------------------------

/// A count in a selection message: zero where it is missing.
pub open spec fn count_member(v: JsonView, key: Seq<char>) -> usize {
    match v.natural_member(key) {
        Some(n) => n as usize,
        None => 0,
    }
}

/// The selection that a message describes. Members that are missing, or of another kind than
/// expected, count as not given.
pub open spec fn selection_of(v: JsonView) -> SelectionView {
    SelectionView {
        lines: count_member(v, "lines"@),
        characters: count_member(v, "characters"@),
        text: v.text_member("text"@),
        rel_path: v.text_member("path"@),
        language_id: v.text_member("languageId"@),
        start_line: v.natural_member("startLine"@),
        end_line: v.natural_member("endLine"@),
    }
}

/// The update that a line from the editor stands for: the selection that it describes, or none
/// if the line is no JSON document.
pub open spec fn selection_update(line: Seq<char>) -> AppEventView {
    AppEventView::VscodeSelectionUpdate(
        match parsed_json(line) {
            Some(v) => Some(selection_of(v)),
            None => None,
        },
    )
}

/// Reads a selection out of a message. It always finds one.
pub fn selection_from_json(v: &serde_json::Value) -> (r: Option<VscodeSelectionInfo>)
    ensures
        r.deep_view() == Some(selection_of(json_model(*v))),
{
    let lines = natural_under(v, "lines").unwrap_or(0) as usize;
    let characters = natural_under(v, "characters").unwrap_or(0) as usize;
    let text = text_under(v, "text");
    let rel_path = text_under(v, "path");
    let language_id = text_under(v, "languageId");
    let start_line = natural_under(v, "startLine");
    let end_line = natural_under(v, "endLine");
    Some(
        VscodeSelectionInfo {
            lines,
            characters,
            text,
            rel_path,
            language_id,
            start_line,
            end_line,
        },
    )
}

/// The event to send for a line from the editor. Messages of every type are read alike.
pub fn dispatch_selection_from_str(data: &str) -> (r: AppEvent)
    ensures
        r.deep_view() == selection_update(data@),
{
    match parse_json(data) {
        Some(v) => AppEvent::VscodeSelectionUpdate(selection_from_json(&v)),
        None => AppEvent::VscodeSelectionUpdate(None),
    }
}

// ---------------------------------------------------------------------------
// Context for a message
// ---------------------------------------------------------------------------

/// An ASCII letter or digit, a hyphen or an underscore.
pub open spec fn tag_char(c: char) -> bool {
    ||| '0' <= c <= '9'
    ||| 'A' <= c <= 'Z'
    ||| 'a' <= c <= 'z'
    ||| c == '-'
    ||| c == '_'
}

/// The language tag of the fenced block: the language of the selection, if it can stand there.
pub open spec fn fence_tag(language: Option<Seq<char>>) -> Seq<char> {
    match language {
        Some(s) if forall|i: int| 0 <= i < s.len() ==> tag_char(#[trigger] s[i]) => s,
        _ => Seq::empty(),
    }
}

/// The line that introduces a selection: where it is from.
pub open spec fn selection_header(sel: SelectionView) -> Seq<char> {
    match sel.rel_path {
        Some(path) => match (sel.start_line, sel.end_line) {
            (Some(start), Some(end)) => "From "@ + path + ":L"@ + decimal(start as nat) + "-L"@
                + decimal(end as nat) + "\n"@,
            _ => "From "@ + path + "\n"@,
        },
        None => "Selected code:\n"@,
    }
}

/// The selected text as a fenced code block. The text stands in it as it is.
pub open spec fn selection_block(sel: SelectionView) -> Seq<char> {
    let code = match sel.text {
        Some(text) => text,
        None => Seq::empty(),
    };
    "```"@ + fence_tag(sel.language_id) + "\n"@ + code + "\n```\n"@
}

/// What a selection adds to a message: a header and a fenced code block, if it spans any line.
pub open spec fn context_of(sel: Option<SelectionView>) -> Option<Seq<char>> {
    match sel {
        Some(sel) if sel.lines > 0 => Some(selection_header(sel) + selection_block(sel)),
        _ => None,
    }
}

fn is_tag(text: &str) -> (r: bool)
    ensures
        r == (forall|i: int| 0 <= i < text@.len() ==> tag_char(#[trigger] text@[i])),
{
    let chars = chars_of(text);
    let mut i: usize = 0;
    while i < chars.len()
        invariant
            chars@ == text@,
            i <= chars.len(),
            forall|k: int| 0 <= k < i ==> tag_char(#[trigger] chars@[k]),
        decreases chars.len() - i,
    {
        let c = chars[i];
        let fits = ('0' <= c && c <= '9') || ('A' <= c && c <= 'Z') || ('a' <= c && c <= 'z') || c
            == '-' || c == '_';
        if !fits {
            assert(!tag_char(text@[i as int]));
            return false;
        }
        i += 1;
    }
    true
}

/// What a selection adds to a message.
pub fn selection_context(sel: &Option<VscodeSelectionInfo>) -> (r: Option<String>)
    ensures
        r.deep_view() == context_of(sel.deep_view()),
{
    match sel {
        Some(sel) => {
            if sel.lines == 0 {
                return None;
            }
            let mut out = match &sel.rel_path {
                Some(path) => {
                    let mut header = "From ".to_string();
                    header.append(path.as_str());
                    match (sel.start_line, sel.end_line) {
                        (Some(start), Some(end)) => {
                            header.append(":L");
                            header.append(decimal_text(start).as_str());
                            header.append("-L");
                            header.append(decimal_text(end).as_str());
                        },
                        _ => {},
                    }
                    header.append("\n");
                    header
                },
                None => "Selected code:\n".to_string(),
            };
            let ghost view = sel.deep_view();
            assert(out@ == selection_header(view));
            out.append("```");
            match &sel.language_id {
                Some(language) => {
                    if is_tag(language.as_str()) {
                        out.append(language.as_str());
                    }
                },
                None => {},
            }
            out.append("\n");
            match &sel.text {
                Some(text) => out.append(text.as_str()),
                None => {},
            }
            out.append("\n```\n");
            assert(out@ =~= selection_header(view) + selection_block(view));
            Some(out)
        },
        None => None,
    }
}

} // verus!
