//! What is read from the editor and written to it, what is looked for in texts, when the editor's
//! extension is installed, and how the screen is divided: in each case, what comes out for what
//! goes in.
use std::path::PathBuf;

use vstd::prelude::*;

use crate::app_event::{AppEventView, SelectionView};
use crate::context::{mirrors, optional_path_text, proposes};
use crate::install::{
    after_list, after_probe, after_start, arguments_in, candidates, earlier, first_version,
    listed_version, needs_install, tool_in, version_of, version_on_line, InstallFailure,
    InstallState,
};
use crate::ipc::{
    advertised_path, reader_connected, reader_output, writer_pause, ReaderInputView,
    WriterInputView, WriterStepView, WriterView,
};
use crate::json::{json_model, parsed_json, JsonView};
use crate::laws::{
    law_extension_without_version_is_updated, law_installed_unless_recent,
    law_split_text_joins_back,
};
use crate::layout::{stacked, Rect};
use crate::patch::{
    detected_changes, finds_changes, found_in_plain, patch_files, plain_command,
};
use crate::protocol::{
    ChangedFile, ChangedFileView, FileChangeView, PatchChange, PatchedFile,
};
use crate::selection::{context_of, selection_of, selection_update, tag_char};
use crate::text::{
    decimal, decimal_value, is_digit, line_end, lines_of, natural_of, numeral_digits, split_on,
    trimmed, trimmed_end, trimmed_start, white_space, without_cr,
};
use crate::transition::{PatchMirrorView, ProposedPatchView};

verus! {

// ---------------------------------------------------------------------------
// Messages of the editor
// ---------------------------------------------------------------------------

/// The text under a key of an object's members, if there is one.
pub open spec fn text_in(members: Map<Seq<char>, JsonView>, key: Seq<char>) -> Option<Seq<char>> {
    if members.contains_key(key) && members[key] is Text {
        Some(members[key]->Text_0)
    } else {
        None
    }
}

/// The natural number under a key of an object's members, if there is one.
pub open spec fn natural_in(members: Map<Seq<char>, JsonView>, key: Seq<char>) -> Option<u64> {
    if members.contains_key(key) && members[key] is Number {
        members[key]->natural
    } else {
        None
    }
}

/// A selection is read out of an object member by member, each under its own key.
pub proof fn law_selection_is_read(members: Map<Seq<char>, JsonView>)
    ensures
        ({
            let sel = selection_of(JsonView::Object(members));
            let lines = natural_in(members, "lines"@);
            let characters = natural_in(members, "characters"@);
            &&& sel.lines == (if lines is Some {
                lines->0 as usize
            } else {
                0
            })
            &&& sel.characters == (if characters is Some {
                characters->0 as usize
            } else {
                0
            })
            &&& sel.text == text_in(members, "text"@)
            &&& sel.rel_path == text_in(members, "path"@)
            &&& sel.language_id == text_in(members, "languageId"@)
            &&& sel.start_line == natural_in(members, "startLine"@)
            &&& sel.end_line == natural_in(members, "endLine"@)
        }),
{
}

/// A value that is no object describes a selection of nothing.
pub proof fn law_nothing_is_read_out_of_other_values(v: JsonView)
    requires
        !(v is Object),
    ensures
        selection_of(v) == (SelectionView {
            lines: 0,
            characters: 0,
            text: None,
            rel_path: None,
            language_id: None,
            start_line: None,
            end_line: None,
        }),
{
}

/// A line that is JSON updates the selection to the one that it describes, and one that is not
/// clears it.
pub proof fn law_line_updates_the_selection(line: Seq<char>)
    ensures
        parsed_json(line) is None ==> selection_update(line)
            == AppEventView::VscodeSelectionUpdate(None),
        parsed_json(line) is Some ==> selection_update(line)
            == AppEventView::VscodeSelectionUpdate(Some(selection_of(parsed_json(line)->0))),
{
}

/// The address is the text under `ipc_path` of an object, and nothing else is.
pub proof fn law_address_is_read(marker: Seq<char>)
    ensures
        advertised_path(marker) == (match parsed_json(marker) {
            Some(JsonView::Object(members)) => text_in(members, "ipc_path"@),
            _ => None,
        }),
{
}

// ---------------------------------------------------------------------------
// The reader and the writer
// ---------------------------------------------------------------------------

proof fn lemma_end_is_trimmed(content: Seq<char>, end: Seq<char>, f: spec_fn(char) -> bool)
    requires
        content.len() == 0 || !f(content[content.len() - 1]),
        forall|i: int| 0 <= i < end.len() ==> f(#[trigger] end[i]),
    ensures
        trimmed_end(content + end, f) == content,
    decreases end.len(),
{
    if end.len() > 0 {
        assert(f(end[end.len() - 1]));
        assert((content + end).drop_last() =~= content + end.drop_last());
        assert forall|i: int| 0 <= i < end.drop_last().len() implies f(
            #[trigger] end.drop_last()[i],
        ) by {
            assert(end.drop_last()[i] == end[i]);
        }
        lemma_end_is_trimmed(content, end.drop_last(), f);
    } else {
        assert(content + end =~= content);
    }
}

/// A line is read whole, whatever its ending: only line feeds and carriage returns at its end are
/// left off. What is left is dispatched as it is; if nothing is left, nothing is done.
pub proof fn law_line_is_read_whole(content: Seq<char>, end: Seq<char>)
    requires
        content.len() == 0 || (content[content.len() - 1] != '\n' && content[content.len() - 1]
            != '\r'),
        forall|i: int|
            0 <= i < end.len() ==> (#[trigger] end[i]) == '\n' || end[i] == '\r',
    ensures
        ({
            let output = reader_output(ReaderInputView::Line(content + end));
            &&& output.pause == 0
            &&& content.len() == 0 ==> output.event is None
            &&& content.len() > 0 ==> output.event == Some(
                AppEventView::VscodeSelectionUpdate(
                    match parsed_json(content) {
                        Some(v) => Some(selection_of(v)),
                        None => None,
                    },
                ),
            )
        }),
{
    lemma_end_is_trimmed(content, end, |c: char| line_end(c));
}

/// A message reads alike with a line feed after it, with a carriage return and a line feed, and
/// with nothing.
pub proof fn law_line_endings_make_no_difference(content: Seq<char>)
    requires
        content.len() > 0,
        content[content.len() - 1] != '\n',
        content[content.len() - 1] != '\r',
    ensures
        reader_output(ReaderInputView::Line(content)).event == Some(selection_update(content)),
        reader_output(ReaderInputView::Line(content.push('\n'))).event == Some(
            selection_update(content),
        ),
        reader_output(ReaderInputView::Line(content.push('\r').push('\n'))).event == Some(
            selection_update(content),
        ),
{
    law_line_is_read_whole(content, Seq::empty());
    law_line_is_read_whole(content, seq!['\n']);
    law_line_is_read_whole(content, seq!['\r', '\n']);
    assert(content + Seq::empty() =~= content);
    assert(content + seq!['\n'] =~= content.push('\n'));
    assert(content + seq!['\r', '\n'] =~= content.push('\r').push('\n'));
}

/// The reader is connected while it reads. It says so when it connects, waits half a second where
/// it cannot, and a fifth of a second where the stream has ended.
pub proof fn law_reader_connects(line: Seq<char>)
    ensures
        reader_connected(ReaderInputView::Connected),
        reader_connected(ReaderInputView::Line(line)),
        !reader_connected(ReaderInputView::ConnectFailed),
        !reader_connected(ReaderInputView::EndOfStream),
        reader_output(ReaderInputView::Connected).event == Some(
            AppEventView::LatestLog("__SET_IDE_CONNECTED__"@),
        ),
        reader_output(ReaderInputView::Connected).pause == 0,
        reader_output(ReaderInputView::ConnectFailed).event is None,
        reader_output(ReaderInputView::ConnectFailed).pause == 500,
        reader_output(ReaderInputView::EndOfStream).event is None,
        reader_output(ReaderInputView::EndOfStream).pause == 200,
{
}

/// The writer waits for a line, connects, and writes the oldest line with a line feed after it,
/// until there is none; and it stops when no line can come.
pub proof fn law_writer_takes_its_steps(w: WriterView)
    ensures
        w.closed ==> w.step() is Stop,
        !w.closed && w.backlog.len() == 0 ==> w.step() is Receive,
        !w.closed && w.backlog.len() > 0 && !w.connected ==> w.step() is Connect,
        !w.closed && w.backlog.len() > 0 && w.connected ==> w.step() == WriterStepView::Write(
            w.backlog[0].push('\n'),
        ),
{
    reveal_strlit("\n");
    if w.backlog.len() > 0 {
        assert(w.backlog[0] + "\n"@ =~= w.backlog[0].push('\n'));
    }
}

/// What comes of a step changes one thing: a line that comes is the newest, one that has been
/// written is gone, and one that could not be written stays the oldest and waits for a new
/// connection.
pub proof fn law_writer_takes_what_comes(w: WriterView, line: Seq<char>)
    ensures
        ({
            let after = w.after(WriterInputView::Received(line));
            &&& after.backlog.len() == w.backlog.len() + 1
            &&& after.backlog[w.backlog.len() as int] == line
            &&& forall|i: int|
                0 <= i < w.backlog.len() ==> #[trigger] after.backlog[i] == w.backlog[i]
            &&& after.connected == w.connected
            &&& after.closed == w.closed
        }),
        w.backlog.len() > 0 ==> ({
            let after = w.after(WriterInputView::Written);
            &&& after.backlog.len() == w.backlog.len() - 1
            &&& forall|i: int|
                0 <= i < after.backlog.len() ==> #[trigger] after.backlog[i] == w.backlog[i + 1]
            &&& after.connected == w.connected
            &&& after.closed == w.closed
        }),
        w.after(WriterInputView::WriteFailed) == (WriterView { connected: false, ..w }),
        w.after(WriterInputView::Connected) == (WriterView { connected: true, ..w }),
        w.after(WriterInputView::ConnectFailed) == w,
        w.after(WriterInputView::Closed) == (WriterView { closed: true, ..w }),
{
}

/// The writer takes whatever can come of the step that it wants, and waits only where that did not
/// work out.
pub proof fn law_writer_waits_after_failures(w: WriterView, line: Seq<char>)
    ensures
        w.step() is Receive ==> w.accepts(WriterInputView::Received(line)) && w.accepts(
            WriterInputView::Closed,
        ),
        w.step() is Connect ==> w.accepts(WriterInputView::Connected) && w.accepts(
            WriterInputView::ConnectFailed,
        ),
        w.step() is Write ==> w.accepts(WriterInputView::Written) && w.accepts(
            WriterInputView::WriteFailed,
        ),
        writer_pause(WriterInputView::ConnectFailed) == 300,
        writer_pause(WriterInputView::WriteFailed) == 200,
        writer_pause(WriterInputView::Received(line)) == 0,
        writer_pause(WriterInputView::Closed) == 0,
        writer_pause(WriterInputView::Connected) == 0,
        writer_pause(WriterInputView::Written) == 0,
{
}

// ---------------------------------------------------------------------------
// The context of a selection
// ---------------------------------------------------------------------------

/// All characters can stand in the tag of a fenced block.
pub open spec fn can_be_a_tag(s: Seq<char>) -> bool {
    forall|i: int|
        0 <= i < s.len() ==> ('a' <= #[trigger] s[i] <= 'z' || 'A' <= s[i] <= 'Z' || '0' <= s[i]
            <= '9' || s[i] == '-' || s[i] == '_')
}

/// A selection that spans a line adds its header and its text in a fenced block, and one that
/// spans none adds nothing. The header names the path, and the lines if both are given; the block
/// is tagged with the language, if that can be a tag; and the text stands in it unchanged.
pub proof fn law_selection_adds_its_context(sel: SelectionView)
    ensures
        context_of(None) is None,
        sel.lines == 0 ==> context_of(Some(sel)) is None,
        sel.lines > 0 ==> context_of(Some(sel)) is Some && ({
            let header = match (sel.rel_path, sel.start_line, sel.end_line) {
                (None, _, _) => "Selected code:\n"@,
                (Some(path), Some(start), Some(end)) => "From "@ + path + ":L"@ + decimal(
                    start as nat,
                ) + "-L"@ + decimal(end as nat) + "\n"@,
                (Some(path), _, _) => "From "@ + path + "\n"@,
            };
            let tag = if sel.language_id is Some && can_be_a_tag(sel.language_id->0) {
                sel.language_id->0
            } else {
                Seq::empty()
            };
            let code = if sel.text is Some {
                sel.text->0
            } else {
                Seq::empty()
            };
            context_of(Some(sel))->0 == header + ("```"@ + tag + "\n"@ + code + "\n```\n"@)
        }),
{
    if let Some(language) = sel.language_id {
        assert(can_be_a_tag(language) == (forall|i: int|
            0 <= i < language.len() ==> tag_char(#[trigger] language[i])));
    }
}

// ---------------------------------------------------------------------------
// Text
// ---------------------------------------------------------------------------

/// White space is what Unicode says.
pub proof fn law_white_space(c: char)
    ensures
        ({
            let code = c as int;
            white_space(c) <==> (code == 0x20 || 0x9 <= code <= 0xd || code == 0x85 || code == 0xa0
                || code == 0x1680 || 0x2000 <= code <= 0x200a || code == 0x2028 || code == 0x2029
                || code == 0x202f || code == 0x205f || code == 0x3000)
        }),
{
}

proof fn lemma_start_is_trimmed(start: Seq<char>, content: Seq<char>, f: spec_fn(char) -> bool)
    requires
        content.len() == 0 || !f(content[0]),
        forall|i: int| 0 <= i < start.len() ==> f(#[trigger] start[i]),
    ensures
        trimmed_start(start + content, f) == content,
    decreases start.len(),
{
    if start.len() > 0 {
        assert(f(start[0]));
        assert((start + content).drop_first() =~= start.drop_first() + content);
        assert forall|i: int| 0 <= i < start.drop_first().len() implies f(
            #[trigger] start.drop_first()[i],
        ) by {
            assert(start.drop_first()[i] == start[i + 1]);
        }
        lemma_start_is_trimmed(start.drop_first(), content, f);
    } else {
        assert(start + content =~= content);
    }
}

/// What is trimmed off a text is the white space around it, all of it and nothing more.
pub proof fn law_white_space_is_trimmed(start: Seq<char>, content: Seq<char>, end: Seq<char>)
    requires
        forall|i: int| 0 <= i < start.len() ==> white_space(#[trigger] start[i]),
        forall|i: int| 0 <= i < end.len() ==> white_space(#[trigger] end[i]),
        content.len() > 0 ==> !white_space(content[0]) && !white_space(
            content[content.len() - 1],
        ),
    ensures
        trimmed(start + content + end) == content,
{
    let f = |c: char| white_space(c);
    if content.len() > 0 {
        assert(start + content + end =~= start + (content + end));
        lemma_start_is_trimmed(start, content + end, f);
        lemma_end_is_trimmed(content, end, f);
    } else {
        let all = start + content + end;
        assert forall|i: int| 0 <= i < all.len() implies f(#[trigger] all[i]) by {
            if i < start.len() {
                assert(all[i] == start[i]);
            } else {
                assert(all[i] == end[i - start.len()]);
            }
        }
        assert(all + Seq::empty() =~= all);
        lemma_start_is_trimmed(all, Seq::empty(), f);
        assert(trimmed(all) =~= content);
    }
}

/// A text without the separator is one part.
pub proof fn law_text_without_separator_is_one_part(s: Seq<char>, sep: char)
    requires
        !s.contains(sep),
    ensures
        split_on(s, sep) == seq![s],
    decreases s.len(),
{
    if s.len() > 0 {
        let rest = s.drop_last();
        assert forall|i: int| 0 <= i < rest.len() implies rest[i] != sep by {
            assert(rest[i] == s[i]);
        }
        law_text_without_separator_is_one_part(rest, sep);
        assert(s[s.len() - 1] != sep);
        assert(rest.push(s.last()) =~= s);
        assert(split_on(s, sep) =~= seq![s]);
    } else {
        assert(split_on(s, sep) =~= seq![s]);
    }
}

/// What follows a separator is split by itself: the parts before it and the parts after it.
pub proof fn law_parts_on_both_sides_of_a_separator(a: Seq<char>, sep: char, b: Seq<char>)
    ensures
        split_on(a.push(sep) + b, sep) == split_on(a, sep) + split_on(b, sep),
    decreases b.len(),
{
    let s = a.push(sep) + b;
    if b.len() == 0 {
        assert(s =~= a.push(sep));
        assert(s.drop_last() =~= a);
        assert(b =~= Seq::empty());
        assert(split_on(s, sep) =~= split_on(a, sep) + split_on(b, sep));
    } else {
        assert(s.drop_last() =~= a.push(sep) + b.drop_last());
        law_parts_on_both_sides_of_a_separator(a, sep, b.drop_last());
        law_split_text_joins_back(b.drop_last(), sep);
        assert(split_on(s, sep) =~= split_on(a, sep) + split_on(b, sep));
    }
}

/// The first line of a text ends at the first line feed; a carriage return before that does not
/// belong to it. The other lines are those of the rest.
pub proof fn law_lines_one_after_the_other(line: Seq<char>, rest: Seq<char>)
    requires
        !line.contains('\n'),
    ensures
        line.len() > 0 ==> lines_of(line) == seq![line],
        lines_of(Seq::empty()).len() == 0,
        lines_of(line.push('\n') + rest) == seq![
            if line.len() > 0 && line[line.len() - 1] == '\r' {
                line.take(line.len() - 1)
            } else {
                line
            },
        ] + lines_of(rest),
{
    let empty = Seq::<char>::empty();
    law_text_without_separator_is_one_part(line, '\n');
    law_text_without_separator_is_one_part(empty, '\n');
    assert(seq![line].drop_last() =~= Seq::empty());
    assert(seq![empty].drop_last() =~= Seq::empty());
    assert(lines_of(empty) =~= Seq::empty());
    if line.len() > 0 {
        assert(lines_of(line) =~= seq![line]);
    }
    law_parts_on_both_sides_of_a_separator(line, '\n', rest);
    law_split_text_joins_back(rest, '\n');
    let parts = split_on(rest, '\n');
    let all = split_on(line.push('\n') + rest, '\n');
    assert(all =~= seq![line] + parts);
    assert(all.last() == parts.last());
    assert(all.drop_last() =~= seq![line] + parts.drop_last());
    assert(line.len() > 0 ==> line.drop_last() =~= line.take(line.len() - 1));
    assert(without_cr(line) == (if line.len() > 0 && line[line.len() - 1] == '\r' {
        line.take(line.len() - 1)
    } else {
        line
    }));
    assert(lines_of(line.push('\n') + rest) =~= seq![without_cr(line)] + lines_of(rest));
}

/// A number is written down digit by digit, the last digit last.
pub proof fn law_numerals_are_decimal(n: nat)
    ensures
        n < 10 ==> decimal(n).len() == 1 && decimal(n)[0] as int == '0' as int + n,
        n >= 10 ==> ({
            let k = decimal(n).len() as int;
            &&& k >= 2
            &&& decimal(n).take(k - 1) == decimal(n / 10)
            &&& decimal(n)[k - 1] as int == '0' as int + n % 10
        }),
{
    if n >= 10 {
        let k = decimal(n).len() as int;
        lemma_numeral_is_not_empty(n / 10);
        assert(decimal(n).take(k - 1) =~= decimal(n / 10));
    }
}

proof fn lemma_numeral_is_not_empty(n: nat)
    ensures
        decimal(n).len() > 0,
    decreases n,
{
    if n >= 10 {
        lemma_numeral_is_not_empty(n / 10);
    }
}

/// A digit is a numeral, and one more digit at its end makes ten times the number and the digit,
/// as long as that fits. A plus sign in front makes no difference, and nothing else is a numeral.
pub proof fn law_numerals_are_read(s: Seq<char>, c: char)
    ensures
        natural_of(Seq::empty()) is None,
        '0' <= c <= '9' ==> natural_of(seq![c]) == Some((c as u64 - '0' as u64) as u64),
        !('0' <= c <= '9') ==> natural_of(seq![c]) is None,
        natural_of(s) is Some && '0' <= c <= '9' ==> ({
            let next = natural_of(s)->0 * 10 + (c as int - '0' as int);
            if next <= u64::MAX {
                natural_of(s.push(c)) is Some && natural_of(s.push(c))->0 == next
            } else {
                natural_of(s.push(c)) is None
            }
        }),
        s.len() > 0 && !('0' <= c <= '9') ==> natural_of(s.push(c)) is None,
        s.len() > 0 && s != seq!['+'] && natural_of(s) is None ==> natural_of(s.push(c)) is None,
        s.len() > 0 && s[0] != '+' ==> natural_of(seq!['+'] + s) == natural_of(s),
{
    reveal_with_fuel(decimal_value, 2);
    assert(seq![c].drop_last() =~= Seq::empty());
    assert(numeral_digits(seq![c]) == (if c == '+' {
        seq![c].drop_first()
    } else {
        seq![c]
    }));
    if '0' <= c <= '9' {
        assert(decimal_value(seq![c]) == (c as nat - '0' as nat) as nat);
    } else if c != '+' {
        assert(!is_digit(seq![c][0]));
    }
    if s.len() > 0 {
        let digits = numeral_digits(s);
        let more = numeral_digits(s.push(c));
        assert(more =~= digits.push(c));
        assert(more.drop_last() =~= digits);
        if '0' <= c <= '9' {
            if natural_of(s) is Some {
                assert forall|i: int| 0 <= i < more.len() implies is_digit(#[trigger] more[i]) by {
                    if i < digits.len() {
                        assert(more[i] == digits[i]);
                    }
                }
            }
        } else {
            assert(!is_digit(more[more.len() - 1]));
        }
        if s != seq!['+'] && natural_of(s) is None {
            if digits.len() == 0 {
                assert(s =~= seq!['+']);
            } else if exists|i: int| 0 <= i < digits.len() && !is_digit(#[trigger] digits[i]) {
                let i = choose|i: int| 0 <= i < digits.len() && !is_digit(#[trigger] digits[i]);
                assert(more[i] == digits[i]);
            }
        }
        assert((seq!['+'] + s).drop_first() =~= s);
    }
}

// ---------------------------------------------------------------------------
// Installing the extension
// ---------------------------------------------------------------------------

/// The number that a part of a version stands for: zero where it is none.
pub open spec fn number_or_zero(part: Seq<char>) -> u64 {
    if natural_of(part) is Some {
        natural_of(part)->0
    } else {
        0
    }
}

/// A version is read part by part between the dots. Missing parts count as zero, and what follows
/// the third part does not count.
pub proof fn law_version_is_read(a: Seq<char>, b: Seq<char>, c: Seq<char>, rest: Seq<char>)
    requires
        !a.contains('.'),
        !b.contains('.'),
        !c.contains('.'),
    ensures
        version_of(a) == (number_or_zero(a), 0u64, 0u64),
        version_of(a.push('.') + b) == (number_or_zero(a), number_or_zero(b), 0u64),
        version_of(a.push('.') + (b.push('.') + c)) == (
            number_or_zero(a),
            number_or_zero(b),
            number_or_zero(c),
        ),
        version_of(a.push('.') + (b.push('.') + (c.push('.') + rest))) == (
            number_or_zero(a),
            number_or_zero(b),
            number_or_zero(c),
        ),
{
    law_text_without_separator_is_one_part(a, '.');
    law_text_without_separator_is_one_part(b, '.');
    law_text_without_separator_is_one_part(c, '.');
    law_parts_on_both_sides_of_a_separator(a, '.', b);
    law_parts_on_both_sides_of_a_separator(b, '.', c);
    law_parts_on_both_sides_of_a_separator(a, '.', b.push('.') + c);
    law_parts_on_both_sides_of_a_separator(c, '.', rest);
    law_parts_on_both_sides_of_a_separator(b, '.', c.push('.') + rest);
    law_parts_on_both_sides_of_a_separator(a, '.', b.push('.') + (c.push('.') + rest));
}

/// Of two versions the earlier one is that with the smaller major number, then minor number, then
/// patch number.
pub proof fn law_earlier_version(a: (u64, u64, u64), b: (u64, u64, u64))
    ensures
        a.0 != b.0 ==> earlier(a, b) == (a.0 < b.0),
        a.0 == b.0 && a.1 != b.1 ==> earlier(a, b) == (a.1 < b.1),
        a.0 == b.0 && a.1 == b.1 ==> earlier(a, b) == (a.2 < b.2),
{
}

/// A line of a list names the extension: with a version after the name, or alone.
pub open spec fn names_extension(line: Seq<char>) -> bool {
    "openai.codex-vscode@"@.is_prefix_of(line) || trimmed(line) == "openai.codex-vscode"@
}

proof fn lemma_first_version(lines: Seq<Seq<char>>, k: int)
    requires
        0 <= k <= lines.len(),
        forall|j: int| 0 <= j < k ==> !names_extension(#[trigger] lines[j]),
    ensures
        k == lines.len() ==> first_version(lines) is None,
        k < lines.len() && names_extension(lines[k]) ==> first_version(lines) == version_on_line(
            lines[k],
        ),
    decreases k,
{
    if lines.len() > 0 && k > 0 {
        assert(!names_extension(lines[0]));
        let rest = lines.drop_first();
        assert forall|j: int| 0 <= j < k - 1 implies !names_extension(#[trigger] rest[j]) by {
            assert(rest[j] == lines[j + 1]);
        }
        lemma_first_version(rest, k - 1);
    }
}

/// Where no line of the list names the extension, it is installed.
pub proof fn law_missing_extension_is_installed(i: usize, listing: Seq<char>)
    requires
        forall|j: int|
            0 <= j < lines_of(listing).len() ==> !names_extension(#[trigger] lines_of(listing)[j]),
    ensures
        after_list(InstallState::List(i), Some(listing)) == InstallState::Install(i),
        listed_version(listing) is None,
        needs_install(Some(listing)),
{
    lemma_first_version(lines_of(listing), lines_of(listing).len() as int);
}

/// Where the first line that names the extension gives a version, the extension is updated if
/// that is below 0.0.1, and left alone if it is not.
pub proof fn law_outdated_extension_is_updated(
    i: usize,
    listing: Seq<char>,
    k: int,
    version: Seq<char>,
)
    requires
        0 <= k < lines_of(listing).len(),
        forall|j: int| 0 <= j < k ==> !names_extension(#[trigger] lines_of(listing)[j]),
        lines_of(listing)[k] == "openai.codex-vscode@"@ + version,
    ensures
        listed_version(listing) == Some(trimmed(version)),
        ({
            let (major, minor, patch) = version_of(trimmed(version));
            let outdated = major == 0 && minor == 0 && patch < 1;
            after_list(InstallState::List(i), Some(listing)) == (if outdated {
                InstallState::Install(i)
            } else {
                InstallState::Done
            })
        }),
{
    let line = lines_of(listing)[k];
    let name = "openai.codex-vscode@"@;
    assert(name.is_prefix_of(line));
    assert(line.skip(name.len() as int) =~= version);
    lemma_first_version(lines_of(listing), k);
    law_installed_unless_recent(Some(listing));
}

/// Where the first line that names the extension gives no version, the extension is updated.
pub proof fn law_extension_of_unknown_version_is_updated(i: usize, listing: Seq<char>, k: int)
    requires
        0 <= k < lines_of(listing).len(),
        forall|j: int| 0 <= j < k ==> !names_extension(#[trigger] lines_of(listing)[j]),
        !"openai.codex-vscode@"@.is_prefix_of(lines_of(listing)[k]),
        trimmed(lines_of(listing)[k]) == "openai.codex-vscode"@,
    ensures
        listed_version(listing) == Some("0.0.0"@),
        after_list(InstallState::List(i), Some(listing)) == InstallState::Install(i),
{
    lemma_first_version(lines_of(listing), k);
    law_extension_without_version_is_updated(listing);
}

/// A list that could not be had leads to an installation.
pub proof fn law_failed_list_leads_to_an_installation(i: usize)
    ensures
        after_list(InstallState::List(i), None) == InstallState::Install(i),
{
}

/// A candidate that works is used, one that does not is followed by the next, and after the last
/// one the installer gives up. An installation that could not be started is a failure.
pub proof fn law_installer_goes_on(
    i: usize,
    count: nat,
    state: InstallState,
    listing: Option<Seq<char>>,
)
    requires
        i < count <= usize::MAX,
    ensures
        after_probe(InstallState::Probe(i), count, true) == InstallState::List(i),
        i + 1 < count ==> after_probe(InstallState::Probe(i), count, false) == InstallState::Probe(
            (i + 1) as usize,
        ),
        i + 1 == count ==> after_probe(InstallState::Probe(i), count, false)
            == InstallState::Failed(InstallFailure::NoTool),
        after_start(InstallState::Install(i), true) == InstallState::Done,
        after_start(InstallState::Install(i), false) == InstallState::Failed(
            InstallFailure::NotStarted,
        ),
        !(state is Probe) ==> after_probe(state, count, true) == state && after_probe(
            state,
            count,
            false,
        ) == state,
        !(state is List) ==> after_list(state, listing) == state,
        !(state is Install) ==> after_start(state, true) == state && after_start(state, false)
            == state,
{
}

/// The tools, and what each is run with.
pub proof fn law_tools_and_arguments(i: usize, failure: InstallFailure)
    ensures
        candidates(false) == seq!["code"@, "code-insiders"@],
        candidates(true) == seq![
            "code.cmd"@,
            "code.exe"@,
            "code-insiders.cmd"@,
            "code-insiders.exe"@,
        ],
        arguments_in(InstallState::Probe(i)) == seq!["--version"@],
        arguments_in(InstallState::List(i)) == seq!["--list-extensions"@, "--show-versions"@],
        arguments_in(InstallState::Install(i)) == seq![
            "--install-extension"@,
            "openai.codex-vscode"@,
            "--force"@,
        ],
        tool_in(InstallState::Probe(i)) == Some(i),
        tool_in(InstallState::List(i)) == Some(i),
        tool_in(InstallState::Install(i)) == Some(i),
        tool_in(InstallState::Done) is None,
        tool_in(InstallState::Failed(failure)) is None,
{
}

// ---------------------------------------------------------------------------
// Patches
// ---------------------------------------------------------------------------

/// The change is the one of the patch, without the new content.
pub open spec fn is_change_of(change: FileChangeView, of: PatchChange) -> bool {
    match of {
        PatchChange::Add { content } => change == (FileChangeView::Add { content: content@ }),
        PatchChange::Delete => change == FileChangeView::Delete,
        PatchChange::Update { unified_diff, move_path, new_content } => change == (
        FileChangeView::Update { unified_diff: unified_diff@, move_path }),
    }
}

/// The changes are those of the files of a patch, one by one and under the same paths.
pub open spec fn are_changes_of(
    changes: Option<Seq<ChangedFileView>>,
    files: Seq<PatchedFile>,
) -> bool {
    &&& changes is Some
    &&& changes->0.len() == files.len()
    &&& forall|i: int|
        #![trigger files[i]]
        0 <= i < files.len() ==> changes->0[i].path == files[i].path && is_change_of(
            changes->0[i].change,
            files[i].change,
        )
}

/// The command runs the agent itself to apply the patch in its third word.
pub open spec fn applies_patch_itself(command: Seq<Seq<char>>) -> bool {
    command.len() >= 3 && command[1] == "--codex-run-as-apply-patch"@
}

/// A patch in the command itself goes first, whatever else there is; a patch in the plain command
/// counts only where the command stands for that one.
pub proof fn law_patch_in_the_command_goes_first(
    command: Seq<Seq<char>>,
    files: Seq<PatchedFile>,
    fallback: Option<Seq<PatchedFile>>,
)
    ensures
        are_changes_of(detected_changes(command, Some(files), fallback), files),
        applies_patch_itself(command) ==> are_changes_of(
            detected_changes(command, None, Some(files)),
            files,
        ),
        !applies_patch_itself(command) ==> detected_changes(command, None, fallback) is None,
        detected_changes(command, None, None) is None,
        plain_command(command) == (if applies_patch_itself(command) {
            Some(seq!["apply_patch"@, command[2]])
        } else {
            None
        }),
{
}

/// The search for a patch asks for the one in the command itself; only where there is none, and
/// the command stands for a plain one, does it ask for the one in that. What it finds is what it
/// gives.
pub proof fn law_patch_is_searched_for<
    F: Fn(&Vec<String>, &PathBuf) -> Option<Vec<PatchedFile>>,
>(command: Vec<String>, cwd: PathBuf, parse: F, changes: Option<Seq<ChangedFileView>>)
    requires
        finds_changes(command, cwd, parse, changes),
    ensures
        exists|direct: Option<Vec<PatchedFile>>|
            {
                &&& #[trigger] call_ensures(parse, (&command, &cwd), direct)
                &&& match direct {
                    Some(files) => are_changes_of(changes, files@),
                    None => if applies_patch_itself(command.deep_view()) {
                        exists|shim: Vec<String>, found: Option<Vec<PatchedFile>>|
                            {
                                &&& #[trigger] call_ensures(parse, (&shim, &cwd), found)
                                &&& shim.deep_view() == seq![
                                    "apply_patch"@,
                                    command.deep_view()[2],
                                ]
                                &&& match found {
                                    Some(files) => are_changes_of(changes, files@),
                                    None => changes is None,
                                }
                            }
                    } else {
                        changes is None
                    },
                }
            },
{
    let (direct, fallback) = choose|
        direct: Option<Vec<PatchedFile>>,
        fallback: Option<Vec<PatchedFile>>,
    |
        {
            &&& #[trigger] call_ensures(parse, (&command, &cwd), direct)
            &&& #[trigger] found_in_plain(
                command.deep_view(),
                cwd,
                parse,
                direct,
                fallback,
            )
            &&& changes == detected_changes(
                command.deep_view(),
                patch_files(direct),
                patch_files(fallback),
            )
        };
    assert(call_ensures(parse, (&command, &cwd), direct));
    if direct is None && applies_patch_itself(command.deep_view()) {
        let shim = choose|shim: Vec<String>|
            shim.deep_view() == plain_command(command.deep_view())->0 && #[trigger] call_ensures(
                parse,
                (&shim, &cwd),
                fallback,
            );
        assert(call_ensures(parse, (&shim, &cwd), fallback));
    }
}

/// What the editor is to get of a patch that a command would apply are the changes that were found
/// in it, and the directory of the command; nothing, if none were found.
pub proof fn law_proposal_is_what_was_found<
    F: Fn(&Vec<String>, &PathBuf) -> Option<Vec<PatchedFile>>,
    G: Fn(&Vec<ChangedFile>) -> serde_json::Value,
    H: Fn(&PathBuf) -> String,
>(
    command: Vec<String>,
    cwd: PathBuf,
    parse: F,
    changes_json: G,
    path_text: H,
    patch: Option<ProposedPatchView>,
)
    requires
        proposes(command, cwd, parse, changes_json, path_text, patch),
    ensures
        patch is None ==> finds_changes(command, cwd, parse, None),
        patch is Some ==> exists|changes: Vec<ChangedFile>, json: serde_json::Value, text: String|
            {
                &&& #[trigger] call_ensures(changes_json, (&changes,), json)
                &&& #[trigger] call_ensures(path_text, (&cwd,), text)
                &&& finds_changes(command, cwd, parse, Some(changes.deep_view()))
                &&& patch->0.changes == json_model(json)
                &&& patch->0.cwd == text@
            },
{
}

/// What the editor is to get of a patch for which approval is asked are its own changes, and the
/// directory for which approval is asked, if there is one.
pub proof fn law_mirror_is_the_patch<
    G: Fn(&Vec<ChangedFile>) -> serde_json::Value,
    H: Fn(&PathBuf) -> String,
>(
    changes: Vec<ChangedFile>,
    grant_root: Option<PathBuf>,
    changes_json: G,
    path_text: H,
    patch: PatchMirrorView,
)
    requires
        mirrors(changes, grant_root, changes_json, path_text, patch),
    ensures
        exists|json: serde_json::Value|
            #[trigger] call_ensures(changes_json, (&changes,), json) && patch.changes == json_model(
                json,
            ),
        patch.grant_root is Some <==> grant_root is Some,
        grant_root is Some ==> exists|text: String|
            #[trigger] call_ensures(path_text, (&grant_root->0,), text) && text@
                == patch.grant_root->0,
{
    assert(optional_path_text(grant_root, path_text, patch.grant_root));
}

// ---------------------------------------------------------------------------
// Layout
// ---------------------------------------------------------------------------

/// The entry in progress has as many rows as it wants, unless the pane needs them: then the pane
/// has no row more than it needs, or the entry has none.
pub proof fn law_entry_has_the_rows_it_wants(area: Rect, max: u16, min: u16)
    requires
        area.y + area.height <= u16::MAX,
    ensures
        ({
            let (upper, lower) = stacked(area, max, min);
            &&& upper == (Rect { height: upper.height, ..area })
            &&& lower == (Rect {
                y: (area.y + upper.height) as u16,
                height: (area.height - upper.height) as u16,
                ..area
            })
            &&& upper.height <= max && upper.height <= area.height
            &&& min <= i16::MAX ==> upper.height == max || lower.height == min || upper.height == 0
            &&& min <= i16::MAX ==> lower.height >= min || upper.height == 0
            &&& min > i16::MAX ==> upper.height == max || upper.height == area.height
        }),
{
}

} // verus!
