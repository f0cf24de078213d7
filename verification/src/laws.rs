//! Laws of the editor, proved of the model that the executable editor is
//! specified against.

use vstd::prelude::*;
use crate::keys::Action;
use crate::model::{capacity, lemma_apply_wf, lemma_initial_wf, EditorState};
use crate::scan::{
    count_newlines, lemma_count_take_monotone, lemma_line_start, lemma_next_line,
    lemma_next_newline, lemma_within_line, line_start, newline_free, next_newline,
};

verus! {

/// In a consistent state the cursor's line is one of the text's lines, its
/// column lies within that line and is the distance from the line's start,
/// and no newline stands between the line's start and the cursor.
pub proof fn law_cursor_within_its_line(s: EditorState)
    requires
        s.wf(),
    ensures
        0 <= s.line < s.total_lines,
        0 <= s.column <= s.line_len(),
        s.ins - s.column == line_start(s.text, s.ins),
        newline_free(s.text, s.ins - s.column, s.ins),
{
    lemma_line_start(s.text, s.ins);
    lemma_next_newline(s.text, s.ins);
    lemma_count_take_monotone(s.text, s.ins, s.ins);
}

/// A consistent state stays consistent under any sequence of actions.
pub proof fn law_actions_keep_consistency(s: EditorState, actions: Seq<Action>)
    requires
        s.wf(),
    ensures
        s.apply_all(actions).wf(),
    decreases actions.len(),
{
    if actions.len() > 0 {
        law_actions_keep_consistency(s, actions.drop_last());
        lemma_apply_wf(s.apply_all(actions.drop_last()), actions.last());
    }
}

/// Whatever actions are applied to a fresh editor, insertions and deletions
/// among them, the number of lines it reports is the number of newlines in
/// its text plus one.
pub proof fn law_total_lines_counts_newlines(actions: Seq<Action>)
    ensures
        ({
            let s = EditorState::initial().apply_all(actions);
            s.total_lines == count_newlines(s.text) + 1
        }),
{
    lemma_initial_wf();
    law_actions_keep_consistency(EditorState::initial(), actions);
}

/// Inserting a character and deleting it at once gives back the state from
/// before: the same text, and the same cursor offset, line and column. The
/// text must have room for the character.
pub proof fn law_insert_then_delete(s: EditorState, c: char)
    requires
        s.wf(),
        s.text.len() < capacity(),
    ensures
        s.insert(c).delete().text == s.text,
        s.insert(c).delete().ins == s.ins,
        s.insert(c).delete().line == s.line,
        s.insert(c).delete().column == s.column,
        s.insert(c).delete().total_lines == s.total_lines,
        s.insert(c).delete() == s,
        s.edit(Action::Insert(c)).edit(Action::Delete) == s,
{
    let inserted = s.insert(c);
    assert(s.text.insert(s.ins, c).remove(s.ins) =~= s.text);
    assert(inserted.text[s.ins] == c);
    lemma_line_start(s.text, s.ins);
}

/// A text at its capacity takes no character: there an insertion changes
/// nothing.
pub proof fn law_insert_at_capacity(s: EditorState, c: char)
    requires
        s.wf(),
        s.text.len() >= capacity(),
    ensures
        s.insert(c) == s,
        s.edit(Action::Insert(c)) == s,
{
}

/// The cursor does not leave the text: moving up on the first line and
/// moving down on the last change nothing at all.
pub proof fn law_moves_stop_at_the_ends(s: EditorState)
    requires
        s.wf(),
    ensures
        s.line == 0 ==> s.cursor_up() == s && s.edit(Action::CursorUp) == s,
        s.line == s.total_lines - 1 ==> s.cursor_down() == s && s.edit(Action::CursorDown) == s,
{
}

/// Length of the line below the cursor's, where there is one.
pub open spec fn line_below_len(s: EditorState) -> int {
    let start = next_newline(s.text, s.ins) + 1;
    next_newline(s.text, start) - start
}

/// Moving down and then up again leaves the cursor where it was, at the same
/// offset and column, if there is a line below and it is long enough to hold
/// the cursor's column.
pub proof fn law_down_then_up(s: EditorState)
    requires
        s.wf(),
        s.line + 1 < s.total_lines,
        s.column <= line_below_len(s),
    ensures
        s.cursor_down().cursor_up().ins == s.ins,
        s.cursor_down().cursor_up().column == s.column,
        s.cursor_down().cursor_up().line == s.line,
        s.cursor_down().cursor_up().text == s.text,
        s.cursor_down().cursor_up().total_lines == s.total_lines,
        s.edit(Action::CursorDown).edit(Action::CursorUp).ins == s.ins,
        s.edit(Action::CursorDown).edit(Action::CursorUp).column == s.column,
{
    let t = s.text;
    let d = s.cursor_down();
    lemma_line_start(t, s.ins);
    lemma_next_line(t, s.ins);
    let start = next_newline(t, s.ins) + 1;
    lemma_next_newline(t, start);
    lemma_within_line(t, start, d.ins);
    assert(line_start(t, d.ins) == start);
    assert(line_start(t, start - 1) == line_start(t, s.ins));
}

} // verus!
