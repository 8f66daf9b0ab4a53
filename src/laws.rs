use vstd::prelude::*;

use crate::action::{Action, Mode};
use crate::input::{spec_normal_key, InputEvent, KeyCode};
use crate::model::EditorModel;

verus! {

/// The state after applying `acts` in turn, each as `EditorModel::apply` says
/// (which is what `Editor::execute` does for every action but `Undo` and
/// `DeleteCurrentLine`).
pub open spec fn run(s: EditorModel, acts: Seq<Action>) -> EditorModel
    decreases acts.len(),
{
    if acts.len() == 0 {
        s
    } else {
        run(s.apply(acts[0]), acts.drop_first())
    }
}

/// Cursor moves leave the text and the screen size alone.
pub proof fn lemma_moves_keep_text(s: EditorModel, acts: Seq<Action>)
    requires
        forall|i: int|
            0 <= i < acts.len() ==> (#[trigger] acts[i] == Action::MoveUp || acts[i] == Action::MoveDown
                || acts[i] == Action::MoveLeft || acts[i] == Action::MoveRight),
    ensures
        run(s, acts).lines == s.lines,
        run(s, acts).width == s.width,
        run(s, acts).height == s.height,
    decreases acts.len(),
{
    if acts.len() > 0 {
        let rest = acts.drop_first();
        assert forall|i: int| 0 <= i < rest.len() implies (#[trigger] rest[i] == Action::MoveUp
            || rest[i] == Action::MoveDown || rest[i] == Action::MoveLeft || rest[i]
            == Action::MoveRight) by {
            assert(rest[i] == acts[i + 1]);
        }
        assert(acts[0] == Action::MoveUp || acts[0] == Action::MoveDown || acts[0] == Action::MoveLeft
            || acts[0] == Action::MoveRight);
        lemma_moves_keep_text(s.apply(acts[0]), rest);
    }
}

/// After the bounds pass the cursor stands on a line of the buffer (on row 0
/// of an empty buffer), and its column is 0 or inside both that line and the
/// screen.
pub proof fn lemma_bounds_keep_cursor_in_text(s: EditorModel)
    requires
        s.wf(),
    ensures
        s.bounds().lines == s.lines,
        s.lines.len() > 0 ==> s.bounds().vtop + s.bounds().cy < s.lines.len(),
        s.lines.len() == 0 ==> s.bounds().vtop + s.bounds().cy == 0,
        s.bounds().cx == 0 || (s.bounds().has_line() && s.bounds().cx < s.bounds().lines[s.bounds().row()].len()
            && s.bounds().cx < s.width),
{
}

/// Whatever sequence of vertical moves precedes it, the bounds pass leaves the
/// cursor's absolute row in `[0, line count - 1]` (row 0 for an empty buffer).
pub proof fn lemma_vertical_moves_then_bounds(s: EditorModel, moves: Seq<Action>)
    requires
        s.wf(),
        forall|i: int|
            0 <= i < moves.len() ==> (#[trigger] moves[i] == Action::MoveUp || moves[i] == Action::MoveDown),
    ensures
        s.lines.len() > 0 ==> run(s, moves).bounds().vtop + run(s, moves).bounds().cy < s.lines.len(),
        s.lines.len() == 0 ==> run(s, moves).bounds().vtop + run(s, moves).bounds().cy == 0,
{
    lemma_moves_keep_text(s, moves);
    lemma_bounds_keep_cursor_in_text(run(s, moves));
}

/// Whatever sequence of horizontal moves precedes it, the bounds pass leaves the
/// cursor column at 0 or below both the current line's length and the screen
/// width.
pub proof fn lemma_horizontal_moves_then_bounds(s: EditorModel, moves: Seq<Action>)
    requires
        s.wf(),
        forall|i: int|
            0 <= i < moves.len() ==> (#[trigger] moves[i] == Action::MoveLeft || moves[i] == Action::MoveRight),
    ensures
        ({
            let t = run(s, moves).bounds();
            t.cx == 0 || (t.has_line() && t.cx < t.lines[t.row()].len() && t.cx < s.width)
        }),
{
    lemma_moves_keep_text(s, moves);
    lemma_bounds_keep_cursor_in_text(run(s, moves));
}

/// Deleting the cursor's line and undoing at once gives back the same text,
/// with the cursor on the deleted line's row and the undo stack as it was. This
/// holds unless the deleted line was the last one: the inverse only inserts
/// before an existing line.
pub proof fn lemma_undo_restores_deleted_line(s: EditorModel, t: EditorModel, u: EditorModel)
    requires
        s.wf(),
        s.row() + 1 < s.lines.len(),
        s.next(Action::DeleteCurrentLine, t),
        t.next(Action::Undo, u),
    ensures
        u.lines == s.lines,
        u.lines.len() == s.lines.len(),
        u.vtop + u.cy == s.row(),
        u.undo == s.undo,
{
    reveal_with_fuel(EditorModel::next, 2);
    let row = s.row();
    let popped = EditorModel { undo: t.undo.drop_last(), ..t };
    assert(popped.undo =~= s.undo);
    let e = t.undo.last();
    assert(s.is_delete_inverse(e));
    assert(t.lines == s.lines.remove(row));
    assert(u == popped.apply(e));
    assert(s.lines.remove(row).insert(row, s.lines[row]) =~= s.lines);
}

/// After the leader `d`, any event other than a `d` key produces no action and
/// clears the leader, so the next key is read by the plain navigation keymap.
pub proof fn lemma_unmatched_delete_leader(s: EditorModel, ev: InputEvent, next_ev: InputEvent)
    requires
        s.mode == Mode::Normal,
        s.waiting == Some('d'),
        !(ev matches InputEvent::Key(k) && k.code == KeyCode::Char('d')),
    ensures
        s.on_event(ev).1.is_none(),
        s.on_event(ev).0.waiting.is_none(),
        s.on_event(ev).0.on_event(next_ev).1 == match next_ev {
            InputEvent::Key(k) => spec_normal_key(k),
            _ => None,
        },
{
}

/// Page down moves the viewport by exactly its height when lines remain below
/// it, and changes nothing otherwise.
pub proof fn lemma_page_down(s: EditorModel, t: EditorModel)
    requires
        s.wf(),
        s.lines.len() <= usize::MAX,
        s.next(Action::PageDown, t),
    ensures
        s.lines.len() <= s.vtop + s.vheight() ==> t == s,
        s.lines.len() > s.vtop + s.vheight() ==> t.vtop == s.vtop + s.vheight() && t == (EditorModel {
            vtop: t.vtop,
            ..s
        }),
{
}

/// Re-centering never scrolls past the top: with the cursor above the middle
/// row the offset either stays or drops by the distance, floored at 0; with the
/// cursor at or below it the offset never decreases. The text is unchanged.
pub proof fn lemma_recenter_floor(s: EditorModel, t: EditorModel)
    requires
        s.wf(),
        s.next(Action::MoveLineToViewportCenter, t),
    ensures
        t.lines == s.lines,
        s.cy < s.vheight() / 2 ==> t.vtop == s.vtop || t.vtop == (if s.vtop >= s.vheight() / 2 - s.cy {
            s.vtop - (s.vheight() / 2 - s.cy)
        } else {
            0
        }),
        s.cy >= s.vheight() / 2 ==> t.vtop >= s.vtop,
{
}

} // verus!
