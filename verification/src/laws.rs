//! Properties of the views that hold across keys and calls.
use vstd::prelude::*;

use crate::app::{ActiveView, next_view};
use crate::keys::{Key, last_index, select_down, select_up};
use crate::panel::{Body, Panel};
use crate::text::{first_index_of, trim, views};
use crate::tui_module::branch_view::{BranchActionModel, BranchViewModel, InputMode};
use crate::tui_module::commit_view::{CommitViewModel, InputMode as CommitMode};
use crate::tui_module::log_view::{LogView, clamp_selection, row_text};
use crate::tui_module::status_view::{StatusEntry, status_code, status_row, status_rows};
use crate::tui_module::views::status_view::{InputMode as StagingMode, StatusViewModel};

verus! {

/// `Tab` cycles through the five views: five presses come back to the view
/// where they started, and fewer never do.
pub proof fn tab_cycles_through_all_views(v: ActiveView)
    ensures
        next_view(next_view(next_view(next_view(next_view(v))))) == v,
        next_view(v) != v,
        next_view(next_view(v)) != v,
        next_view(next_view(next_view(v))) != v,
        next_view(next_view(next_view(next_view(v)))) != v,
{
}

/// `Up` and `Down` keep a selection that points into a list inside it.
pub proof fn navigation_keeps_selection_in_list(selected: int, n: int)
    requires
        0 <= selected < n,
    ensures
        0 <= select_down(selected, n) < n,
        0 <= select_up(selected) < n,
{
}

/// `Up` undoes `Down`, except on the last row, where `Down` does nothing.
pub proof fn up_undoes_down(selected: int, n: int)
    requires
        0 <= selected,
    ensures
        selected < n - 1 ==> select_up(select_down(selected, n)) == selected,
        selected >= last_index(n) ==> select_down(selected, n) == selected,
{
}

/// After the log is replaced by a non-empty list, the selection points into it.
pub proof fn log_update_keeps_selection_in_list(selected: int, n: int)
    requires
        0 <= selected,
        n > 0,
    ensures
        0 <= clamp_selection(selected, n) < n,
        selected < n ==> clamp_selection(selected, n) == selected,
{
}

/// At a branch name prompt, `Backspace` takes back the character just typed.
pub proof fn branch_backspace_undoes_typing(m: BranchViewModel, c: char)
    requires
        m.input_mode != InputMode::Normal,
    ensures
        ({
            let typed = m.on_key(Key::Char(c));
            &&& typed.1 == Seq::<Seq<char>>::empty()
            &&& typed.2 == BranchActionModel::Nothing
            &&& typed.0.on_key(Key::Backspace).0 == m
        }),
{
    assert(m.input.push(c).drop_last() =~= m.input);
}

/// At the commit message prompt, `Backspace` takes back the character just typed.
pub proof fn commit_backspace_undoes_typing(m: CommitViewModel, c: char)
    requires
        m.input_mode == CommitMode::WritingCommit,
    ensures
        m.on_key(Key::Char(c)).0.on_key(Key::Backspace).0 == m,
        m.on_key(Key::Char(c)).2 is None,
{
    assert(m.commit_message.push(c).drop_last() =~= m.commit_message);
}

/// A branch name of white space only runs no Git operation: `Enter` says
/// that the name cannot be empty and returns to the list.
pub proof fn blank_branch_name_runs_nothing(m: BranchViewModel)
    requires
        m.input_mode != InputMode::Normal,
        trim(m.input).len() == 0,
    ensures
        m.on_key(Key::Enter).2 == BranchActionModel::Nothing,
        m.on_key(Key::Enter).1 == seq!["Branch name cannot be empty."@],
        m.on_key(Key::Enter).0.input_mode == InputMode::Normal,
{
}

/// A commit message of white space only makes no commit: `Enter` says that
/// the message cannot be empty and keeps the prompt and its text.
pub proof fn blank_commit_message_commits_nothing(m: CommitViewModel)
    requires
        m.input_mode == CommitMode::WritingCommit,
        trim(m.commit_message).len() == 0,
    ensures
        m.on_key(Key::Enter).2 is None,
        m.on_key(Key::Enter).0 == m,
        m.on_key(Key::Enter).1 == seq!["Commit message cannot be empty."@],
{
}

/// `Esc` at a prompt always returns to the list with an empty input and
/// runs nothing.
pub proof fn escape_cancels_prompt(b: BranchViewModel, c: CommitViewModel)
    ensures
        b.input_mode != InputMode::Normal ==> b.on_key(Key::Esc).0.input_mode == InputMode::Normal
            && b.on_key(Key::Esc).0.input.len() == 0 && b.on_key(Key::Esc).2
            == BranchActionModel::Nothing,
        c.input_mode == CommitMode::WritingCommit ==> c.on_key(Key::Esc).0.input_mode
            == CommitMode::Normal && c.on_key(Key::Esc).0.commit_message.len() == 0 && c.on_key(
            Key::Esc,
        ).2 is None,
{
}


/// `Enter` on the commit log looks up the commit of the row that the list
/// highlights: with the list shown and the selection on one of its rows, the
/// id looked up is the id of the commit whose row the panel highlights (the
/// text that row begins with), and the view and the messages stay as they are.
pub proof fn log_enter_looks_up_highlighted_row(v: LogView, p: Panel)
    requires
        v.detailed_commit is None,
        v.shows(p),
        v.selected < v.items.len(),
    ensures
        (p.body matches Body::Rows { rows, highlighted } && (highlighted matches Some(h) && h
            < rows.len() && rows@[h as int]@ == row_text(v@.items[h as int])
            && rows@[h as int]@.take(v@.items[h as int].id.len() as int) == v@.items[h as int].id
            && v@.on_key(Key::Enter).2 == Some(Some(v@.items[h as int].id)))),
        v@.on_key(Key::Enter).0 == v@,
        v@.on_key(Key::Enter).1.len() == 0,
{
    if let Body::Rows { rows, highlighted } = p.body {
        let h = v.selected as int;
        assert(views(rows@).len() == rows@.len());
        assert(v@.items.len() == v.items@.len());
        assert(h < rows@.len());
        assert(rows@[h]@ == views(rows@)[h]);
        let id = v@.items[h].id;
        assert(row_text(v@.items[h]).take(id.len() as int) =~= id);
    }
}

/// The first space of a status code followed by a space is the one after the code.
proof fn lemma_space_after_code(code: Seq<char>, rest: Seq<char>)
    requires
        !code.contains(' '),
    ensures
        first_index_of(code + " "@ + rest, ' ') == Some(code.len() as int),
    decreases code.len(),
{
    reveal_strlit(" ");
    let s = code + " "@ + rest;
    if code.len() == 0 {
        assert(s[0] == ' ');
    } else {
        assert(s[0] == code[0]);
        assert(code[0] != ' ') by {
            if code[0] == ' ' {
                assert(code.contains(' '));
            }
        }
        assert(!code.drop_first().contains(' ')) by {
            if code.drop_first().contains(' ') {
                let i = choose|i: int| 0 <= i < code.drop_first().len() && code.drop_first()[i] == ' ';
                assert(code[i + 1] == ' ');
            }
        }
        lemma_space_after_code(code.drop_first(), rest);
        assert(s.drop_first() =~= code.drop_first() + " "@ + rest);
    }
}

/// Staging names the file of the selected row: where the rows are those of
/// a status listing and the selected row is that of a file with a path and a
/// status code without spaces (A, M, D or ??), `Enter` in the staging mode
/// stages exactly that path, returns to the list and adds no message.
pub proof fn staging_stages_selected_path(m: StatusViewModel, entries: Seq<StatusEntry>)
    requires
        m.input_mode == StagingMode::AddingFiles,
        m.items == status_rows(entries),
        0 <= m.selected < entries.len(),
        entries[m.selected].path is Some,
        !status_code(entries[m.selected].status).contains(' '),
    ensures
        (entries[m.selected].path matches Some(path) && m.on_key(Key::Enter).2 == Some(path@)),
        m.on_key(Key::Enter).0.input_mode == StagingMode::Normal,
        m.on_key(Key::Enter).0.items == m.items,
        m.on_key(Key::Enter).1.len() == 0,
{
    reveal_strlit(" ");
    let e = entries[m.selected];
    if let Some(path) = e.path {
        assert(m.items[m.selected] == status_row(e));
        lemma_space_after_code(status_code(e.status), path@);
        let row = status_row(e);
        let n = status_code(e.status).len() as int;
        assert(row.subrange(n + 1, row.len() as int) =~= path@);
    }
}

} // verus!
