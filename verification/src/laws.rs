use vstd::prelude::*;
use crate::input::{Effect, Key};
use crate::state::{AppModel, next_index, prev_index};

verus! {

proof fn lemma_reset_keeps_wf(m: AppModel)
    requires
        m.tab_titles.len() > 0,
        m.current_tab < m.tab_titles.len(),
        m.project_sel is None <==> m.projects.len() == 0,
        m.project_sel matches Some(i) ==> (i as int) < m.projects.len(),
        m.table_sel matches Some(i) ==> (i as int) < m.table.len(),
        m.table.len() > 0 ==> m.table_sel is Some,
        m.history.len() == crate::state::HISTORY_LEN,
        forall|i: int| 0 <= i < m.history.len() ==> #[trigger] m.history[i] <= crate::state::SAMPLE_MAX,
    ensures
        m.reset_todo_selection().wf(),
{
}

/// Moving between tabs and along the lists keeps the state consistent.
pub proof fn law_navigation_keeps_wf(m: AppModel)
    requires
        m.wf(),
    ensures
        m.next_tab().wf(),
        m.prev_tab().wf(),
        m.project_next().wf(),
        m.project_prev().wf(),
        m.todo_next().wf(),
        m.todo_prev().wf(),
        m.table_next().wf(),
        m.table_prev().wf(),
{
    if m.projects.len() > 0 {
        let i = crate::state::unwrap_or_zero(m.project_sel);
        let len = m.projects.len() as int;
        lemma_reset_keeps_wf(AppModel { project_sel: Some(crate::state::next_index(i, len)), ..m });
        lemma_reset_keeps_wf(AppModel { project_sel: Some(crate::state::prev_index(i, len)), ..m });
    }
}

/// Adding, deleting and toggling projects and todos keeps the state
/// consistent, as long as the lists fit in memory.
pub proof fn law_edits_keep_wf(m: AppModel, now: i64)
    requires
        m.wf(),
        m.fits(),
    ensures
        m.project_add().wf(),
        m.project_delete().wf(),
        m.todo_toggle().wf(),
        m.todo_delete().wf(),
        m.todo_add(now).wf(),
{
    if m.project_input.len() > 0 {
        let added = m.project_add();
        assert(added.projects[m.projects.len() as int].todos.len() == 0);
    }
    if let Some(i) = m.project_sel {
        if (i as int) < m.projects.len() {
            let rest = m.projects.remove(i as int);
            if rest.len() > 0 {
                lemma_reset_keeps_wf(AppModel {
                    projects: rest,
                    project_sel: Some(crate::state::index_after_removal(i as int, rest.len() as int)),
                    ..m
                });
            }
        }
    }
}

/// Every key press keeps the state consistent: the selections keep pointing
/// into their lists, a project is selected exactly when there are projects,
/// a todo exactly when the selected project has todos.
pub proof fn law_step_keeps_wf(m: AppModel, key: Key, now: i64)
    requires
        m.wf(),
        m.fits(),
    ensures
        m.step(key, now).0.wf(),
{
    law_navigation_keeps_wf(m);
    law_edits_keep_wf(m, now);
    let closed = AppModel { confirm_delete: None, ..m };
    law_edits_keep_wf(closed, now);
}

/// An animation tick keeps the state consistent: the history keeps its 60
/// samples, each at most 100. The oldest sample leaves, the others move one
/// place towards the front, and the new sample, capped at 100, comes last.
pub proof fn law_tick_keeps_wf(m: AppModel, sample: u64)
    requires
        m.wf(),
    ensures
        m.tick(sample).wf(),
        m.tick(sample).history.len() == m.history.len(),
        m.tick(sample).history == m.history.drop_first().push(
            if sample > crate::state::SAMPLE_MAX { crate::state::SAMPLE_MAX } else { sample },
        ),
        forall|i: int| 0 <= i < m.tick(sample).history.len() ==> #[trigger] m.tick(sample).history[i]
            <= crate::state::SAMPLE_MAX,
{
    let value = if sample > crate::state::SAMPLE_MAX { crate::state::SAMPLE_MAX } else { sample };
    assert(m.history.push(value).remove(0) =~= m.history.drop_first().push(value));
}

/// The tab key switches tabs whatever is open: an input, the help or a
/// delete confirmation. Tab moves one tab right, Shift+Tab one tab left,
/// wrapping round; a pending delete is cancelled, as by any key but `y` and
/// Enter, and nothing else changes.
pub proof fn law_tab_always_switches(m: AppModel, shift: bool, now: i64)
    ensures
        m.step(Key::Tab { shift }, now).0.current_tab == (if shift { m.prev_tab() } else { m.next_tab() }).current_tab,
        m.step(Key::Tab { shift }, now).0 == (AppModel {
            current_tab: m.step(Key::Tab { shift }, now).0.current_tab,
            confirm_delete: None,
            ..m
        }),
        m.step(Key::Tab { shift }, now).1 == Effect::Nothing,
{
}

proof fn lemma_mod_round_trip(i: int, len: int)
    requires
        0 <= i < len,
    ensures
        (i + 1) % len == if i + 1 < len { i + 1 } else { 0 },
        ((if i == 0 { len - 1 } else { i - 1 }) + 1) % len == i,
{
    if i + 1 < len {
        vstd::arithmetic::div_mod::lemma_small_mod((i + 1) as nat, len as nat);
    } else {
        vstd::arithmetic::div_mod::lemma_mod_self_0(len);
    }
    let p = if i == 0 { len - 1 } else { i - 1 };
    if p + 1 < len {
        vstd::arithmetic::div_mod::lemma_small_mod((p + 1) as nat, len as nat);
    } else {
        vstd::arithmetic::div_mod::lemma_mod_self_0(len);
    }
}

proof fn lemma_index_round_trip(i: int, len: int)
    requires
        0 <= i < len,
        len <= usize::MAX,
    ensures
        prev_index(next_index(i, len) as int, len) == i,
        next_index(prev_index(i, len) as int, len) == i,
        0 <= next_index(i, len) < len,
        0 <= prev_index(i, len) < len,
{
    lemma_mod_round_trip(i, len);
}

/// Moving one tab to the right and then one to the left, or the other way
/// round, comes back to the same tab; nothing else changes.
pub proof fn law_tabs_round_trip(m: AppModel)
    requires
        m.wf(),
    ensures
        m.next_tab().prev_tab() == m,
        m.prev_tab().next_tab() == m,
{
    lemma_mod_round_trip(m.current_tab as int, m.tab_titles.len() as int);
}

/// Moving the project selection down and then up, or up and then down,
/// selects the same project again and leaves the projects as they were.
pub proof fn law_project_selection_round_trip(m: AppModel)
    requires
        m.wf(),
        m.fits(),
    ensures
        m.project_next().project_prev().project_sel == m.project_sel,
        m.project_prev().project_next().project_sel == m.project_sel,
        m.project_next().project_prev().projects == m.projects,
        m.project_prev().project_next().projects == m.projects,
{
    if let Some(i) = m.project_sel {
        lemma_index_round_trip(i as int, m.projects.len() as int);
    }
}

/// Moving the todo selection down and then up, or up and then down, gives
/// back the same state.
pub proof fn law_todo_selection_round_trip(m: AppModel)
    requires
        m.wf(),
        m.fits(),
    ensures
        m.todo_next().todo_prev() == m,
        m.todo_prev().todo_next() == m,
{
    if let Some(pi) = m.selected_project() {
        if let Some(i) = m.todo_sel {
            lemma_index_round_trip(i as int, m.projects[pi].todos.len() as int);
        }
    }
}

/// Moving the table selection down and then up, or up and then down, gives
/// back the same state.
pub proof fn law_table_selection_round_trip(m: AppModel)
    requires
        m.wf(),
        m.fits(),
    ensures
        m.table_next().table_prev() == m,
        m.table_prev().table_next() == m,
{
    if let Some(i) = m.table_sel {
        lemma_index_round_trip(i as int, m.table.len() as int);
    }
}

/// Toggling the selected todo twice gives back the same state.
pub proof fn law_toggle_twice(m: AppModel)
    requires
        m.wf(),
    ensures
        m.todo_toggle().todo_toggle() == m,
{
    if let Some(i) = m.todo_sel {
        if let Some(pi) = m.selected_project() {
            let todos = m.projects[pi].todos;
            if (i as int) < todos.len() {
                let once = m.todo_toggle();
                assert(once.projects[pi].todos =~= todos.update(
                    i as int,
                    crate::model::TodoModel { done: !todos[i as int].done, ..todos[i as int] },
                ));
                assert(once.todo_toggle().projects[pi].todos =~= todos);
                assert(once.todo_toggle().projects =~= m.projects);
            }
        }
    }
}

/// Adding a project with a non-empty name and then deleting the selected
/// project leaves the projects as they were.
pub proof fn law_project_add_then_delete(m: AppModel)
    requires
        m.wf(),
        m.fits(),
        m.project_input.len() > 0,
    ensures
        m.project_add().project_delete().projects == m.projects,
{
    let added = m.project_add();
    assert(added.projects.remove(m.projects.len() as int) =~= m.projects);
}

/// Adding a todo with a non-empty text to the selected project and then
/// deleting the selected todo leaves the projects as they were.
pub proof fn law_todo_add_then_delete(m: AppModel, now: i64)
    requires
        m.wf(),
        m.fits(),
        m.todo_input.len() > 0,
        m.selected_project() is Some,
    ensures
        m.todo_add(now).todo_delete().projects == m.projects,
{
    let pi = m.selected_project().unwrap();
    let added = m.todo_add(now);
    let todos = m.projects[pi].todos;
    assert(added.projects[pi].todos.remove(todos.len() as int) =~= todos);
    assert(added.todo_delete().projects =~= m.projects);
}

/// Esc while a name or a text is typed drops it and closes the input;
/// the projects stay as they were.
pub proof fn law_escape_cancels_input(m: AppModel, now: i64)
    requires
        m.adding_todo || m.adding_project,
    ensures
        m.step(Key::Esc, now).0.projects == m.projects,
        m.step(Key::Esc, now).1 == Effect::Nothing,
        m.adding_todo ==> !m.step(Key::Esc, now).0.adding_todo && m.step(Key::Esc, now).0.todo_input.len() == 0,
        !m.adding_todo ==> !m.step(Key::Esc, now).0.adding_project && m.step(Key::Esc, now).0.project_input.len() == 0,
{
}

/// While a delete waits for confirmation, any key but `y`, Enter and the tab
/// key cancels it and changes nothing else; the tab key cancels it too, and
/// switches tabs (`law_tab_always_switches`).
pub proof fn law_other_keys_cancel_delete(m: AppModel, key: Key, now: i64)
    requires
        !m.adding_todo,
        !m.adding_project,
        !m.show_help,
        m.confirm_delete is Some,
        key != Key::Char('y'),
        key != Key::Enter,
        !(key is Tab),
    ensures
        m.step(key, now) == ((AppModel { confirm_delete: None, ..m }), Effect::Nothing),
{
}

/// While the help popup is open, no key but the tab key changes anything
/// but the popup.
pub proof fn law_help_changes_nothing_else(m: AppModel, key: Key, now: i64)
    requires
        !m.adding_todo,
        !m.adding_project,
        m.show_help,
        !(key is Tab),
    ensures
        m.step(key, now).0 == (AppModel { show_help: m.step(key, now).0.show_help, ..m }),
        m.step(key, now).1 == Effect::Nothing,
{
}

/// Without a pending confirmation no key removes a project or a todo: the
/// project list and every todo list keep at least their length.
pub proof fn law_no_removal_without_confirmation(m: AppModel, key: Key, now: i64)
    requires
        m.wf(),
        m.confirm_delete is None,
    ensures
        m.step(key, now).0.projects.len() >= m.projects.len(),
        forall|pi: int| 0 <= pi < m.projects.len()
            ==> #[trigger] m.step(key, now).0.projects[pi].todos.len() >= m.projects[pi].todos.len(),
{
}

/// Only two kinds of key reach outside the state: `s` asks to save, and on
/// the gauges tab the gauge keys ask to change the gauges; either only when
/// no input, popup or confirmation is open.
pub proof fn law_effects(m: AppModel, key: Key, now: i64)
    ensures
        m.step(key, now).1 != Effect::Nothing ==> {
            &&& !m.adding_todo && !m.adding_project && !m.show_help && m.confirm_delete is None
            &&& (key == Key::Char('s') <==> m.step(key, now).1 == Effect::Save)
            &&& key != Key::Char('s') ==> m.current_tab == 2
        },
{
}

} // verus!
