use vstd::prelude::*;
use crate::input::{DeleteTarget, Effect, Key, TodoFocus};
use crate::model::{ProjectModel, TodoModel};
use crate::state::{AppModel, initial_model};

verus! {

/// No text input, help popup or delete confirmation is open: keys go to the
/// global bindings and then to the current tab.
pub open spec fn at_rest(m: AppModel) -> bool {
    !m.adding_todo && !m.adding_project && !m.show_help && m.confirm_delete is None
}

/// The todo selection that goes with project `j`: its first todo, or none
/// where it has no todos.
pub open spec fn first_todo_of(m: AppModel, j: int) -> Option<usize> {
    if m.projects[j].todos.len() == 0 { None } else { Some(0usize) }
}

/// Confirming the deletion of a project removes the selected project and
/// only it, keeping the others in order; the selection stays on the same
/// place, or on the new last project, or goes where none is left.
pub proof fn law_confirmed_project_delete(m: AppModel, key: Key, now: i64, target: usize, i: usize)
    requires
        !m.adding_todo,
        !m.adding_project,
        !m.show_help,
        m.confirm_delete == Some(DeleteTarget::Project(target)),
        key == Key::Char('y') || key == Key::Enter,
        m.project_sel == Some(i),
        (i as int) < m.projects.len(),
    ensures
        m.step(key, now).0.projects == m.projects.remove(i as int),
        m.step(key, now).0.confirm_delete is None,
        m.projects.len() == 1 ==> m.step(key, now).0.project_sel is None,
        m.projects.len() > 1 && (i as int) < m.projects.len() - 1 ==> m.step(key, now).0.project_sel == Some(i),
        m.projects.len() > 1 && (i as int) == m.projects.len() - 1 ==> m.step(key, now).0.project_sel == Some(
            (i - 1) as usize,
        ),
        m.projects.len() == 1 ==> m.step(key, now).0.todo_sel is None,
        m.projects.len() > 1 && (i as int) < m.projects.len() - 1 ==> m.step(key, now).0.todo_sel
            == first_todo_of(m, i + 1),
        m.projects.len() > 1 && (i as int) == m.projects.len() - 1 ==> m.step(key, now).0.todo_sel
            == first_todo_of(m, i - 1),
        m.step(key, now).1 == Effect::Nothing,
{
}

/// Confirming the deletion of a todo removes the selected todo of the
/// selected project and only it; every other todo and project stays, in order.
pub proof fn law_confirmed_todo_delete(m: AppModel, key: Key, now: i64, p: usize, t: usize, i: usize, pi: usize)
    requires
        !m.adding_todo,
        !m.adding_project,
        !m.show_help,
        m.confirm_delete == Some(DeleteTarget::Todo { project_idx: p, todo_idx: t }),
        key == Key::Char('y') || key == Key::Enter,
        m.project_sel == Some(pi),
        (pi as int) < m.projects.len(),
        m.todo_sel == Some(i),
        (i as int) < m.projects[pi as int].todos.len(),
    ensures
        m.step(key, now).0.projects.len() == m.projects.len(),
        m.step(key, now).0.projects[pi as int].name == m.projects[pi as int].name,
        m.step(key, now).0.projects[pi as int].todos == m.projects[pi as int].todos.remove(i as int),
        forall|j: int| 0 <= j < m.projects.len() && j != pi ==> #[trigger] m.step(key, now).0.projects[j]
            == m.projects[j],
        m.step(key, now).0.confirm_delete is None,
{
}

/// While a todo is typed: a character goes to the end of the input, and
/// Backspace takes the last character off a non-empty input; nothing else
/// changes. Typing a character and then Backspace gives back the state.
pub proof fn law_typing_a_todo(m: AppModel, c: char, now: i64)
    requires
        m.adding_todo,
    ensures
        m.step(Key::Char(c), now).0 == (AppModel { todo_input: m.todo_input.push(c), ..m }),
        m.todo_input.len() > 0 ==> m.step(Key::Backspace, now).0 == (AppModel {
            todo_input: m.todo_input.drop_last(),
            ..m
        }),
        m.todo_input.len() == 0 ==> m.step(Key::Backspace, now).0 == m,
        m.step(Key::Char(c), now).0.step(Key::Backspace, now).0 == m,
{
    assert(m.todo_input.push(c).drop_last() =~= m.todo_input);
}

/// While a project name is typed: a character goes to the end of the
/// input, and Backspace takes the last character off a non-empty input;
/// nothing else changes. Typing a character and then Backspace gives back
/// the state.
pub proof fn law_typing_a_project(m: AppModel, c: char, now: i64)
    requires
        !m.adding_todo,
        m.adding_project,
    ensures
        m.step(Key::Char(c), now).0 == (AppModel { project_input: m.project_input.push(c), ..m }),
        m.project_input.len() > 0 ==> m.step(Key::Backspace, now).0 == (AppModel {
            project_input: m.project_input.drop_last(),
            ..m
        }),
        m.project_input.len() == 0 ==> m.step(Key::Backspace, now).0 == m,
        m.step(Key::Char(c), now).0.step(Key::Backspace, now).0 == m,
{
    assert(m.project_input.push(c).drop_last() =~= m.project_input);
}

/// Enter on a typed todo appends it, open and dated `now`, to the selected
/// project, selects it and closes the input; every other project stays.
pub proof fn law_enter_adds_todo(m: AppModel, now: i64, pi: usize)
    requires
        m.fits(),
        m.adding_todo,
        m.todo_input.len() > 0,
        m.project_sel == Some(pi),
        (pi as int) < m.projects.len(),
    ensures
        m.step(Key::Enter, now).0.projects == m.projects.update(
            pi as int,
            ProjectModel {
                name: m.projects[pi as int].name,
                todos: m.projects[pi as int].todos.push(
                    TodoModel { text: m.todo_input, done: false, created_at: now as int },
                ),
            },
        ),
        m.step(Key::Enter, now).0.todo_sel == Some(m.projects[pi as int].todos.len() as usize),
        !m.step(Key::Enter, now).0.adding_todo,
        m.step(Key::Enter, now).0.todo_input.len() == 0,
{
}

/// Enter on a typed project name appends an empty project of that name,
/// selects it and closes the input; the other projects stay.
pub proof fn law_enter_adds_project(m: AppModel, now: i64)
    requires
        m.fits(),
        !m.adding_todo,
        m.adding_project,
        m.project_input.len() > 0,
    ensures
        m.step(Key::Enter, now).0.projects == m.projects.push(ProjectModel { name: m.project_input, todos: seq![] }),
        m.step(Key::Enter, now).0.project_sel == Some(m.projects.len() as usize),
        m.step(Key::Enter, now).0.todo_sel is None,
        !m.step(Key::Enter, now).0.adding_project,
        m.step(Key::Enter, now).0.project_input.len() == 0,
{
}

/// On the todo tab the arrows, Enter and Delete act as their letter
/// bindings: Left as `h`, Right as `l`, Down as `j`, Up as `k`, Enter as
/// Space and Delete as `d`. Left, and `h`, put the focus on the projects;
/// Right, and `l`, on the todos where there are projects.
pub proof fn law_todo_tab_keys(m: AppModel, now: i64)
    requires
        at_rest(m),
        m.current_tab == 0,
    ensures
        m.step(Key::Left, now) == m.step(Key::Char('h'), now),
        m.step(Key::Right, now) == m.step(Key::Char('l'), now),
        m.step(Key::Down, now) == m.step(Key::Char('j'), now),
        m.step(Key::Up, now) == m.step(Key::Char('k'), now),
        m.step(Key::Enter, now) == m.step(Key::Char(' '), now),
        m.step(Key::Delete, now) == m.step(Key::Char('d'), now),
        m.step(Key::Left, now).0 == (AppModel { focus: TodoFocus::Projects, ..m }),
        m.projects.len() > 0 ==> m.step(Key::Right, now).0 == (AppModel { focus: TodoFocus::Todos, ..m }),
        m.projects.len() == 0 ==> m.step(Key::Right, now).0 == m,
{
}

/// On the table tab Down acts as `j` and Up as `k`.
pub proof fn law_table_tab_keys(m: AppModel, now: i64)
    requires
        at_rest(m),
        m.current_tab == 1,
    ensures
        m.step(Key::Down, now) == m.step(Key::Char('j'), now),
        m.step(Key::Up, now) == m.step(Key::Char('k'), now),
{
}

/// With the focus on the projects, Down selects the next project, from the
/// last back to the first, and Up the previous one, from the first to the
/// last, each with its first todo selected; the projects stay as they are.
pub proof fn law_project_selection_moves(m: AppModel, now: i64, i: usize)
    requires
        m.wf(),
        m.fits(),
        at_rest(m),
        m.current_tab == 0,
        m.focus == TodoFocus::Projects,
        m.project_sel == Some(i),
    ensures
        m.step(Key::Down, now).0.project_sel == Some(
            (if i + 1 == m.projects.len() { 0 } else { i + 1 }) as usize,
        ),
        m.step(Key::Up, now).0.project_sel == Some(
            (if i == 0 { m.projects.len() - 1 } else { i - 1 }) as usize,
        ),
        m.step(Key::Down, now).0.todo_sel == first_todo_of(
            m,
            if i + 1 == m.projects.len() { 0 } else { i + 1 },
        ),
        m.step(Key::Up, now).0.todo_sel == first_todo_of(
            m,
            if i == 0 { m.projects.len() - 1 } else { i - 1 },
        ),
        m.step(Key::Down, now).0.projects == m.projects,
        m.step(Key::Up, now).0.projects == m.projects,
{
    if i + 1 < m.projects.len() {
        vstd::arithmetic::div_mod::lemma_small_mod((i + 1) as nat, m.projects.len());
    } else {
        vstd::arithmetic::div_mod::lemma_mod_self_0(m.projects.len() as int);
    }
}

/// With the focus on the todos, Down selects the next todo of the selected
/// project, from the last back to the first, and Up the previous one; the
/// projects stay as they are.
pub proof fn law_todo_selection_moves(m: AppModel, now: i64, pi: usize, i: usize)
    requires
        m.wf(),
        m.fits(),
        at_rest(m),
        m.current_tab == 0,
        m.focus == TodoFocus::Todos,
        m.project_sel == Some(pi),
        m.todo_sel == Some(i),
    ensures
        m.step(Key::Down, now).0.todo_sel == Some(
            (if i + 1 == m.projects[pi as int].todos.len() { 0 } else { i + 1 }) as usize,
        ),
        m.step(Key::Up, now).0.todo_sel == Some(
            (if i == 0 { m.projects[pi as int].todos.len() - 1 } else { i - 1 }) as usize,
        ),
        m.step(Key::Down, now).0.projects == m.projects,
        m.step(Key::Up, now).0.projects == m.projects,
{
    let len = m.projects[pi as int].todos.len();
    if i + 1 < len {
        vstd::arithmetic::div_mod::lemma_small_mod((i + 1) as nat, len);
    } else {
        vstd::arithmetic::div_mod::lemma_mod_self_0(len as int);
    }
}

/// On the table tab, Down selects the next row, from the last back to the
/// first, and Up the previous one.
pub proof fn law_table_selection_moves(m: AppModel, now: i64, i: usize)
    requires
        m.wf(),
        m.fits(),
        at_rest(m),
        m.current_tab == 1,
        m.table_sel == Some(i),
    ensures
        m.step(Key::Down, now).0 == (AppModel {
            table_sel: Some((if i + 1 == m.table.len() { 0 } else { i + 1 }) as usize),
            ..m
        }),
        m.step(Key::Up, now).0 == (AppModel {
            table_sel: Some((if i == 0 { m.table.len() - 1 } else { i - 1 }) as usize),
            ..m
        }),
{
    let len = m.table.len();
    if i + 1 < len {
        vstd::arithmetic::div_mod::lemma_small_mod((i + 1) as nat, len);
    } else {
        vstd::arithmetic::div_mod::lemma_mod_self_0(len as int);
    }
}

/// Tab selects the next tab, from the last back to the first, and
/// Shift+Tab the previous one, from the first to the last.
pub proof fn law_tab_moves(m: AppModel, now: i64)
    requires
        m.wf(),
    ensures
        m.step(Key::Tab { shift: false }, now).0.current_tab == if m.current_tab + 1 == m.tab_titles.len() {
            0
        } else {
            m.current_tab + 1
        },
        m.step(Key::Tab { shift: true }, now).0.current_tab == if m.current_tab == 0 {
            m.tab_titles.len() - 1
        } else {
            m.current_tab - 1
        },
        m.step(Key::Tab { shift: false }, now).0.projects == m.projects,
        m.step(Key::Tab { shift: true }, now).0.projects == m.projects,
{
    let len = m.tab_titles.len();
    if m.current_tab + 1 < len {
        vstd::arithmetic::div_mod::lemma_small_mod((m.current_tab + 1) as nat, len);
    } else {
        vstd::arithmetic::div_mod::lemma_mod_self_0(len as int);
    }
}

/// With the focus on the todos, Enter or Space flips whether the selected
/// todo is done, and changes nothing else.
pub proof fn law_toggle_flips_selected(m: AppModel, now: i64, pi: usize, i: usize)
    requires
        at_rest(m),
        m.current_tab == 0,
        m.focus == TodoFocus::Todos,
        m.project_sel == Some(pi),
        (pi as int) < m.projects.len(),
        m.todo_sel == Some(i),
        (i as int) < m.projects[pi as int].todos.len(),
    ensures
        m.step(Key::Enter, now).0 == (AppModel {
            projects: m.projects.update(
                pi as int,
                ProjectModel {
                    name: m.projects[pi as int].name,
                    todos: m.projects[pi as int].todos.update(
                        i as int,
                        TodoModel {
                            text: m.projects[pi as int].todos[i as int].text,
                            done: !m.projects[pi as int].todos[i as int].done,
                            created_at: m.projects[pi as int].todos[i as int].created_at,
                        },
                    ),
                },
            ),
            ..m
        }),
{
}

/// The global keys: `q` and Esc ask to quit, `s` asks to save, `?` opens
/// the help; none of them changes anything else.
pub proof fn law_global_keys(m: AppModel, now: i64)
    requires
        at_rest(m),
    ensures
        m.step(Key::Char('q'), now) == ((AppModel { should_quit: true, ..m }), Effect::Nothing),
        m.step(Key::Esc, now) == ((AppModel { should_quit: true, ..m }), Effect::Nothing),
        m.step(Key::Char('s'), now) == (m, Effect::Save),
        m.step(Key::Char('?'), now) == ((AppModel { show_help: true, ..m }), Effect::Nothing),
{
}

/// With the help open, Esc, `q` and `?` close it and change nothing else.
pub proof fn law_help_closes(m: AppModel, now: i64)
    requires
        !m.adding_todo,
        !m.adding_project,
        m.show_help,
    ensures
        m.step(Key::Esc, now) == ((AppModel { show_help: false, ..m }), Effect::Nothing),
        m.step(Key::Char('q'), now) == ((AppModel { show_help: false, ..m }), Effect::Nothing),
        m.step(Key::Char('?'), now) == ((AppModel { show_help: false, ..m }), Effect::Nothing),
{
}

/// On the todo tab, `d` asks to confirm the deletion of the selected
/// project or todo, without deleting anything yet; `a` opens an empty input
/// for a project, or for a todo where there are projects.
pub proof fn law_todo_tab_requests(m: AppModel, now: i64)
    requires
        at_rest(m),
        m.current_tab == 0,
    ensures
        m.step(Key::Char('d'), now).0.projects == m.projects,
        m.focus == TodoFocus::Projects && m.project_sel is Some && (m.project_sel.unwrap() as int) < m.projects.len()
            ==> m.step(Key::Char('d'), now).0 == (AppModel {
            confirm_delete: Some(DeleteTarget::Project(m.project_sel.unwrap())),
            ..m
        }),
        m.focus == TodoFocus::Projects ==> m.step(Key::Char('a'), now).0 == (AppModel {
            adding_project: true,
            project_input: seq![],
            ..m
        }),
        m.focus == TodoFocus::Todos && m.projects.len() > 0 ==> m.step(Key::Char('a'), now).0 == (AppModel {
            adding_todo: true,
            todo_input: seq![],
            ..m
        }),
{
}

/// On the gauges tab, `+` and `=` ask to raise the usage gauges, `-` to
/// lower them and `r` to restart the download; the state stays as it is.
pub proof fn law_gauge_tab_keys(m: AppModel, now: i64)
    requires
        at_rest(m),
        m.current_tab == 2,
    ensures
        m.step(Key::Char('+'), now) == (m, Effect::RaiseUsage),
        m.step(Key::Char('='), now) == (m, Effect::RaiseUsage),
        m.step(Key::Char('-'), now) == (m, Effect::LowerUsage),
        m.step(Key::Char('r'), now) == (m, Effect::RestartDownload),
{
}

/// The state at start-up is consistent whatever projects it starts with:
/// the first project and its first todo are selected where there are any,
/// the first tab and the first table row are selected, and the CPU history
/// holds 60 zero samples.
pub proof fn law_initial_state(projects: Seq<ProjectModel>)
    requires
        projects.len() <= usize::MAX,
    ensures
        initial_model(projects).wf(),
        initial_model(projects).projects == projects,
        initial_model(projects).current_tab == 0,
        initial_model(projects).project_sel == if projects.len() == 0 { None } else { Some(0usize) },
        initial_model(projects).todo_sel == if projects.len() == 0 { None } else { first_todo_of(initial_model(projects), 0) },
        initial_model(projects).table_sel == Some(0usize),
        forall|i: int| 0 <= i < initial_model(projects).history.len() ==> #[trigger] initial_model(projects).history[i] == 0,
        at_rest(initial_model(projects)),
        !initial_model(projects).should_quit,
{
}

} // verus!
