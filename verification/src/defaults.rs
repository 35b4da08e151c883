use vstd::prelude::*;
use crate::badge::SECS_PER_DAY;
use crate::clock::now_unix_secs;
use crate::model::{Project, ProjectModel, TodoItem, TodoModel, projects_model};

verus! {

/// The Unix time `days` days before `now`, wrapping as `i64` arithmetic does
/// in an optimised build.
pub open spec fn days_before(now: i64, days: i64) -> int {
    now.wrapping_sub((days * SECS_PER_DAY) as i64) as int
}

pub open spec fn sample_todo(text: Seq<char>, done: bool, now: i64, days: i64) -> TodoModel {
    TodoModel { text, done, created_at: days_before(now, days) }
}

/// The projects that a first start shows, their todos created some days
/// before `now`.
pub open spec fn default_projects_spec(now: i64) -> Seq<ProjectModel> {
    seq![
        ProjectModel {
            name: "Learn Ratatui"@,
            todos: seq![
                sample_todo("Learn ratatui basics"@, true, now, 6),
                sample_todo("Build a layout with constraints"@, true, now, 4),
                sample_todo("Add keyboard navigation"@, false, now, 2),
                sample_todo("Style widgets with colors"@, false, now, 5),
            ],
        },
        ProjectModel {
            name: "Build App"@,
            todos: seq![
                sample_todo("Create a stateful list"@, false, now, 1),
                sample_todo("Handle events in a loop"@, false, now, 3),
                sample_todo("Deploy to production \u{1F680}"@, false, now, 7),
            ],
        },
    ]
}

fn sample(text: &str, done: bool, now: i64, days: i64) -> (item: TodoItem)
    requires
        0 <= days <= 7,
    ensures
        item@ == sample_todo(text@, done, now, days),
{
    TodoItem { text: text.to_owned(), done, created_at: now.wrapping_sub(days * SECS_PER_DAY) }
}

/// The projects that a first start shows, with their todos dated from `now`.
pub fn default_projects_at(now: i64) -> (projects: Vec<Project>)
    ensures
        projects_model(projects@) == default_projects_spec(now),
{
    let mut learn: Vec<TodoItem> = Vec::new();
    learn.push(sample("Learn ratatui basics", true, now, 6));
    learn.push(sample("Build a layout with constraints", true, now, 4));
    learn.push(sample("Add keyboard navigation", false, now, 2));
    learn.push(sample("Style widgets with colors", false, now, 5));
    let mut build: Vec<TodoItem> = Vec::new();
    build.push(sample("Create a stateful list", false, now, 1));
    build.push(sample("Handle events in a loop", false, now, 3));
    build.push(sample("Deploy to production \u{1F680}", false, now, 7));
    let mut projects: Vec<Project> = Vec::new();
    projects.push(Project { name: "Learn Ratatui".to_owned(), todos: learn });
    projects.push(Project { name: "Build App".to_owned(), todos: build });
    let ghost spec = default_projects_spec(now);
    assert(crate::model::todos_model(projects@[0].todos@) =~= spec[0].todos);
    assert(crate::model::todos_model(projects@[1].todos@) =~= spec[1].todos);
    assert(projects_model(projects@) =~= spec);
    projects
}

/// The projects that a first start shows, dated from the current time.
pub fn default_projects() -> (projects: Vec<Project>)
    ensures
        exists|now: i64|
            projects_model(projects@) == default_projects_spec(now),
{
    let now = now_unix_secs();
    default_projects_at(now)
}

/// The sample projects: "Learn Ratatui" with four todos, of which the
/// first two are done, and "Build App" with three open todos; every todo was
/// created between one and seven whole days before `now`, where those days
/// can be counted back from `now` without leaving the `i64` range.
pub proof fn law_default_projects_shape(now: i64)
    requires
        now >= i64::MIN + 7 * SECS_PER_DAY,
    ensures
        default_projects_spec(now).len() == 2,
        default_projects_spec(now)[0].todos.len() == 4,
        default_projects_spec(now)[1].todos.len() == 3,
        forall|p: int, t: int|
            0 <= p < 2 && 0 <= t < default_projects_spec(now)[p].todos.len() ==> {
                let created = #[trigger] default_projects_spec(now)[p].todos[t].created_at;
                &&& now - 7 * SECS_PER_DAY <= created <= now - SECS_PER_DAY
                &&& (created - now) % (SECS_PER_DAY as int) == 0
                &&& default_projects_spec(now)[p].todos[t].done == (p == 0 && t < 2)
            },
{
    let s = default_projects_spec(now);
    assert forall|p: int, t: int|
        0 <= p < 2 && 0 <= t < default_projects_spec(now)[p].todos.len() implies {
            let created = #[trigger] default_projects_spec(now)[p].todos[t].created_at;
            &&& now - 7 * SECS_PER_DAY <= created <= now - SECS_PER_DAY
            &&& (created - now) % (SECS_PER_DAY as int) == 0
            &&& default_projects_spec(now)[p].todos[t].done == (p == 0 && t < 2)
        } by {
        if p == 0 {
            assert(t == 0 || t == 1 || t == 2 || t == 3);
        } else {
            assert(t == 0 || t == 1 || t == 2);
        }
    }
}

} // verus!
