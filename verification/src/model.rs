use vstd::prelude::*;

verus! {

/// One todo of a project.
pub struct TodoItem {
    pub text: String,
    pub done: bool,
    /// Unix time, in seconds, at which the todo was created.
    pub created_at: i64,
}

/// A named project and its todos, in display order.
pub struct Project {
    pub name: String,
    pub todos: Vec<TodoItem>,
}

/// What a todo is, as plain values.
pub struct TodoModel {
    pub text: Seq<char>,
    pub done: bool,
    pub created_at: int,
}

/// What a project is, as plain values.
pub struct ProjectModel {
    pub name: Seq<char>,
    pub todos: Seq<TodoModel>,
}

impl View for TodoItem {
    type V = TodoModel;

    open spec fn view(&self) -> TodoModel {
        TodoModel { text: self.text@, done: self.done, created_at: self.created_at as int }
    }
}

impl View for Project {
    type V = ProjectModel;

    open spec fn view(&self) -> ProjectModel {
        ProjectModel { name: self.name@, todos: todos_model(self.todos@) }
    }
}

/// The plain values of a sequence of todos.
pub open spec fn todos_model(todos: Seq<TodoItem>) -> Seq<TodoModel> {
    todos.map_values(|t: TodoItem| t@)
}

/// The plain values of a sequence of projects.
pub open spec fn projects_model(projects: Seq<Project>) -> Seq<ProjectModel> {
    projects.map_values(|p: Project| p@)
}

/// How many of the todos are done.
pub open spec fn count_done(todos: Seq<TodoModel>) -> nat
    decreases todos.len(),
{
    if todos.len() == 0 {
        0
    } else {
        count_done(todos.drop_last()) + if todos.last().done { 1nat } else { 0nat }
    }
}

impl TodoItem {
    pub fn new(text: String, done: bool, created_at: i64) -> (item: TodoItem)
        ensures
            item@ == (TodoModel { text: text@, done, created_at: created_at as int }),
    {
        TodoItem { text, done, created_at }
    }
}

impl Project {
    pub fn new(name: String, todos: Vec<TodoItem>) -> (project: Project)
        ensures
            project@ == (ProjectModel { name: name@, todos: todos_model(todos@) }),
    {
        Project { name, todos }
    }

    /// The number of todos of this project that are done.
    pub fn done_count(&self) -> (n: usize)
        ensures
            n == count_done(self@.todos),
    {
        let mut n: usize = 0;
        let mut i: usize = 0;
        while i < self.todos.len()
            invariant
                i <= self.todos.len(),
                n == count_done(todos_model(self.todos@).take(i as int)),
                n <= i,
            decreases self.todos.len() - i,
        {
            proof {
                let s = todos_model(self.todos@);
                assert(s.take(i as int + 1).drop_last() =~= s.take(i as int));
            }
            if self.todos[i].done {
                n = n + 1;
            }
            i = i + 1;
        }
        proof {
            let s = todos_model(self.todos@);
            assert(s.take(i as int) =~= s);
        }
        n
    }
}

/// Appending a todo adds one to the count exactly when that todo is done.
pub proof fn law_count_done_push(todos: Seq<TodoModel>, todo: TodoModel)
    ensures
        count_done(todos.push(todo)) == count_done(todos) + if todo.done { 1nat } else { 0nat },
{
    assert(todos.push(todo).drop_last() =~= todos);
}

/// The count of two lists put together is the sum of their counts.
pub proof fn law_count_done_concat(first: Seq<TodoModel>, second: Seq<TodoModel>)
    ensures
        count_done(first + second) == count_done(first) + count_done(second),
    decreases second.len(),
{
    if second.len() == 0 {
        assert(first + second =~= first);
    } else {
        law_count_done_concat(first, second.drop_last());
        assert((first + second).drop_last() =~= first + second.drop_last());
    }
}

/// The count is the number of todos that are done: the length of the list
/// of done todos.
pub proof fn law_count_done_is_filter(todos: Seq<TodoModel>)
    ensures
        count_done(todos) == todos.filter(|t: TodoModel| t.done).len(),
    decreases todos.len(),
{
    reveal(Seq::filter);
    if todos.len() > 0 {
        law_count_done_is_filter(todos.drop_last());
    }
}

/// The count is at most the number of todos; it is the number of todos
/// where all are done, and zero where none is.
pub proof fn law_count_done_bounds(todos: Seq<TodoModel>)
    ensures
        count_done(todos) <= todos.len(),
        (forall|i: int| 0 <= i < todos.len() ==> #[trigger] todos[i].done) ==> count_done(todos) == todos.len(),
        (forall|i: int| 0 <= i < todos.len() ==> !#[trigger] todos[i].done) ==> count_done(todos) == 0,
    decreases todos.len(),
{
    if todos.len() > 0 {
        let rest = todos.drop_last();
        law_count_done_bounds(rest);
        if forall|i: int| 0 <= i < todos.len() ==> #[trigger] todos[i].done {
            assert forall|i: int| 0 <= i < rest.len() implies #[trigger] rest[i].done by {
                assert(rest[i] == todos[i]);
            }
        }
        if forall|i: int| 0 <= i < todos.len() ==> !#[trigger] todos[i].done {
            assert forall|i: int| 0 <= i < rest.len() implies !#[trigger] rest[i].done by {
                assert(rest[i] == todos[i]);
            }
        }
    }
}

} // verus!
