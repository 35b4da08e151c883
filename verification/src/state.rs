use vstd::prelude::*;
use crate::input::{
    DeleteTarget, Effect, Key, TodoFocus, gauge_effect, is_activate, is_delete, is_down, is_left,
    is_right, is_up,
};
use crate::model::{ProjectModel, TodoModel};

verus! {

/// The most CPU samples the history keeps.
pub const HISTORY_LEN: usize = 60;

/// The highest CPU sample, in percent.
pub const SAMPLE_MAX: u64 = 100;

/// The whole state of the application, as plain values.
#[verifier::ext_equal]
pub struct AppModel {
    pub current_tab: nat,
    pub tab_titles: Seq<Seq<char>>,
    pub projects: Seq<ProjectModel>,
    pub project_sel: Option<usize>,
    pub todo_sel: Option<usize>,
    pub focus: TodoFocus,
    pub adding_todo: bool,
    pub todo_input: Seq<char>,
    pub adding_project: bool,
    pub project_input: Seq<char>,
    pub table: Seq<Seq<Seq<char>>>,
    pub table_sel: Option<usize>,
    pub history: Seq<u64>,
    pub tick_count: nat,
    pub should_quit: bool,
    pub show_help: bool,
    pub confirm_delete: Option<DeleteTarget>,
}

/// The index after `i` in a list of `len` entries, wrapping to the first.
pub open spec fn next_index(i: int, len: int) -> usize {
    ((i + 1) % len) as usize
}

/// The index before `i` in a list of `len` entries, wrapping to the last.
pub open spec fn prev_index(i: int, len: int) -> usize {
    (if i == 0 { len - 1 } else { i - 1 }) as usize
}

/// The index a selection moves to when the entry at `i` goes from a list
/// that keeps `len` entries: the same place, or the new last entry.
pub open spec fn index_after_removal(i: int, len: int) -> usize {
    (if i >= len { len - 1 } else { i }) as usize
}

pub open spec fn unwrap_or_zero(sel: Option<usize>) -> int {
    match sel {
        Some(i) => i as int,
        None => 0,
    }
}

/// The titles of the tabs, in order.
pub open spec fn tab_titles_spec() -> Seq<Seq<char>> {
    seq!["📝 Todo"@, "📊 Table"@, "🔋 Gauges"@, "📈 Charts"@, "📖 About"@]
}

/// The rows of the crate table: name, version, description, rating.
pub open spec fn table_spec() -> Seq<Seq<Seq<char>>> {
    seq![
        seq!["ratatui"@, "0.29"@, "TUI framework"@, "★★★★★"@],
        seq!["crossterm"@, "0.28"@, "Terminal backend"@, "★★★★★"@],
        seq!["clap"@, "4.5"@, "CLI argument parser"@, "★★★★★"@],
        seq!["serde"@, "1.0"@, "Serialization"@, "★★★★☆"@],
        seq!["tokio"@, "1.0"@, "Async runtime"@, "★★★★★"@],
        seq!["reqwest"@, "0.12"@, "HTTP client"@, "★★★★☆"@],
        seq!["anyhow"@, "1.0"@, "Error handling"@, "★★★★☆"@],
        seq!["sha2"@, "0.10"@, "SHA-2 hashing"@, "★★★☆☆"@],
        seq!["indicatif"@, "0.17"@, "Progress bars"@, "★★★★☆"@],
        seq!["colored"@, "2.0"@, "Terminal colors"@, "★★★☆☆"@],
    ]
}

/// The state at start-up with the given projects: the first tab, the first
/// project and its first todo selected where there are any, the focus on
/// the project list, no input or popup, the first table row selected, and
/// a CPU history of 60 zero samples.
pub open spec fn initial_model(projects: Seq<ProjectModel>) -> AppModel {
    AppModel {
        current_tab: 0,
        tab_titles: tab_titles_spec(),
        projects,
        project_sel: if projects.len() == 0 { None } else { Some(0usize) },
        todo_sel: if projects.len() > 0 && projects[0].todos.len() > 0 { Some(0usize) } else { None },
        focus: TodoFocus::Projects,
        adding_todo: false,
        todo_input: seq![],
        adding_project: false,
        project_input: seq![],
        table: table_spec(),
        table_sel: Some(0usize),
        history: Seq::new(HISTORY_LEN as nat, |i: int| 0u64),
        tick_count: 0,
        should_quit: false,
        show_help: false,
        confirm_delete: None,
    }
}

impl AppModel {
    /// The selected project, where the selection points at one.
    pub open spec fn selected_project(self) -> Option<int> {
        match self.project_sel {
            Some(i) => if (i as int) < self.projects.len() { Some(i as int) } else { None },
            None => None,
        }
    }

    /// The state is consistent: the tab exists, a project is selected exactly
    /// when there are projects, a todo exactly when the selected project has
    /// todos, every selection points into its list, a row is selected where
    /// the table has rows, and the CPU history is full and holds samples of
    /// at most 100.
    pub open spec fn wf(self) -> bool {
        &&& self.tab_titles.len() > 0
        &&& self.current_tab < self.tab_titles.len()
        &&& (self.project_sel is None <==> self.projects.len() == 0)
        &&& (self.project_sel matches Some(i) ==> (i as int) < self.projects.len())
        &&& match self.selected_project() {
            Some(pi) => {
                &&& (self.todo_sel is None <==> self.projects[pi].todos.len() == 0)
                &&& (self.todo_sel matches Some(j) ==> (j as int) < self.projects[pi].todos.len())
            },
            None => self.todo_sel is None,
        }
        &&& (self.table_sel matches Some(i) ==> (i as int) < self.table.len())
        &&& (self.table.len() > 0 ==> self.table_sel is Some)
        &&& self.history.len() == HISTORY_LEN
        &&& forall|i: int| 0 <= i < self.history.len() ==> #[trigger] self.history[i] <= SAMPLE_MAX
    }

    /// Every list is short enough to be held in memory, as every `Vec` is.
    pub open spec fn fits(self) -> bool {
        &&& self.tab_titles.len() <= usize::MAX
        &&& self.table.len() <= usize::MAX
        &&& self.projects.len() <= usize::MAX
        &&& forall|pi: int| 0 <= pi < self.projects.len() ==> #[trigger] self.projects[pi].todos.len() <= usize::MAX
    }

    /// The state with the todos of project `pi` replaced.
    pub open spec fn with_todos(self, pi: int, todos: Seq<TodoModel>) -> AppModel {
        AppModel {
            projects: self.projects.update(pi, ProjectModel { name: self.projects[pi].name, todos }),
            ..self
        }
    }

    pub open spec fn next_tab(self) -> AppModel {
        AppModel { current_tab: ((self.current_tab + 1) % self.tab_titles.len()) as nat, ..self }
    }

    pub open spec fn prev_tab(self) -> AppModel {
        AppModel {
            current_tab: (if self.current_tab == 0 {
                self.tab_titles.len() - 1
            } else {
                self.current_tab - 1
            }) as nat,
            ..self
        }
    }

    /// Selects the first todo of the selected project, or none.
    pub open spec fn reset_todo_selection(self) -> AppModel {
        AppModel {
            todo_sel: match self.selected_project() {
                Some(pi) => if self.projects[pi].todos.len() == 0 { None } else { Some(0usize) },
                None => None,
            },
            ..self
        }
    }

    pub open spec fn project_next(self) -> AppModel {
        let len = self.projects.len() as int;
        if len == 0 {
            self
        } else {
            AppModel {
                project_sel: Some(next_index(unwrap_or_zero(self.project_sel), len)),
                ..self
            }.reset_todo_selection()
        }
    }

    pub open spec fn project_prev(self) -> AppModel {
        let len = self.projects.len() as int;
        if len == 0 {
            self
        } else {
            AppModel {
                project_sel: Some(prev_index(unwrap_or_zero(self.project_sel), len)),
                ..self
            }.reset_todo_selection()
        }
    }

    /// Ends the project input: a non-empty name becomes a new, selected,
    /// empty project at the end of the list.
    pub open spec fn project_add(self) -> AppModel {
        if self.project_input.len() > 0 {
            AppModel {
                projects: self.projects.push(ProjectModel { name: self.project_input, todos: seq![] }),
                project_input: seq![],
                project_sel: Some(self.projects.len() as usize),
                todo_sel: None,
                adding_project: false,
                ..self
            }
        } else {
            AppModel { adding_project: false, ..self }
        }
    }

    /// Removes the selected project with its todos; the selection stays in
    /// place, or moves to the new last project.
    pub open spec fn project_delete(self) -> AppModel {
        match self.project_sel {
            Some(i) => if (i as int) < self.projects.len() {
                let rest = self.projects.remove(i as int);
                if rest.len() > 0 {
                    AppModel {
                        projects: rest,
                        project_sel: Some(index_after_removal(i as int, rest.len() as int)),
                        ..self
                    }.reset_todo_selection()
                } else {
                    AppModel { projects: rest, project_sel: None, todo_sel: None, ..self }
                }
            } else {
                self
            },
            None => self,
        }
    }

    pub open spec fn todo_next(self) -> AppModel {
        match self.selected_project() {
            Some(pi) => {
                let len = self.projects[pi].todos.len() as int;
                if len == 0 {
                    self
                } else {
                    AppModel { todo_sel: Some(next_index(unwrap_or_zero(self.todo_sel), len)), ..self }
                }
            },
            None => self,
        }
    }

    pub open spec fn todo_prev(self) -> AppModel {
        match self.selected_project() {
            Some(pi) => {
                let len = self.projects[pi].todos.len() as int;
                if len == 0 {
                    self
                } else {
                    AppModel { todo_sel: Some(prev_index(unwrap_or_zero(self.todo_sel), len)), ..self }
                }
            },
            None => self,
        }
    }

    /// Flips whether the selected todo is done.
    pub open spec fn todo_toggle(self) -> AppModel {
        match self.todo_sel {
            Some(i) => match self.selected_project() {
                Some(pi) => {
                    let todos = self.projects[pi].todos;
                    if (i as int) < todos.len() {
                        let t = todos[i as int];
                        self.with_todos(pi, todos.update(i as int, TodoModel { done: !t.done, ..t }))
                    } else {
                        self
                    }
                },
                None => self,
            },
            None => self,
        }
    }

    /// Removes the selected todo; the selection stays in place, or moves to
    /// the new last todo.
    pub open spec fn todo_delete(self) -> AppModel {
        match self.todo_sel {
            Some(i) => match self.selected_project() {
                Some(pi) => {
                    let todos = self.projects[pi].todos;
                    if (i as int) < todos.len() {
                        let rest = todos.remove(i as int);
                        AppModel {
                            todo_sel: if rest.len() > 0 {
                                Some(index_after_removal(i as int, rest.len() as int))
                            } else {
                                None
                            },
                            ..self.with_todos(pi, rest)
                        }
                    } else {
                        self
                    }
                },
                None => self,
            },
            None => self,
        }
    }

    /// Ends the todo input: a non-empty text becomes a new, selected, open
    /// todo created at `now` at the end of the selected project. Without a
    /// selected project the text stays in the input.
    pub open spec fn todo_add(self, now: i64) -> AppModel {
        if self.todo_input.len() > 0 {
            match self.selected_project() {
                Some(pi) => {
                    let todos = self.projects[pi].todos.push(
                        TodoModel { text: self.todo_input, done: false, created_at: now as int },
                    );
                    AppModel {
                        todo_input: seq![],
                        todo_sel: Some((todos.len() - 1) as usize),
                        adding_todo: false,
                        ..self.with_todos(pi, todos)
                    }
                },
                None => AppModel { adding_todo: false, ..self },
            }
        } else {
            AppModel { adding_todo: false, ..self }
        }
    }

    pub open spec fn table_next(self) -> AppModel {
        let len = self.table.len() as int;
        if len == 0 {
            self
        } else {
            AppModel { table_sel: Some(next_index(unwrap_or_zero(self.table_sel), len)), ..self }
        }
    }

    pub open spec fn table_prev(self) -> AppModel {
        let len = self.table.len() as int;
        if len == 0 {
            self
        } else {
            AppModel { table_sel: Some(prev_index(unwrap_or_zero(self.table_sel), len)), ..self }
        }
    }

    /// One animation tick: counts it, and appends the CPU sample, capped at
    /// 100, to the history, dropping the oldest sample beyond 60.
    pub open spec fn tick(self, sample: u64) -> AppModel {
        let value = if sample > SAMPLE_MAX { SAMPLE_MAX } else { sample };
        let grown = self.history.push(value);
        AppModel {
            tick_count: self.tick_count + 1,
            history: if grown.len() > HISTORY_LEN { grown.remove(0) } else { grown },
            ..self
        }
    }

    /// The keys of the todo tab.
    pub open spec fn todo_keys(self, key: Key) -> AppModel {
        if is_left(key) {
            AppModel { focus: TodoFocus::Projects, ..self }
        } else if is_right(key) {
            if self.projects.len() > 0 { AppModel { focus: TodoFocus::Todos, ..self } } else { self }
        } else if is_down(key) {
            match self.focus {
                TodoFocus::Projects => self.project_next(),
                TodoFocus::Todos => self.todo_next(),
            }
        } else if is_up(key) {
            match self.focus {
                TodoFocus::Projects => self.project_prev(),
                TodoFocus::Todos => self.todo_prev(),
            }
        } else if is_activate(key) {
            match self.focus {
                TodoFocus::Projects => if self.projects.len() > 0 {
                    AppModel { focus: TodoFocus::Todos, ..self }
                } else {
                    self
                },
                TodoFocus::Todos => self.todo_toggle(),
            }
        } else if key == Key::Char('a') {
            match self.focus {
                TodoFocus::Projects => AppModel { adding_project: true, project_input: seq![], ..self },
                TodoFocus::Todos => if self.projects.len() > 0 {
                    AppModel { adding_todo: true, todo_input: seq![], ..self }
                } else {
                    self
                },
            }
        } else if is_delete(key) {
            match self.focus {
                TodoFocus::Projects => match self.project_sel {
                    Some(idx) => if (idx as int) < self.projects.len() {
                        AppModel { confirm_delete: Some(DeleteTarget::Project(idx)), ..self }
                    } else {
                        self
                    },
                    None => self,
                },
                TodoFocus::Todos => match (self.project_sel, self.todo_sel) {
                    (Some(pi), Some(ti)) => if (pi as int) < self.projects.len()
                        && (ti as int) < self.projects[pi as int].todos.len() {
                        AppModel {
                            confirm_delete: Some(DeleteTarget::Todo { project_idx: pi, todo_idx: ti }),
                            ..self
                        }
                    } else {
                        self
                    },
                    _ => self,
                },
            }
        } else {
            self
        }
    }

    /// The keys of the table tab.
    pub open spec fn table_keys(self, key: Key) -> AppModel {
        if is_down(key) {
            self.table_next()
        } else if is_up(key) {
            self.table_prev()
        } else {
            self
        }
    }

    /// A key while a todo is being typed.
    pub open spec fn todo_input_key(self, key: Key, now: i64) -> AppModel {
        match key {
            Key::Enter => self.todo_add(now),
            Key::Esc => AppModel { adding_todo: false, todo_input: seq![], ..self },
            Key::Backspace => if self.todo_input.len() > 0 {
                AppModel { todo_input: self.todo_input.drop_last(), ..self }
            } else {
                self
            },
            Key::Char(c) => AppModel { todo_input: self.todo_input.push(c), ..self },
            _ => self,
        }
    }

    /// A key while a project name is being typed.
    pub open spec fn project_input_key(self, key: Key) -> AppModel {
        match key {
            Key::Enter => self.project_add(),
            Key::Esc => AppModel { adding_project: false, project_input: seq![], ..self },
            Key::Backspace => if self.project_input.len() > 0 {
                AppModel { project_input: self.project_input.drop_last(), ..self }
            } else {
                self
            },
            Key::Char(c) => AppModel { project_input: self.project_input.push(c), ..self },
            _ => self,
        }
    }

    /// A key while a delete waits for confirmation: `y` or Enter deletes the
    /// selected item of the target's kind, any other key cancels.
    pub open spec fn confirm_key(self, key: Key) -> AppModel {
        let closed = AppModel { confirm_delete: None, ..self };
        if key == Key::Char('y') || key == Key::Enter {
            match self.confirm_delete {
                Some(DeleteTarget::Project(_)) => closed.project_delete(),
                Some(DeleteTarget::Todo { .. }) => closed.todo_delete(),
                None => closed,
            }
        } else {
            closed
        }
    }

    /// What a key press does, where `now` is the time at which a new todo
    /// would be created: the new state and what it asks of the outside.
    /// Tab and Shift+Tab switch tabs in every mode, cancelling a pending
    /// delete as every key but `y` and Enter does; the other keys go to the
    /// open input, the help, a pending confirmation, or else to the global
    /// keys and then to the keys of the current tab.
    pub open spec fn step(self, key: Key, now: i64) -> (AppModel, Effect) {
        if key == (Key::Tab { shift: true }) {
            ((AppModel { confirm_delete: None, ..self }).prev_tab(), Effect::Nothing)
        } else if key == (Key::Tab { shift: false }) {
            ((AppModel { confirm_delete: None, ..self }).next_tab(), Effect::Nothing)
        } else if self.adding_todo {
            (self.todo_input_key(key, now), Effect::Nothing)
        } else if self.adding_project {
            (self.project_input_key(key), Effect::Nothing)
        } else if self.show_help {
            if key == Key::Esc || key == Key::Char('q') || key == Key::Char('?') {
                (AppModel { show_help: false, ..self }, Effect::Nothing)
            } else {
                (self, Effect::Nothing)
            }
        } else if self.confirm_delete is Some {
            (self.confirm_key(key), Effect::Nothing)
        } else if key == Key::Char('q') || key == Key::Esc {
            (AppModel { should_quit: true, ..self }, Effect::Nothing)
        } else if key == Key::Char('s') {
            (self, Effect::Save)
        } else if key == Key::Char('?') {
            (AppModel { show_help: true, ..self }, Effect::Nothing)
        } else if self.current_tab == 0 {
            (self.todo_keys(key), Effect::Nothing)
        } else if self.current_tab == 1 {
            (self.table_keys(key), Effect::Nothing)
        } else if self.current_tab == 2 {
            (self, gauge_effect(key))
        } else {
            (self, Effect::Nothing)
        }
    }
}

} // verus!
