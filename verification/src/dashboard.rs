use vstd::prelude::*;
use crate::clock::now_unix_secs;
use crate::defaults::{default_projects, default_projects_spec};
use crate::input::{DeleteTarget, Effect, Key, TodoFocus, handle_gauge_keys};
use crate::laws::{law_step_keeps_wf, law_edits_keep_wf, law_navigation_keeps_wf};
use crate::model::{Project, TodoItem, projects_model, todos_model};
use crate::state::{AppModel, HISTORY_LEN, SAMPLE_MAX, initial_model, table_spec, tab_titles_spec};

verus! {

/// Calls `String::push`, which appends the character to the string.
#[verifier::external_body]
fn push_char(s: &mut String, c: char)
    ensures
        final(s)@ == old(s)@.push(c),
{
    s.push(c)
}

/// Calls `String::pop`, which removes the last character of the string and
/// returns it, or returns `None` and leaves an empty string as it is.
#[verifier::external_body]
fn pop_char(s: &mut String) -> (last: Option<char>)
    ensures
        old(s)@.len() > 0 ==> last == Some(old(s)@.last()) && final(s)@ == old(s)@.drop_last(),
        old(s)@.len() == 0 ==> last is None && final(s)@ == old(s)@,
{
    s.pop()
}

/// The application: projects and their todos, the selections of the lists,
/// the text inputs, the popups, the table and the CPU history.
pub struct App {
    current_tab: usize,
    tab_titles: Vec<&'static str>,
    projects: Vec<Project>,
    project_selected: Option<usize>,
    todo_selected: Option<usize>,
    todo_focus: TodoFocus,
    adding_todo: bool,
    todo_input: String,
    adding_project: bool,
    project_input: String,
    table_data: Vec<Vec<String>>,
    table_selected: Option<usize>,
    sparkline_data: Vec<u64>,
    tick_count: u64,
    should_quit: bool,
    show_help: bool,
    confirm_delete: Option<DeleteTarget>,
}

pub open spec fn titles_model(titles: Seq<&'static str>) -> Seq<Seq<char>> {
    titles.map_values(|t: &'static str| t@)
}

pub open spec fn table_model(rows: Seq<Vec<String>>) -> Seq<Seq<Seq<char>>> {
    rows.map_values(|row: Vec<String>| row@.map_values(|cell: String| cell@))
}

impl View for App {
    type V = AppModel;

    closed spec fn view(&self) -> AppModel {
        AppModel {
            current_tab: self.current_tab as nat,
            tab_titles: titles_model(self.tab_titles@),
            projects: projects_model(self.projects@),
            project_sel: self.project_selected,
            todo_sel: self.todo_selected,
            focus: self.todo_focus,
            adding_todo: self.adding_todo,
            todo_input: self.todo_input@,
            adding_project: self.adding_project,
            project_input: self.project_input@,
            table: table_model(self.table_data@),
            table_sel: self.table_selected,
            history: self.sparkline_data@,
            tick_count: self.tick_count as nat,
            should_quit: self.should_quit,
            show_help: self.show_help,
            confirm_delete: self.confirm_delete,
        }
    }
}

fn table_row(name: &str, version: &str, description: &str, rating: &str) -> (row: Vec<String>)
    ensures
        row@.map_values(|cell: String| cell@) == seq![name@, version@, description@, rating@],
{
    let row = vec![name.to_owned(), version.to_owned(), description.to_owned(), rating.to_owned()];
    assert(row@.map_values(|cell: String| cell@) =~= seq![name@, version@, description@, rating@]);
    row
}

fn crate_table() -> (rows: Vec<Vec<String>>)
    ensures
        table_model(rows@) == table_spec(),
{
    let rows = vec![
        table_row("ratatui", "0.29", "TUI framework", "★★★★★"),
        table_row("crossterm", "0.28", "Terminal backend", "★★★★★"),
        table_row("clap", "4.5", "CLI argument parser", "★★★★★"),
        table_row("serde", "1.0", "Serialization", "★★★★☆"),
        table_row("tokio", "1.0", "Async runtime", "★★★★★"),
        table_row("reqwest", "0.12", "HTTP client", "★★★★☆"),
        table_row("anyhow", "1.0", "Error handling", "★★★★☆"),
        table_row("sha2", "0.10", "SHA-2 hashing", "★★★☆☆"),
        table_row("indicatif", "0.17", "Progress bars", "★★★★☆"),
        table_row("colored", "2.0", "Terminal colors", "★★★☆☆"),
    ];
    assert(table_model(rows@) =~= table_spec());
    rows
}

impl App {
    /// The application at start-up, with the projects loaded from storage,
    /// or the sample projects where storage held none.
    pub fn new(loaded_projects: Vec<Project>) -> (app: App)
        ensures
            app.wf(),
            app@ == initial_model(app@.projects),
            loaded_projects@.len() > 0 ==> app@.projects == projects_model(loaded_projects@),
            loaded_projects@.len() == 0 ==> exists|now: i64|
                app@.projects == default_projects_spec(now),
    {
        let projects = if loaded_projects.is_empty() { default_projects() } else { loaded_projects };
        let project_selected = if projects.is_empty() { None } else { Some(0) };
        let has_todos = if projects.is_empty() { false } else { !projects[0].todos.is_empty() };
        let todo_selected = if has_todos { Some(0) } else { None };
        let history = vec![0u64; HISTORY_LEN];
        let app = App {
            current_tab: 0,
            tab_titles: vec!["📝 Todo", "📊 Table", "🔋 Gauges", "📈 Charts", "📖 About"],
            projects,
            project_selected,
            todo_selected,
            todo_focus: TodoFocus::Projects,
            adding_todo: false,
            todo_input: String::new(),
            adding_project: false,
            project_input: String::new(),
            table_data: crate_table(),
            table_selected: Some(0),
            sparkline_data: history,
            tick_count: 0,
            should_quit: false,
            show_help: false,
            confirm_delete: None,
        };
        proof {
            assert(titles_model(app.tab_titles@) =~= tab_titles_spec());
            assert(app.sparkline_data@ =~= Seq::new(HISTORY_LEN as nat, |i: int| 0u64));
            if app.projects@.len() > 0 {
                assert(app@.projects[0] == app.projects@[0]@);
            }
            assert(app@ =~= initial_model(app@.projects));
        }
        app
    }

    /// The application is in a consistent state.
    pub open spec fn wf(&self) -> bool {
        self@.wf()
    }

    proof fn lemma_fits(&self)
        ensures
            self@.fits(),
    {
        assert(self.projects@.len() == self.projects.len());
        assert(self.tab_titles@.len() == self.tab_titles.len());
        assert(self.table_data@.len() == self.table_data.len());
        assert forall|pi: int| 0 <= pi < self@.projects.len() implies #[trigger] self@.projects[pi].todos.len()
            <= usize::MAX by {
            assert(self@.projects[pi] == self.projects@[pi]@);
            assert(self.projects@[pi].todos@.len() == self.projects@[pi].todos.len());
        }
    }

    pub fn next_tab(&mut self)
        requires
            old(self).wf(),
        ensures
            final(self)@ == old(self)@.next_tab(),
            final(self).wf(),
    {
        proof {
            law_navigation_keeps_wf(self@);
            assert(self.tab_titles@.len() == self.tab_titles.len());
        }
        self.current_tab = (self.current_tab + 1) % self.tab_titles.len();
    }

    pub fn prev_tab(&mut self)
        requires
            old(self).wf(),
        ensures
            final(self)@ == old(self)@.prev_tab(),
            final(self).wf(),
    {
        proof { law_navigation_keeps_wf(self@); }
        if self.current_tab == 0 {
            self.current_tab = self.tab_titles.len() - 1;
        } else {
            self.current_tab = self.current_tab - 1;
        }
    }

    fn reset_todo_selection(&mut self)
        ensures
            final(self)@ == old(self)@.reset_todo_selection(),
    {
        let selection = match self.project_selected {
            Some(i) => if i < self.projects.len() {
                if self.projects[i].todos.len() == 0 { None } else { Some(0) }
            } else {
                None
            },
            None => None,
        };
        self.todo_selected = selection;
        proof {
            if let Some(i) = self.project_selected {
                if (i as int) < self.projects@.len() {
                    assert(self@.projects[i as int] == self.projects@[i as int]@);
                }
            }
        }
    }

    pub fn project_next(&mut self)
        requires
            old(self).wf(),
        ensures
            final(self)@ == old(self)@.project_next(),
            final(self).wf(),
    {
        proof { law_navigation_keeps_wf(self@); }
        let len = self.projects.len();
        if len == 0 {
            return;
        }
        let i = match self.project_selected { Some(i) => i, None => 0 };
        self.project_selected = Some((i + 1) % len);
        self.reset_todo_selection();
    }

    pub fn project_prev(&mut self)
        requires
            old(self).wf(),
        ensures
            final(self)@ == old(self)@.project_prev(),
            final(self).wf(),
    {
        proof { law_navigation_keeps_wf(self@); }
        let len = self.projects.len();
        if len == 0 {
            return;
        }
        let i = match self.project_selected { Some(i) => i, None => 0 };
        self.project_selected = Some(if i == 0 { len - 1 } else { i - 1 });
        self.reset_todo_selection();
    }

    pub fn project_add(&mut self)
        requires
            old(self).wf(),
        ensures
            final(self)@ == old(self)@.project_add(),
            final(self).wf(),
    {
        proof {
            self.lemma_fits();
            law_edits_keep_wf(self@, 0);
        }
        if !self.project_input.as_str().is_empty() {
            let mut name = String::new();
            std::mem::swap(&mut name, &mut self.project_input);
            let ghost before = self.projects@;
            self.projects.push(Project { name, todos: Vec::new() });
            self.project_selected = Some(self.projects.len() - 1);
            self.todo_selected = None;
            proof {
                assert(todos_model(Seq::<TodoItem>::empty()) =~= Seq::empty());
                assert(projects_model(self.projects@) =~= projects_model(before).push(
                    self.projects@.last()@,
                ));
            }
        }
        self.adding_project = false;
    }

    pub fn project_delete(&mut self)
        requires
            old(self).wf(),
        ensures
            final(self)@ == old(self)@.project_delete(),
            final(self).wf(),
    {
        proof {
            self.lemma_fits();
            law_edits_keep_wf(self@, 0);
        }
        if let Some(i) = self.project_selected {
            if i < self.projects.len() {
                let ghost before = self.projects@;
                let _removed = self.projects.remove(i);
                proof {
                    assert(projects_model(self.projects@) =~= projects_model(before).remove(i as int));
                }
                if !self.projects.is_empty() {
                    let new_idx = if i >= self.projects.len() { self.projects.len() - 1 } else { i };
                    self.project_selected = Some(new_idx);
                    self.reset_todo_selection();
                } else {
                    self.project_selected = None;
                    self.todo_selected = None;
                }
            }
        }
    }

    pub fn todo_next(&mut self)
        requires
            old(self).wf(),
        ensures
            final(self)@ == old(self)@.todo_next(),
            final(self).wf(),
    {
        proof { law_navigation_keeps_wf(self@); }
        if let Some(pi) = self.project_selected {
            if pi < self.projects.len() {
                proof { assert(self@.projects[pi as int] == self.projects@[pi as int]@); }
                let len = self.projects[pi].todos.len();
                if len == 0 {
                    return;
                }
                let i = match self.todo_selected { Some(i) => i, None => 0 };
                self.todo_selected = Some((i + 1) % len);
            }
        }
    }

    pub fn todo_prev(&mut self)
        requires
            old(self).wf(),
        ensures
            final(self)@ == old(self)@.todo_prev(),
            final(self).wf(),
    {
        proof { law_navigation_keeps_wf(self@); }
        if let Some(pi) = self.project_selected {
            if pi < self.projects.len() {
                proof { assert(self@.projects[pi as int] == self.projects@[pi as int]@); }
                let len = self.projects[pi].todos.len();
                if len == 0 {
                    return;
                }
                let i = match self.todo_selected { Some(i) => i, None => 0 };
                self.todo_selected = Some(if i == 0 { len - 1 } else { i - 1 });
            }
        }
    }

    pub fn todo_toggle(&mut self)
        requires
            old(self).wf(),
        ensures
            final(self)@ == old(self)@.todo_toggle(),
            final(self).wf(),
    {
        proof {
            self.lemma_fits();
            law_edits_keep_wf(self@, 0);
        }
        if let Some(i) = self.todo_selected {
            if let Some(pi) = self.project_selected {
                if pi < self.projects.len() {
                    proof { assert(self@.projects[pi as int] == self.projects@[pi as int]@); }
                    if i < self.projects[pi].todos.len() {
                        let ghost before = self.projects@;
                        let done = self.projects[pi].todos[i].done;
                        self.projects[pi].todos[i].done = !done;
                        proof {
                            let old_todos = todos_model(before[pi as int].todos@);
                            let t = old_todos[i as int];
                            let new_todos = old_todos.update(i as int, crate::model::TodoModel { done: !t.done, ..t });
                            assert(todos_model(self.projects@[pi as int].todos@) =~= new_todos);
                            assert(projects_model(self.projects@) =~= projects_model(before).update(
                                pi as int,
                                crate::model::ProjectModel { name: before[pi as int].name@, todos: new_todos },
                            ));
                        }
                    }
                }
            }
        }
    }

    pub fn todo_delete(&mut self)
        requires
            old(self).wf(),
        ensures
            final(self)@ == old(self)@.todo_delete(),
            final(self).wf(),
    {
        proof {
            self.lemma_fits();
            law_edits_keep_wf(self@, 0);
        }
        if let Some(i) = self.todo_selected {
            if let Some(pi) = self.project_selected {
                if pi < self.projects.len() {
                    proof { assert(self@.projects[pi as int] == self.projects@[pi as int]@); }
                    if i < self.projects[pi].todos.len() {
                        let ghost before = self.projects@;
                        let _removed = self.projects[pi].todos.remove(i);
                        proof {
                            let new_todos = todos_model(before[pi as int].todos@).remove(i as int);
                            assert(todos_model(self.projects@[pi as int].todos@) =~= new_todos);
                            assert(projects_model(self.projects@) =~= projects_model(before).update(
                                pi as int,
                                crate::model::ProjectModel { name: before[pi as int].name@, todos: new_todos },
                            ));
                        }
                        let remaining = self.projects[pi].todos.len();
                        if remaining > 0 {
                            let new_idx = if i >= remaining { remaining - 1 } else { i };
                            self.todo_selected = Some(new_idx);
                        } else {
                            self.todo_selected = None;
                        }
                    }
                }
            }
        }
    }

    /// Ends the todo input, dating a new todo at `now`.
    pub fn todo_add_at(&mut self, now: i64)
        requires
            old(self).wf(),
        ensures
            final(self)@ == old(self)@.todo_add(now),
            final(self).wf(),
    {
        proof {
            self.lemma_fits();
            law_edits_keep_wf(self@, now);
        }
        if !self.todo_input.as_str().is_empty() {
            if let Some(pi) = self.project_selected {
                if pi < self.projects.len() {
                    let ghost before = self.projects@;
                    let mut text = String::new();
                    std::mem::swap(&mut text, &mut self.todo_input);
                    self.projects[pi].todos.push(TodoItem { text, done: false, created_at: now });
                    proof {
                        let new_todos = todos_model(before[pi as int].todos@).push(
                            crate::model::TodoModel { text: old(self)@.todo_input, done: false, created_at: now as int },
                        );
                        assert(todos_model(self.projects@[pi as int].todos@) =~= new_todos);
                        assert(projects_model(self.projects@) =~= projects_model(before).update(
                            pi as int,
                            crate::model::ProjectModel { name: before[pi as int].name@, todos: new_todos },
                        ));
                    }
                    self.todo_selected = Some(self.projects[pi].todos.len() - 1);
                }
            }
        }
        self.adding_todo = false;
    }

    /// Ends the todo input, dating a new todo at the current time.
    pub fn todo_add(&mut self)
        requires
            old(self).wf(),
        ensures
            exists|now: i64|
                final(self)@ == old(self)@.todo_add(now),
            final(self).wf(),
    {
        let now = now_unix_secs();
        self.todo_add_at(now);
    }

    pub fn table_next(&mut self)
        requires
            old(self).wf(),
        ensures
            final(self)@ == old(self)@.table_next(),
            final(self).wf(),
    {
        proof { law_navigation_keeps_wf(self@); }
        let len = self.table_data.len();
        if len == 0 {
            return;
        }
        let i = match self.table_selected { Some(i) => i, None => 0 };
        self.table_selected = Some((i + 1) % len);
    }

    pub fn table_prev(&mut self)
        requires
            old(self).wf(),
        ensures
            final(self)@ == old(self)@.table_prev(),
            final(self).wf(),
    {
        proof { law_navigation_keeps_wf(self@); }
        let len = self.table_data.len();
        if len == 0 {
            return;
        }
        let i = match self.table_selected { Some(i) => i, None => 0 };
        self.table_selected = Some(if i == 0 { len - 1 } else { i - 1 });
    }

    /// One animation tick, with the CPU sample in percent.
    pub fn tick(&mut self, cpu_sample: u64)
        requires
            old(self).wf(),
            old(self)@.tick_count < u64::MAX,
        ensures
            final(self)@ == old(self)@.tick(cpu_sample),
            final(self).wf(),
    {
        proof { crate::laws::law_tick_keeps_wf(self@, cpu_sample); }
        self.tick_count = self.tick_count + 1;
        let value = if cpu_sample > SAMPLE_MAX { SAMPLE_MAX } else { cpu_sample };
        self.sparkline_data.push(value);
        if self.sparkline_data.len() > HISTORY_LEN {
            let _oldest = self.sparkline_data.remove(0);
        }
    }

    /// The keys of the todo tab.
    #[verifier::spinoff_prover]
    #[verifier::rlimit(40)]
    pub fn handle_todo_keys(&mut self, key: Key)
        requires
            old(self).wf(),
        ensures
            final(self)@ == old(self)@.todo_keys(key),
            final(self).wf(),
    {
        proof {
            law_navigation_keeps_wf(self@);
            self.lemma_fits();
            law_edits_keep_wf(self@, 0);
        }
        match key {
            Key::Left | Key::Char('h') => {
                self.todo_focus = TodoFocus::Projects;
            },
            Key::Right | Key::Char('l') => {
                if !self.projects.is_empty() {
                    self.todo_focus = TodoFocus::Todos;
                }
            },
            Key::Down | Key::Char('j') => match self.todo_focus {
                TodoFocus::Projects => self.project_next(),
                TodoFocus::Todos => self.todo_next(),
            },
            Key::Up | Key::Char('k') => match self.todo_focus {
                TodoFocus::Projects => self.project_prev(),
                TodoFocus::Todos => self.todo_prev(),
            },
            Key::Enter | Key::Char(' ') => match self.todo_focus {
                TodoFocus::Projects => {
                    if !self.projects.is_empty() {
                        self.todo_focus = TodoFocus::Todos;
                    }
                },
                TodoFocus::Todos => self.todo_toggle(),
            },
            Key::Char('a') => match self.todo_focus {
                TodoFocus::Projects => {
                    self.adding_project = true;
                    self.project_input = String::new();
                },
                TodoFocus::Todos => {
                    if !self.projects.is_empty() {
                        self.adding_todo = true;
                        self.todo_input = String::new();
                    }
                },
            },
            Key::Char('d') | Key::Delete => match self.todo_focus {
                TodoFocus::Projects => {
                    if let Some(idx) = self.project_selected {
                        if idx < self.projects.len() {
                            self.confirm_delete = Some(DeleteTarget::Project(idx));
                        }
                    }
                },
                TodoFocus::Todos => {
                    if let (Some(pi), Some(ti)) = (self.project_selected, self.todo_selected) {
                        if pi < self.projects.len() {
                            proof { assert(self@.projects[pi as int] == self.projects@[pi as int]@); }
                            if ti < self.projects[pi].todos.len() {
                                self.confirm_delete = Some(DeleteTarget::Todo { project_idx: pi, todo_idx: ti });
                            }
                        }
                    }
                },
            },
            _ => {},
        }
    }

    /// The keys of the table tab.
    pub fn handle_table_keys(&mut self, key: Key)
        requires
            old(self).wf(),
        ensures
            final(self)@ == old(self)@.table_keys(key),
            final(self).wf(),
    {
        match key {
            Key::Down | Key::Char('j') => self.table_next(),
            Key::Up | Key::Char('k') => self.table_prev(),
            _ => {},
        }
    }

    /// Handles one key press. `now` is the time that a todo added by this
    /// key is created at. Tab and Shift+Tab switch tabs whatever is open, and
    /// cancel a pending delete. The state changes as the key asks, and what is
    /// left for the caller to do comes back.
    pub fn handle_key(&mut self, key: Key, now: i64) -> (effect: Effect)
        requires
            old(self).wf(),
        ensures
            (final(self)@, effect) == old(self)@.step(key, now),
            final(self).wf(),
    {
        proof {
            self.lemma_fits();
            law_step_keeps_wf(self@, key, now);
        }
        if let Key::Tab { shift } = key {
            self.confirm_delete = None;
            if shift {
                self.prev_tab();
            } else {
                self.next_tab();
            }
            return Effect::Nothing;
        }
        if self.adding_todo {
            match key {
                Key::Enter => self.todo_add_at(now),
                Key::Esc => {
                    self.adding_todo = false;
                    self.todo_input = String::new();
                },
                Key::Backspace => {
                    let _last = pop_char(&mut self.todo_input);
                },
                Key::Char(c) => push_char(&mut self.todo_input, c),
                _ => {},
            }
            return Effect::Nothing;
        }
        if self.adding_project {
            match key {
                Key::Enter => self.project_add(),
                Key::Esc => {
                    self.adding_project = false;
                    self.project_input = String::new();
                },
                Key::Backspace => {
                    let _last = pop_char(&mut self.project_input);
                },
                Key::Char(c) => push_char(&mut self.project_input, c),
                _ => {},
            }
            return Effect::Nothing;
        }
        if self.show_help {
            match key {
                Key::Esc | Key::Char('q') | Key::Char('?') => {
                    self.show_help = false;
                },
                _ => {},
            }
            return Effect::Nothing;
        }
        if self.confirm_delete.is_some() {
            match key {
                Key::Char('y') | Key::Enter => {
                    let target = self.confirm_delete;
                    self.confirm_delete = None;
                    match target {
                        Some(DeleteTarget::Project(_)) => self.project_delete(),
                        Some(DeleteTarget::Todo { .. }) => self.todo_delete(),
                        None => {},
                    }
                },
                _ => {
                    self.confirm_delete = None;
                },
            }
            return Effect::Nothing;
        }
        match key {
            Key::Char('q') | Key::Esc => {
                self.should_quit = true;
                Effect::Nothing
            },
            Key::Char('s') => Effect::Save,
            Key::Char('?') => {
                self.show_help = true;
                Effect::Nothing
            },
            _ => {
                if self.current_tab == 0 {
                    self.handle_todo_keys(key);
                    Effect::Nothing
                } else if self.current_tab == 1 {
                    self.handle_table_keys(key);
                    Effect::Nothing
                } else if self.current_tab == 2 {
                    handle_gauge_keys(key)
                } else {
                    Effect::Nothing
                }
            },
        }
    }

    pub fn current_tab(&self) -> (tab: usize)
        ensures
            tab == self@.current_tab,
    {
        self.current_tab
    }

    pub fn tab_titles(&self) -> (titles: &Vec<&'static str>)
        ensures
            titles_model(titles@) == self@.tab_titles,
    {
        &self.tab_titles
    }

    pub fn projects(&self) -> (projects: &Vec<Project>)
        ensures
            projects_model(projects@) == self@.projects,
    {
        &self.projects
    }

    /// Gives up the application and hands back its projects.
    pub fn into_projects(self) -> (projects: Vec<Project>)
        ensures
            projects_model(projects@) == self@.projects,
    {
        self.projects
    }

    pub fn project_selected(&self) -> (selected: Option<usize>)
        ensures
            selected == self@.project_sel,
    {
        self.project_selected
    }

    pub fn todo_selected(&self) -> (selected: Option<usize>)
        ensures
            selected == self@.todo_sel,
    {
        self.todo_selected
    }

    pub fn todo_focus(&self) -> (focus: TodoFocus)
        ensures
            focus == self@.focus,
    {
        self.todo_focus
    }

    pub fn adding_todo(&self) -> (adding: bool)
        ensures
            adding == self@.adding_todo,
    {
        self.adding_todo
    }

    pub fn todo_input(&self) -> (input: &String)
        ensures
            input@ == self@.todo_input,
    {
        &self.todo_input
    }

    pub fn adding_project(&self) -> (adding: bool)
        ensures
            adding == self@.adding_project,
    {
        self.adding_project
    }

    pub fn project_input(&self) -> (input: &String)
        ensures
            input@ == self@.project_input,
    {
        &self.project_input
    }

    pub fn table_data(&self) -> (rows: &Vec<Vec<String>>)
        ensures
            table_model(rows@) == self@.table,
    {
        &self.table_data
    }

    pub fn table_selected(&self) -> (selected: Option<usize>)
        ensures
            selected == self@.table_sel,
    {
        self.table_selected
    }

    pub fn sparkline_data(&self) -> (history: &Vec<u64>)
        ensures
            history@ == self@.history,
    {
        &self.sparkline_data
    }

    pub fn tick_count(&self) -> (count: u64)
        ensures
            count == self@.tick_count,
    {
        self.tick_count
    }

    pub fn should_quit(&self) -> (quit: bool)
        ensures
            quit == self@.should_quit,
    {
        self.should_quit
    }

    pub fn show_help(&self) -> (shown: bool)
        ensures
            shown == self@.show_help,
    {
        self.show_help
    }

    pub fn confirm_delete(&self) -> (target: Option<DeleteTarget>)
        ensures
            target == self@.confirm_delete,
    {
        self.confirm_delete
    }
}

} // verus!
