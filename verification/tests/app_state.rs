use ratatui_showcase::dashboard::App;
use ratatui_showcase::input::{DeleteTarget, Effect, Key, TodoFocus};
use ratatui_showcase::model::{Project, TodoItem};

const NOW: i64 = 1_700_000_000;

fn project(name: &str, todos: &[&str]) -> Project {
    Project::new(
        name.to_string(),
        todos.iter().map(|t| TodoItem::new(t.to_string(), false, NOW)).collect(),
    )
}

fn sample_app() -> App {
    App::new(vec![project("A", &["a1", "a2", "a3"]), project("B", &[]), project("C", &["c1"])])
}

fn press(app: &mut App, keys: &[Key]) -> Vec<Effect> {
    keys.iter().map(|k| app.handle_key(*k, NOW)).collect()
}

fn type_text(app: &mut App, text: &str) {
    for c in text.chars() {
        assert_eq!(app.handle_key(Key::Char(c), NOW), Effect::Nothing);
    }
}

fn names(app: &App) -> Vec<String> {
    app.projects().iter().map(|p| p.name.clone()).collect()
}

fn todo_texts(app: &App, pi: usize) -> Vec<String> {
    app.projects()[pi].todos.iter().map(|t| t.text.clone()).collect()
}

#[test]
fn new_app_initial_state() {
    let app = sample_app();
    assert_eq!(app.current_tab(), 0);
    assert_eq!(app.tab_titles().len(), 5);
    assert_eq!(app.tab_titles()[0], "📝 Todo");
    assert_eq!(app.tab_titles()[4], "📖 About");
    assert_eq!(app.project_selected(), Some(0));
    assert_eq!(app.todo_selected(), Some(0));
    assert_eq!(app.todo_focus(), TodoFocus::Projects);
    assert!(!app.adding_todo() && !app.adding_project() && !app.show_help() && !app.should_quit());
    assert_eq!(app.confirm_delete(), None);
    assert_eq!(app.table_data().len(), 10);
    assert_eq!(app.table_data()[0], vec!["ratatui", "0.29", "TUI framework", "★★★★★"]);
    assert_eq!(app.table_data()[9], vec!["colored", "2.0", "Terminal colors", "★★★☆☆"]);
    assert_eq!(app.table_selected(), Some(0));
    assert_eq!(app.sparkline_data(), &vec![0u64; 60]);
    assert_eq!(app.tick_count(), 0);
}

#[test]
fn new_app_without_todos_in_first_project() {
    let app = App::new(vec![project("Empty", &[]), project("Full", &["x"])]);
    assert_eq!(app.project_selected(), Some(0));
    assert_eq!(app.todo_selected(), None);
}

#[test]
fn new_app_without_saved_projects_uses_samples() {
    let app = App::new(Vec::new());
    assert_eq!(names(&app), vec!["Learn Ratatui", "Build App"]);
    assert_eq!(app.project_selected(), Some(0));
    assert_eq!(app.todo_selected(), Some(0));
}

#[test]
fn tab_and_shift_tab_switch_tabs() {
    let mut app = sample_app();
    press(&mut app, &[Key::Tab { shift: false }]);
    assert_eq!(app.current_tab(), 1);
    press(&mut app, &[Key::Tab { shift: false }; 4]);
    assert_eq!(app.current_tab(), 0);
    press(&mut app, &[Key::Tab { shift: true }]);
    assert_eq!(app.current_tab(), 4);
    press(&mut app, &[Key::Tab { shift: true }]);
    assert_eq!(app.current_tab(), 3);
}

#[test]
fn project_navigation_wraps_and_resets_todo() {
    let mut app = sample_app();
    press(&mut app, &[Key::Char('j')]);
    assert_eq!(app.project_selected(), Some(1));
    assert_eq!(app.todo_selected(), None);
    press(&mut app, &[Key::Down]);
    assert_eq!(app.project_selected(), Some(2));
    assert_eq!(app.todo_selected(), Some(0));
    press(&mut app, &[Key::Down]);
    assert_eq!(app.project_selected(), Some(0));
    press(&mut app, &[Key::Up]);
    assert_eq!(app.project_selected(), Some(2));
    press(&mut app, &[Key::Char('k')]);
    assert_eq!(app.project_selected(), Some(1));
}

#[test]
fn todo_navigation_wraps() {
    let mut app = sample_app();
    press(&mut app, &[Key::Right]);
    assert_eq!(app.todo_focus(), TodoFocus::Todos);
    press(&mut app, &[Key::Down, Key::Down]);
    assert_eq!(app.todo_selected(), Some(2));
    press(&mut app, &[Key::Down]);
    assert_eq!(app.todo_selected(), Some(0));
    press(&mut app, &[Key::Up]);
    assert_eq!(app.todo_selected(), Some(2));
    press(&mut app, &[Key::Char('h')]);
    assert_eq!(app.todo_focus(), TodoFocus::Projects);
}

#[test]
fn enter_focuses_todos_then_toggles() {
    let mut app = sample_app();
    press(&mut app, &[Key::Enter]);
    assert_eq!(app.todo_focus(), TodoFocus::Todos);
    press(&mut app, &[Key::Down, Key::Char(' ')]);
    assert!(app.projects()[0].todos[1].done);
    press(&mut app, &[Key::Enter]);
    assert!(!app.projects()[0].todos[1].done);
}

#[test]
fn add_project_by_typing() {
    let mut app = sample_app();
    press(&mut app, &[Key::Char('a')]);
    assert!(app.adding_project());
    type_text(&mut app, "Newx");
    press(&mut app, &[Key::Backspace]);
    assert_eq!(app.project_input(), "New");
    press(&mut app, &[Key::Enter]);
    assert!(!app.adding_project());
    assert_eq!(names(&app), vec!["A", "B", "C", "New"]);
    assert_eq!(app.project_selected(), Some(3));
    assert_eq!(app.todo_selected(), None);
    assert_eq!(app.project_input(), "");
}

#[test]
fn empty_project_name_adds_nothing() {
    let mut app = sample_app();
    press(&mut app, &[Key::Char('a'), Key::Backspace, Key::Enter]);
    assert!(!app.adding_project());
    assert_eq!(names(&app), vec!["A", "B", "C"]);
}

#[test]
fn escape_cancels_project_input() {
    let mut app = sample_app();
    press(&mut app, &[Key::Char('a')]);
    type_text(&mut app, "zz");
    press(&mut app, &[Key::Esc]);
    assert!(!app.adding_project());
    assert_eq!(app.project_input(), "");
    assert_eq!(names(&app), vec!["A", "B", "C"]);
    assert!(!app.should_quit());
}

#[test]
fn add_todo_by_typing() {
    let mut app = sample_app();
    press(&mut app, &[Key::Right, Key::Char('a')]);
    assert!(app.adding_todo());
    type_text(&mut app, "write tests");
    let effects = press(&mut app, &[Key::Enter]);
    assert_eq!(effects, vec![Effect::Nothing]);
    assert_eq!(todo_texts(&app, 0), vec!["a1", "a2", "a3", "write tests"]);
    let added = &app.projects()[0].todos[3];
    assert!(!added.done);
    assert_eq!(added.created_at, NOW);
    assert_eq!(app.todo_selected(), Some(3));
    assert_eq!(app.todo_input(), "");
}

#[test]
fn escape_cancels_todo_input() {
    let mut app = sample_app();
    press(&mut app, &[Key::Right, Key::Char('a'), Key::Char('x'), Key::Esc]);
    assert!(!app.adding_todo());
    assert_eq!(app.todo_input(), "");
    assert_eq!(todo_texts(&app, 0), vec!["a1", "a2", "a3"]);
}

#[test]
fn delete_todo_after_confirmation() {
    let mut app = sample_app();
    press(&mut app, &[Key::Right, Key::Down, Key::Char('d')]);
    assert_eq!(app.confirm_delete(), Some(DeleteTarget::Todo { project_idx: 0, todo_idx: 1 }));
    press(&mut app, &[Key::Char('y')]);
    assert_eq!(app.confirm_delete(), None);
    assert_eq!(todo_texts(&app, 0), vec!["a1", "a3"]);
    assert_eq!(app.todo_selected(), Some(1));
    press(&mut app, &[Key::Delete, Key::Enter]);
    assert_eq!(todo_texts(&app, 0), vec!["a1"]);
    assert_eq!(app.todo_selected(), Some(0));
    press(&mut app, &[Key::Delete, Key::Enter]);
    assert!(todo_texts(&app, 0).is_empty());
    assert_eq!(app.todo_selected(), None);
    press(&mut app, &[Key::Delete]);
    assert_eq!(app.confirm_delete(), None);
}

#[test]
fn other_key_cancels_delete() {
    let mut app = sample_app();
    press(&mut app, &[Key::Char('d')]);
    assert_eq!(app.confirm_delete(), Some(DeleteTarget::Project(0)));
    press(&mut app, &[Key::Char('n')]);
    assert_eq!(app.confirm_delete(), None);
    assert_eq!(names(&app), vec!["A", "B", "C"]);
    assert!(!app.should_quit());
}

#[test]
fn delete_projects_until_none_left() {
    let mut app = sample_app();
    press(&mut app, &[Key::Up, Key::Char('d'), Key::Char('y')]);
    assert_eq!(names(&app), vec!["A", "B"]);
    assert_eq!(app.project_selected(), Some(1));
    assert_eq!(app.todo_selected(), None);
    press(&mut app, &[Key::Char('d'), Key::Enter, Key::Char('d'), Key::Enter]);
    assert!(names(&app).is_empty());
    assert_eq!(app.project_selected(), None);
    assert_eq!(app.todo_selected(), None);
    press(&mut app, &[Key::Right, Key::Enter, Key::Char('d')]);
    assert_eq!(app.todo_focus(), TodoFocus::Projects);
    assert_eq!(app.confirm_delete(), None);
}

#[test]
fn help_popup_swallows_keys() {
    let mut app = sample_app();
    press(&mut app, &[Key::Char('?')]);
    assert!(app.show_help());
    let effects = press(&mut app, &[Key::Char('s'), Key::Down, Key::Char('a')]);
    assert_eq!(effects, vec![Effect::Nothing; 3]);
    assert_eq!(app.project_selected(), Some(0));
    assert!(!app.adding_project());
    assert_eq!(app.current_tab(), 0);
    press(&mut app, &[Key::Char('q')]);
    assert!(!app.show_help());
    assert!(!app.should_quit());
}

#[test]
fn quit_and_save_keys() {
    let mut app = sample_app();
    assert_eq!(press(&mut app, &[Key::Char('s')]), vec![Effect::Save]);
    assert!(!app.should_quit());
    press(&mut app, &[Key::Esc]);
    assert!(app.should_quit());
    let mut app = sample_app();
    press(&mut app, &[Key::Char('q')]);
    assert!(app.should_quit());
}

#[test]
fn table_navigation_wraps() {
    let mut app = sample_app();
    press(&mut app, &[Key::Tab { shift: false }, Key::Up]);
    assert_eq!(app.table_selected(), Some(9));
    press(&mut app, &[Key::Char('j'), Key::Char('j')]);
    assert_eq!(app.table_selected(), Some(1));
    press(&mut app, &[Key::Char('k')]);
    assert_eq!(app.table_selected(), Some(0));
}

#[test]
fn gauge_tab_reports_effects() {
    let mut app = sample_app();
    press(&mut app, &[Key::Tab { shift: false }, Key::Tab { shift: false }]);
    assert_eq!(
        press(&mut app, &[Key::Char('+'), Key::Char('-'), Key::Char('r'), Key::Char('x')]),
        vec![Effect::RaiseUsage, Effect::LowerUsage, Effect::RestartDownload, Effect::Nothing]
    );
    press(&mut app, &[Key::Tab { shift: false }]);
    assert_eq!(press(&mut app, &[Key::Char('+')]), vec![Effect::Nothing]);
}

#[test]
fn other_tabs_ignore_todo_keys() {
    let mut app = sample_app();
    press(&mut app, &[Key::Tab { shift: true }, Key::Down, Key::Char('a'), Key::Char('d')]);
    assert_eq!(app.project_selected(), Some(0));
    assert!(!app.adding_project());
    assert_eq!(app.confirm_delete(), None);
}

#[test]
fn tick_keeps_sixty_capped_samples() {
    let mut app = sample_app();
    app.tick(42);
    app.tick(250);
    assert_eq!(app.tick_count(), 2);
    let history = app.sparkline_data();
    assert_eq!(history.len(), 60);
    assert_eq!(history[58], 42);
    assert_eq!(history[59], 100);
    assert_eq!(history[0], 0);
}

#[test]
fn navigation_round_trips() {
    let mut app = sample_app();
    press(&mut app, &[Key::Right, Key::Down]);
    let before = app.todo_selected();
    press(&mut app, &[Key::Down, Key::Up]);
    assert_eq!(app.todo_selected(), before);
    press(&mut app, &[Key::Up, Key::Down]);
    assert_eq!(app.todo_selected(), before);
    app.next_tab();
    app.prev_tab();
    assert_eq!(app.current_tab(), 0);
    app.table_next();
    app.table_prev();
    assert_eq!(app.table_selected(), Some(0));
}

#[test]
fn toggle_twice_restores() {
    let mut app = sample_app();
    press(&mut app, &[Key::Right]);
    app.todo_toggle();
    assert!(app.projects()[0].todos[0].done);
    app.todo_toggle();
    assert!(!app.projects()[0].todos[0].done);
}

#[test]
fn add_then_delete_restores_projects() {
    let mut app = sample_app();
    press(&mut app, &[Key::Char('a'), Key::Char('Z'), Key::Enter, Key::Char('d'), Key::Char('y')]);
    assert_eq!(names(&app), vec!["A", "B", "C"]);
    press(&mut app, &[Key::Char('k'), Key::Char('k'), Key::Right, Key::Char('a'), Key::Char('t'), Key::Enter]);
    assert_eq!(todo_texts(&app, 0), vec!["a1", "a2", "a3", "t"]);
    press(&mut app, &[Key::Char('d'), Key::Enter]);
    assert_eq!(todo_texts(&app, 0), vec!["a1", "a2", "a3"]);
}

#[test]
fn todo_add_uses_the_clock() {
    let mut app = sample_app();
    press(&mut app, &[Key::Right, Key::Char('a'), Key::Char('n')]);
    app.todo_add();
    let added = &app.projects()[0].todos[3];
    assert_eq!(added.text, "n");
    assert!(added.created_at > 1_600_000_000);
}

#[test]
fn into_projects_hands_back_projects() {
    let app = sample_app();
    let projects = app.into_projects();
    assert_eq!(projects.len(), 3);
    assert_eq!(projects[2].todos[0].text, "c1");
}

#[test]
fn tab_switches_while_typing() {
    let mut app = sample_app();
    press(&mut app, &[Key::Char('a'), Key::Char('x')]);
    press(&mut app, &[Key::Tab { shift: false }]);
    assert_eq!(app.current_tab(), 1);
    assert!(app.adding_project());
    assert_eq!(app.project_input(), "x");
    press(&mut app, &[Key::Tab { shift: true }]);
    assert_eq!(app.current_tab(), 0);
    assert_eq!(app.project_input(), "x");
}

#[test]
fn tab_switches_with_help_or_confirmation_open() {
    let mut app = sample_app();
    press(&mut app, &[Key::Char('?'), Key::Tab { shift: true }]);
    assert_eq!(app.current_tab(), 4);
    assert!(app.show_help());
    press(&mut app, &[Key::Esc, Key::Tab { shift: false }, Key::Char('d')]);
    assert_eq!(app.current_tab(), 0);
    assert_eq!(app.confirm_delete(), Some(DeleteTarget::Project(0)));
    press(&mut app, &[Key::Tab { shift: false }]);
    assert_eq!(app.current_tab(), 1);
    assert_eq!(app.confirm_delete(), None);
    assert_eq!(names(&app), vec!["A", "B", "C"]);
}

#[test]
fn tab_cancels_delete_so_q_quits() {
    let mut app = App::new(vec![project("A", &[]), project("B", &[])]);
    press(&mut app, &[Key::Char('d'), Key::Tab { shift: false }, Key::Char('q')]);
    assert!(app.should_quit());
    assert_eq!(names(&app), vec!["A", "B"]);
}

#[test]
fn history_shifts_on_tick() {
    let mut app = sample_app();
    for sample in 1..=61u64 {
        app.tick(sample);
    }
    let history = app.sparkline_data();
    assert_eq!(history.len(), 60);
    assert_eq!(history[0], 2);
    assert_eq!(history[57], 59);
    assert_eq!(history[58], 60);
    assert_eq!(history[59], 61);
    assert!(history.iter().all(|v| *v <= 100));
}
