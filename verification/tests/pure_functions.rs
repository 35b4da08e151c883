use ratatui_showcase::badge::todo_fire_badge;
use ratatui_showcase::clock::{now_unix_secs, unix_secs_from};
use ratatui_showcase::defaults::{default_projects, default_projects_at};
use ratatui_showcase::input::{handle_gauge_keys, Effect, Key};
use ratatui_showcase::layout::{centered_rect, Rect};
use ratatui_showcase::model::{Project, TodoItem};
use ratatui_showcase::storage::has_column;

const DAY: i64 = 86_400;

#[test]
fn fire_badge_none_for_done_or_undated_or_future() {
    let now = 1_700_000_000;
    assert_eq!(todo_fire_badge(now - 10 * DAY, now, true), "");
    assert_eq!(todo_fire_badge(0, now, false), "");
    assert_eq!(todo_fire_badge(-5, now, false), "");
    assert_eq!(todo_fire_badge(now, now, false), "");
    assert_eq!(todo_fire_badge(now + 1, now, false), "");
}

#[test]
fn fire_badge_grows_with_age() {
    let now = 1_700_000_000;
    assert_eq!(todo_fire_badge(now - DAY + 1, now, false), "");
    assert_eq!(todo_fire_badge(now - DAY, now, false), " 🔥");
    assert_eq!(todo_fire_badge(now - 2 * DAY, now, false), " 🔥");
    assert_eq!(todo_fire_badge(now - 3 * DAY, now, false), " 🔥🔥");
    assert_eq!(todo_fire_badge(now - 5 * DAY + 1, now, false), " 🔥🔥");
    assert_eq!(todo_fire_badge(now - 5 * DAY, now, false), " 🔥🔥🔥");
    assert_eq!(todo_fire_badge(1, now, false), " 🔥🔥🔥");
}

#[test]
fn fire_badge_truncates_age_to_i32() {
    // 2^32 + 1 days truncate to 1 day.
    let days: i64 = (1i64 << 32) + 1;
    let created_at = 1;
    let now = created_at + days * DAY;
    assert_eq!(todo_fire_badge(created_at, now, false), " 🔥");
    // 2^32 days truncate to 0 days.
    let now = created_at + (1i64 << 32) * DAY;
    assert_eq!(todo_fire_badge(created_at, now, false), "");
}

#[test]
fn unix_secs_from_readings() {
    assert_eq!(unix_secs_from(Some(1_700_000_000)), 1_700_000_000);
    assert_eq!(unix_secs_from(None), 0);
    assert_eq!(unix_secs_from(Some(u64::MAX)), -1);
}

#[test]
fn now_is_after_the_epoch() {
    assert!(now_unix_secs() > 1_600_000_000);
}

fn texts(project: &Project) -> Vec<&str> {
    project.todos.iter().map(|t| t.text.as_str()).collect()
}

#[test]
fn default_projects_are_dated_from_now() {
    let now = 1_000_000_000;
    let projects = default_projects_at(now);
    assert_eq!(projects.len(), 2);
    assert_eq!(projects[0].name, "Learn Ratatui");
    assert_eq!(projects[1].name, "Build App");
    assert_eq!(
        texts(&projects[0]),
        vec![
            "Learn ratatui basics",
            "Build a layout with constraints",
            "Add keyboard navigation",
            "Style widgets with colors"
        ]
    );
    assert_eq!(
        texts(&projects[1]),
        vec!["Create a stateful list", "Handle events in a loop", "Deploy to production 🚀"]
    );
    let done: Vec<bool> = projects[0].todos.iter().map(|t| t.done).collect();
    assert_eq!(done, vec![true, true, false, false]);
    assert!(projects[1].todos.iter().all(|t| !t.done));
    let ages: Vec<i64> = projects.iter().flat_map(|p| p.todos.iter().map(|t| (now - t.created_at) / DAY)).collect();
    assert_eq!(ages, vec![6, 4, 2, 5, 1, 3, 7]);
}

#[test]
fn default_projects_wrap_at_the_edge() {
    let projects = default_projects_at(i64::MIN);
    assert_eq!(projects[0].todos[0].created_at, i64::MIN.wrapping_sub(6 * DAY));
}

#[test]
fn default_projects_now() {
    let projects = default_projects();
    assert_eq!(projects.len(), 2);
    assert_eq!(projects[0].todos.len(), 4);
    assert_eq!(projects[1].todos.len(), 3);
}

#[test]
fn done_count_counts_done_todos() {
    let project = Project::new(
        "p".to_string(),
        vec![
            TodoItem::new("a".to_string(), true, 1),
            TodoItem::new("b".to_string(), false, 1),
            TodoItem::new("c".to_string(), true, 1),
        ],
    );
    assert_eq!(project.done_count(), 2);
    assert_eq!(Project::new("e".to_string(), Vec::new()).done_count(), 0);
}

#[test]
fn gauge_keys() {
    assert_eq!(handle_gauge_keys(Key::Char('+')), Effect::RaiseUsage);
    assert_eq!(handle_gauge_keys(Key::Char('=')), Effect::RaiseUsage);
    assert_eq!(handle_gauge_keys(Key::Char('-')), Effect::LowerUsage);
    assert_eq!(handle_gauge_keys(Key::Char('r')), Effect::RestartDownload);
    assert_eq!(handle_gauge_keys(Key::Char('x')), Effect::Nothing);
    assert_eq!(handle_gauge_keys(Key::Enter), Effect::Nothing);
}

#[test]
fn centered_popup_area() {
    let area = Rect { x: 0, y: 0, width: 100, height: 50 };
    assert_eq!(centered_rect(50, 60, area), Rect { x: 25, y: 10, width: 50, height: 30 });
    let area = Rect { x: 10, y: 5, width: 80, height: 40 };
    assert_eq!(centered_rect(50, 20, area), Rect { x: 30, y: 21, width: 40, height: 8 });
}

#[test]
fn has_column_finds_names() {
    let columns = vec!["id".to_string(), "text".to_string(), "created_at".to_string()];
    assert!(has_column(&columns, &"created_at".to_string()));
    assert!(!has_column(&columns, &"position".to_string()));
    assert!(!has_column(&Vec::new(), &"created_at".to_string()));
}

#[test]
fn centered_popup_stays_inside() {
    let area = Rect { x: 3, y: 7, width: 33, height: 17 };
    for (px, py) in [(50u16, 60u16), (50, 20), (100, 100), (0, 0), (33, 77)] {
        let r = centered_rect(px, py, area);
        assert!(area.x <= r.x && r.x + r.width <= area.x + area.width);
        assert!(area.y <= r.y && r.y + r.height <= area.y + area.height);
    }
}

fn edge(start: u16, size: u16, percent: u32) -> u32 {
    let end = (start as u32 + size as u32).min(u16::MAX as u32);
    let len = end - start as u32;
    start as u32 + (len * percent + 50) / 100
}

fn expected_popup(px: u16, py: u16, area: Rect) -> Rect {
    let my = ((100 - py) / 2) as u32;
    let mx = ((100 - px) / 2) as u32;
    let top = edge(area.y, area.height, my);
    let bottom = edge(area.y, area.height, my + py as u32);
    let band = Rect { x: area.x, y: top as u16, width: area.width, height: (bottom - top) as u16 };
    let left = edge(band.x, band.width, mx);
    let right = edge(band.x, band.width, mx + px as u32);
    Rect { x: left as u16, y: band.y, width: (right - left) as u16, height: band.height }
}

#[test]
fn centered_popup_matches_rounded_percentages() {
    let areas = [
        Rect { x: 0, y: 0, width: 100, height: 50 },
        Rect { x: 3, y: 7, width: 33, height: 17 },
        Rect { x: 0, y: 0, width: 5, height: 3 },
        Rect { x: 11, y: 2, width: 211, height: 61 },
        Rect { x: 65_000, y: 65_500, width: 1_000, height: 200 },
    ];
    for area in areas {
        for px in (0u16..=100).step_by(3) {
            for py in (0u16..=100).step_by(7) {
                assert_eq!(centered_rect(px, py, area), expected_popup(px, py, area), "{px} {py} {area:?}");
            }
        }
    }
}
