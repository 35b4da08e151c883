use vstd::prelude::*;
use ratatui::layout::{Constraint, Direction, Layout};

verus! {

/// A rectangle of terminal cells: its top left corner and its size.
#[derive(Clone, Copy, Debug, PartialEq, Eq, Structural)]
pub struct Rect {
    pub x: u16,
    pub y: u16,
    pub width: u16,
    pub height: u16,
}

/// `part` lies in `area`: it spans all of `area` across the direction of the
/// split and stays between its edges along it.
pub open spec fn part_of(part: Rect, area: Rect, vertical: bool) -> bool {
    if vertical {
        &&& part.x == area.x
        &&& part.width == area.width
        &&& area.y <= part.y
        &&& part.y + part.height <= area.y + area.height
    } else {
        &&& part.y == area.y
        &&& part.height == area.height
        &&& area.x <= part.x
        &&& part.x + part.width <= area.x + area.width
    }
}

/// `inner` lies within `outer`.
pub open spec fn inside(inner: Rect, outer: Rect) -> bool {
    &&& outer.x <= inner.x
    &&& inner.x + inner.width <= outer.x + outer.width
    &&& outer.y <= inner.y
    &&& inner.y + inner.height <= outer.y + outer.height
}

/// The length of `size` cells from `start` that a `u16` coordinate can
/// reach: ratatui ends an area at `start + size`, held to `u16::MAX`.
pub open spec fn reachable_len(start: u16, size: u16) -> int {
    (if start + size > u16::MAX { u16::MAX as int } else { start + size }) - start
}

/// The coordinate at which `percent` percent of `len` cells from `start`
/// ends, rounded to the nearest cell, halves up.
pub open spec fn percent_edge(start: u16, len: int, percent: int) -> int {
    start + (len * percent + 50) / 100
}

/// The part of `area` that lies between `before` and `upto` percent of its
/// length, along the height where `vertical` holds and along the width
/// otherwise; across the split it spans all of `area`.
pub open spec fn percent_part(vertical: bool, area: Rect, before: int, upto: int) -> Rect {
    if vertical {
        let len = reachable_len(area.y, area.height);
        let from = percent_edge(area.y, len, before);
        Rect { x: area.x, y: from as u16, width: area.width, height: (percent_edge(area.y, len, upto) - from) as u16 }
    } else {
        let len = reachable_len(area.x, area.width);
        let from = percent_edge(area.x, len, before);
        Rect { x: from as u16, y: area.y, width: (percent_edge(area.x, len, upto) - from) as u16, height: area.height }
    }
}

/// Calls ratatui's `Layout::split` on a layout in the given direction with the
/// constraints `Percentage(a)`, `Percentage(b)`, `Percentage(c)`, which
/// together ask for no more than the whole area.
///
/// Claimed: the three parts follow each other from the start of `area`, the
/// first taking `a` percent of its length, the next `b`, the last `c`, each
/// edge rounded to the nearest cell, halves up; across the split each part
/// spans all of `area`. This is what ratatui's solver gives here: the
/// percentages fit together, so each is met exactly (`Percentage(p)` asks
/// for a size of `p / 100` of the area, at a strength above the other soft
/// constraints), the first spacer is empty and the room left over goes to
/// the last spacer under the default `Flex::Start`; the solver works in
/// hundredths of a cell, and `changes_to_rects` rounds each edge to whole
/// hundredths and then to whole cells. The area ends at `Rect::right` or
/// `Rect::bottom`, which saturate at `u16::MAX`.
#[verifier::external_body]
fn split_by_percent(vertical: bool, a: u16, b: u16, c: u16, area: Rect) -> (parts: Vec<Rect>)
    requires
        a + b + c <= 100,
    ensures
        parts@.len() == 3,
        parts@[0] == percent_part(vertical, area, 0, a as int),
        parts@[1] == percent_part(vertical, area, a as int, a + b),
        parts@[2] == percent_part(vertical, area, a + b, a + b + c),
{
    let direction = match vertical { true => Direction::Vertical, false => Direction::Horizontal };
    let area = ratatui::layout::Rect { x: area.x, y: area.y, width: area.width, height: area.height };
    let constraints = [Constraint::Percentage(a), Constraint::Percentage(b), Constraint::Percentage(c)];
    let parts = Layout::default().direction(direction).constraints(constraints).split(area);
    parts.iter().map(|r| Rect { x: r.x, y: r.y, width: r.width, height: r.height }).collect()
}

/// The area of a popup that takes `percent_x` of the width and `percent_y` of
/// the height of `area`, centred in it: the middle of three horizontal parts
/// (margin, `percent_x`, margin) of the middle of three vertical parts
/// (margin, `percent_y`, margin), each margin half of what is left, rounded down.
pub open spec fn centered_rect_spec(percent_x: u16, percent_y: u16, area: Rect) -> Rect {
    let margin_y = (100 - percent_y) / 2;
    let margin_x = (100 - percent_x) / 2;
    let band = percent_part(true, area, margin_y, margin_y + percent_y);
    percent_part(false, band, margin_x, margin_x + percent_x)
}

/// A part between two percentages lies in the area it was cut from.
pub proof fn lemma_part_of(vertical: bool, area: Rect, before: int, upto: int)
    requires
        0 <= before <= upto <= 100,
    ensures
        part_of(percent_part(vertical, area, before, upto), area, vertical),
{
    let start = if vertical { area.y } else { area.x };
    let size = if vertical { area.height } else { area.width };
    let len = reachable_len(start, size);
    assert(0 <= len * before <= len * upto <= len * 100) by (nonlinear_arith)
        requires
            0 <= len,
            0 <= before <= upto <= 100;
    assert((len * before + 50) / 100 <= (len * upto + 50) / 100) by (nonlinear_arith)
        requires
            len * before <= len * upto;
    assert((len * upto + 50) / 100 <= len) by (nonlinear_arith)
        requires
            0 <= len,
            len * upto <= len * 100;
}

/// The centred area of a popup: the middle band of a vertical three-way
/// split, itself split three ways horizontally, and its middle part.
pub fn centered_rect(percent_x: u16, percent_y: u16, area: Rect) -> (popup: Rect)
    requires
        percent_x <= 100,
        percent_y <= 100,
    ensures
        popup == centered_rect_spec(percent_x, percent_y, area),
        inside(popup, area),
{
    let margin_y: u16 = (100 - percent_y) / 2;
    let rows = split_by_percent(true, margin_y, percent_y, margin_y, area);
    let band = rows[1];
    proof {
        lemma_part_of(true, area, margin_y as int, (margin_y + percent_y) as int);
    }
    let margin_x: u16 = (100 - percent_x) / 2;
    let columns = split_by_percent(false, margin_x, percent_x, margin_x, band);
    let popup = columns[1];
    proof {
        lemma_part_of(false, band, margin_x as int, (margin_x + percent_x) as int);
    }
    popup
}

} // verus!
