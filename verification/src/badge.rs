use vstd::prelude::*;

verus! {

/// Seconds in a day.
pub const SECS_PER_DAY: i64 = 86_400;

/// How many flames an open todo shows, from none (0) to three (3).
///
/// A done todo, one without a positive creation time, or one whose creation
/// time is not before `now` shows none. Otherwise the age in whole days,
/// truncated to an `i32`, decides: 0 days none, 1 or 2 days one flame,
/// 3 or 4 days two, any other value three.
pub open spec fn fire_level(created_at: i64, now: i64, done: bool) -> nat {
    if done || created_at <= 0 || now <= created_at {
        0
    } else {
        let age_days = ((now - created_at) / (SECS_PER_DAY as int)) as i32;
        if age_days == 0 {
            0
        } else if age_days == 1 || age_days == 2 {
            1
        } else if age_days == 3 || age_days == 4 {
            2
        } else {
            3
        }
    }
}

/// The text shown behind a todo for a flame level: a space and that many flames.
pub open spec fn fire_badge_text(level: nat) -> Seq<char> {
    if level == 0 {
        seq![]
    } else if level == 1 {
        seq![' ', '\u{1F525}']
    } else if level == 2 {
        seq![' ', '\u{1F525}', '\u{1F525}']
    } else {
        seq![' ', '\u{1F525}', '\u{1F525}', '\u{1F525}']
    }
}

/// The badge that marks how long an open todo has been waiting.
pub fn todo_fire_badge(created_at: i64, now: i64, done: bool) -> (badge: &'static str)
    ensures
        badge@ == fire_badge_text(fire_level(created_at, now, done)),
{
    proof {
        reveal_strlit("");
        reveal_strlit(" \u{1F525}");
        reveal_strlit(" \u{1F525}\u{1F525}");
        reveal_strlit(" \u{1F525}\u{1F525}\u{1F525}");
    }
    if done || created_at <= 0 || now <= created_at {
        return "";
    }
    let age_days: i32 = ((now - created_at) / SECS_PER_DAY) as i32;
    if age_days == 0 {
        ""
    } else if age_days == 1 || age_days == 2 {
        " \u{1F525}"
    } else if age_days == 3 || age_days == 4 {
        " \u{1F525}\u{1F525}"
    } else {
        " \u{1F525}\u{1F525}\u{1F525}"
    }
}

/// The age of a todo in whole days.
pub open spec fn age_in_days(created_at: i64, now: i64) -> int {
    (now - created_at) / (SECS_PER_DAY as int)
}

/// A done todo never shows flames.
pub proof fn law_done_todo_has_no_flames(created_at: i64, now: i64)
    ensures
        fire_level(created_at, now, true) == 0,
{
}

/// For an open, dated todo whose age in days fits an `i32`: no flame under
/// a day, one flame at 1 or 2 days, two at 3 or 4, three from 5 days on.
pub proof fn law_fire_level_by_age(created_at: i64, now: i64)
    requires
        0 < created_at < now,
        age_in_days(created_at, now) <= i32::MAX,
    ensures
        age_in_days(created_at, now) == 0 ==> fire_level(created_at, now, false) == 0,
        1 <= age_in_days(created_at, now) <= 2 ==> fire_level(created_at, now, false) == 1,
        3 <= age_in_days(created_at, now) <= 4 ==> fire_level(created_at, now, false) == 2,
        5 <= age_in_days(created_at, now) ==> fire_level(created_at, now, false) == 3,
{
    assert(age_in_days(created_at, now) >= 0);
}

/// An open todo never loses flames as time passes, while its age in days
/// fits an `i32`.
pub proof fn law_fire_level_grows_with_time(created_at: i64, earlier: i64, later: i64)
    requires
        earlier <= later,
        0 < created_at < later,
        age_in_days(created_at, later) <= i32::MAX,
    ensures
        fire_level(created_at, earlier, false) <= fire_level(created_at, later, false),
        fire_level(created_at, later, false) <= 3,
{
    law_fire_level_by_age(created_at, later);
    if created_at < earlier {
        vstd::arithmetic::div_mod::lemma_div_is_ordered(
            earlier - created_at,
            later - created_at,
            SECS_PER_DAY as int,
        );
        law_fire_level_by_age(created_at, earlier);
    }
}

/// The badge for a level is empty for level 0, and otherwise a space
/// followed by exactly as many flames as the level.
pub proof fn law_badge_shows_level(level: nat)
    requires
        level <= 3,
    ensures
        level == 0 ==> fire_badge_text(level).len() == 0,
        level > 0 ==> fire_badge_text(level).len() == level + 1,
        level > 0 ==> fire_badge_text(level)[0] == ' ',
        forall|i: int| 1 <= i <= level ==> #[trigger] fire_badge_text(level)[i] == '\u{1F525}',
{
}

} // verus!
