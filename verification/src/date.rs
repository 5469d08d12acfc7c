//! The week and weekday that a timetable view shows, and how the buttons move them.
use vstd::prelude::*;

verus! {

/// A position in the university calendar: a study week and a day of that week
/// (1 = Monday, ..., 7 = Sunday).
///
/// `0` in either field means "not chosen": the site then shows its current week,
/// and the bot takes today's weekday.
#[derive(Clone, Copy, Debug, PartialEq, Eq, Structural)]
pub struct Date {
    pub week: u16,
    pub weekday: u8,
}

/// The date one week earlier; week 1 is the first and stays.
pub open spec fn previous_week_of(d: Date) -> Date {
    Date { week: if d.week > 1 { (d.week - 1) as u16 } else { d.week }, weekday: d.weekday }
}

/// The date one week later; the last week a `u16` can number stays.
pub open spec fn next_week_of(d: Date) -> Date {
    Date { week: if d.week <= 65534 { (d.week + 1) as u16 } else { d.week }, weekday: d.weekday }
}

/// The day before: Monday goes back to the Sunday of the week before.
pub open spec fn previous_day_of(d: Date) -> Date {
    if d.weekday == 1 {
        Date { week: (d.week - 1) as u16, weekday: 7 }
    } else {
        Date { week: d.week, weekday: (d.weekday - 1) as u8 }
    }
}

/// The day after: Sunday goes on to the Monday of the week after.
pub open spec fn next_day_of(d: Date) -> Date {
    if d.weekday == 7 {
        Date { week: (d.week + 1) as u16, weekday: 1 }
    } else {
        Date { week: d.week, weekday: (d.weekday + 1) as u8 }
    }
}

/// `previous_day_of(d)` is defined without overflow.
pub open spec fn can_go_back_a_day(d: Date) -> bool {
    d.weekday != 0 && (d.weekday == 1 ==> d.week >= 1)
}

/// `next_day_of(d)` is defined without overflow.
pub open spec fn can_go_forward_a_day(d: Date) -> bool {
    d.weekday != 255 && (d.weekday == 7 ==> d.week < 65535)
}

/// A weekday from Monday to Sunday.
pub open spec fn is_real_weekday(d: Date) -> bool {
    1 <= d.weekday <= 7
}

/// The number of the day counted from the Monday of week 0.
pub open spec fn day_number(d: Date) -> int {
    d.week * 7 + d.weekday - 1
}

impl Date {
    /// A date with neither week nor weekday chosen.
    pub fn new() -> (d: Date)
        ensures
            d.week == 0,
            d.weekday == 0,
    {
        Date { week: 0, weekday: 0 }
    }

    /// Forget the chosen week and weekday ("this week" / "today").
    pub fn reset(&mut self)
        ensures
            final(self).week == 0,
            final(self).weekday == 0,
    {
        self.week = 0;
        self.weekday = 0;
    }

    /// Go one week back, unless already at week 1 or at no chosen week.
    pub fn previous_week(&mut self)
        ensures
            *final(self) == previous_week_of(*old(self)),
    {
        if self.week > 1 {
            self.week -= 1;
        }
    }

    /// Go one week forward, unless at the largest week number.
    pub fn next_week(&mut self)
        ensures
            *final(self) == next_week_of(*old(self)),
    {
        if self.week <= 65534 {
            self.week += 1;
        }
    }

    /// Go one day back.
    pub fn previous_day(&mut self)
        requires
            can_go_back_a_day(*old(self)),
        ensures
            *final(self) == previous_day_of(*old(self)),
    {
        if self.weekday == 1 {
            self.weekday = 7;
            self.week -= 1;
        } else {
            self.weekday -= 1;
        }
    }

    /// Go one day forward.
    pub fn next_day(&mut self)
        requires
            can_go_forward_a_day(*old(self)),
        ensures
            *final(self) == next_day_of(*old(self)),
    {
        if self.weekday == 7 {
            self.weekday = 1;
            self.week += 1;
        } else {
            self.weekday += 1;
        }
    }

    /// Whether [`Date::previous_day`] may be called on this date.
    pub fn may_go_back_a_day(&self) -> (b: bool)
        ensures
            b == can_go_back_a_day(*self),
    {
        self.weekday != 0 && (self.weekday != 1 || self.week >= 1)
    }

    /// Whether [`Date::next_day`] may be called on this date.
    pub fn may_go_forward_a_day(&self) -> (b: bool)
        ensures
            b == can_go_forward_a_day(*self),
    {
        self.weekday != 255 && (self.weekday != 7 || self.week < 65535)
    }
}

impl Default for Date {
    fn default() -> (d: Date)
        ensures
            d.week == 0,
            d.weekday == 0,
    {
        Date::new()
    }
}

/// Going a week forward and then a week back returns to the same date, for every
/// week from 1 up to the last one that can still move forward.
pub proof fn lemma_next_then_previous_week(d: Date)
    requires
        1 <= d.week <= 65534,
    ensures
        previous_week_of(next_week_of(d)) == d,
{
}

/// Going a week back and then a week forward returns to the same date, for every
/// week after week 1.
pub proof fn lemma_previous_then_next_week(d: Date)
    requires
        d.week >= 2,
    ensures
        next_week_of(previous_week_of(d)) == d,
{
}

/// Moving a week never leaves weeks 1 to 65535 once inside them, and keeps the weekday.
pub proof fn lemma_week_moves_stay_in_range(d: Date)
    requires
        d.week >= 1,
    ensures
        previous_week_of(d).week >= 1,
        next_week_of(d).week >= 1,
        previous_week_of(d).weekday == d.weekday,
        next_week_of(d).weekday == d.weekday,
{
}

/// Going a day forward and then a day back returns to the same date.
pub proof fn lemma_next_then_previous_day(d: Date)
    requires
        is_real_weekday(d),
        can_go_forward_a_day(d),
    ensures
        can_go_back_a_day(next_day_of(d)),
        previous_day_of(next_day_of(d)) == d,
{
}

/// Going a day back and then a day forward returns to the same date.
pub proof fn lemma_previous_then_next_day(d: Date)
    requires
        is_real_weekday(d),
        can_go_back_a_day(d),
    ensures
        can_go_forward_a_day(previous_day_of(d)),
        next_day_of(previous_day_of(d)) == d,
{
}

/// Day moves keep the weekday between Monday and Sunday and move the day count by
/// exactly one.
pub proof fn lemma_day_moves_count_days(d: Date)
    requires
        is_real_weekday(d),
    ensures
        can_go_forward_a_day(d) ==> is_real_weekday(next_day_of(d)) && day_number(next_day_of(d))
            == day_number(d) + 1,
        can_go_back_a_day(d) ==> is_real_weekday(previous_day_of(d)) && day_number(
            previous_day_of(d),
        ) == day_number(d) - 1,
{
}

} // verus!
