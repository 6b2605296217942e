//! The weeks, days and entries that a time log holds.

use vstd::prelude::*;

verus! {

/// One entry of a day: when the work began, how long it took, what it was.
#[derive(Debug)]
pub struct Hours {
    /// A clock time such as `18:50`, or `*` for an entry that stands for a
    /// range of days.
    pub time: String,
    /// The hours spent, as the decimal text written in the log; `0` where
    /// the row names none.
    pub duration: String,
    /// A task number still to be resolved, `Meetting`, `...` for "the same as
    /// above", or the description of the task.
    pub task: String,
}

/// One day of a week, with its entries in the order of the log.
#[derive(Debug)]
pub struct Day {
    pub date: String,
    pub hours: Vec<Hours>,
}

/// One week of the log, with its days in the order of the log.
#[derive(Debug)]
pub struct Week {
    /// The text that names the week's first day, such as `Week 25.5`.
    pub week_start: String,
    pub days: Vec<Day>,
}

/// What an entry says, as plain texts.
pub struct HoursView {
    pub time: Seq<char>,
    pub duration: Seq<char>,
    pub task: Seq<char>,
}

/// What a day says: its date and its entries in order.
pub struct DayView {
    pub date: Seq<char>,
    pub hours: Seq<HoursView>,
}

/// What a week says: its label and its days in order.
pub struct WeekView {
    pub week_start: Seq<char>,
    pub days: Seq<DayView>,
}

impl View for Hours {
    type V = HoursView;

    open spec fn view(&self) -> HoursView {
        HoursView { time: self.time@, duration: self.duration@, task: self.task@ }
    }
}

/// The entries of a day as their views, in the same order.
pub open spec fn hours_view(hours: Seq<Hours>) -> Seq<HoursView> {
    Seq::new(hours.len(), |i: int| hours[i]@)
}

impl View for Day {
    type V = DayView;

    open spec fn view(&self) -> DayView {
        DayView { date: self.date@, hours: hours_view(self.hours@) }
    }
}

/// The days of a week as their views, in the same order.
pub open spec fn days_view(days: Seq<Day>) -> Seq<DayView> {
    Seq::new(days.len(), |i: int| days[i]@)
}

impl View for Week {
    type V = WeekView;

    open spec fn view(&self) -> WeekView {
        WeekView { week_start: self.week_start@, days: days_view(self.days@) }
    }
}

/// The weeks of a log as their views, in the same order.
pub open spec fn weeks_view(weeks: Seq<Week>) -> Seq<WeekView> {
    Seq::new(weeks.len(), |i: int| weeks[i]@)
}

impl Hours {
    pub fn new(time: String, duration: String, task: String) -> (r: Self)
        ensures
            r@ == (HoursView { time: time@, duration: duration@, task: task@ }),
    {
        Self { time, duration, task }
    }
}

impl Day {
    /// A day without entries.
    pub fn new(date: String) -> (r: Self)
        ensures
            r@ == (DayView { date: date@, hours: Seq::empty() }),
    {
        let r = Self { date, hours: Vec::new() };
        assert(hours_view(r.hours@) =~= Seq::empty());
        r
    }
}

impl Week {
    /// A week without days.
    pub fn new(week_start: String) -> (r: Self)
        ensures
            r@ == (WeekView { week_start: week_start@, days: Seq::empty() }),
    {
        let r = Self { week_start, days: Vec::new() };
        assert(days_view(r.days@) =~= Seq::empty());
        r
    }
}

} // verus!
