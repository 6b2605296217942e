//! The growing log: how a week header, a table row and a task definition
//! change the weeks gathered so far.

use crate::error::ParseError;
use crate::extract::{RowCells, RowCellsView, TaskType};
use crate::model::{days_view, hours_view, weeks_view, Day, DayView, Hours, HoursView, Week, WeekView};
use vstd::prelude::*;

verus! {

/// A table row as the log takes it in: its first cell, the hours spent and
/// the task.
#[derive(Debug)]
pub struct Row {
    pub cells: RowCells,
    pub duration: String,
    pub task_type: TaskType,
    pub task: String,
}

/// A table row as plain texts.
pub struct RowView {
    pub cells: RowCellsView,
    pub duration: Seq<char>,
    pub task_type: TaskType,
    pub task: Seq<char>,
}

impl View for Row {
    type V = RowView;

    open spec fn view(&self) -> RowView {
        RowView {
            cells: self.cells@,
            duration: self.duration@,
            task_type: self.task_type,
            task: self.task@,
        }
    }
}

/// The message of the failure that a task definition inside a table row
/// gives rise to.
pub open spec fn malformed_row_message() -> Seq<char> {
    "Invalid format for task in date table"@
}

/// The entry that a row stands for, begun at `time`.
pub open spec fn row_entry(time: Seq<char>, row: RowView) -> HoursView {
    HoursView { time, duration: row.duration, task: row.task }
}

/// The weeks with one more week at the end, labelled `label` and without days.
pub open spec fn with_week(weeks: Seq<WeekView>, label: Seq<char>) -> Seq<WeekView> {
    weeks.push(WeekView { week_start: label, days: Seq::empty() })
}

/// The days with one more entry at the end of the last day; unchanged where
/// there is no day.
pub open spec fn with_entry(days: Seq<DayView>, entry: HoursView) -> Seq<DayView> {
    if days.len() == 0 {
        days
    } else {
        let last = days.last();
        days.update(days.len() - 1, DayView { date: last.date, hours: last.hours.push(entry) })
    }
}

/// The days of a week after a table row.
///
/// A row with a date opens a day of that date; if it also has a clock time,
/// the day gets the row's entry at that time. A row without a date but with a
/// range of days opens a day named by the range, with the row's one entry at
/// the time `*`. A row with a clock time alone adds its entry to the last day,
/// if there is one.
pub open spec fn days_after_row(days: Seq<DayView>, row: RowView) -> Seq<DayView> {
    if row.cells.date is Some {
        let opened = days.push(DayView { date: row.cells.date->0, hours: Seq::empty() });
        if row.cells.time is Some {
            with_entry(opened, row_entry(row.cells.time->0, row))
        } else {
            opened
        }
    } else if row.cells.range is Some {
        days.push(DayView { date: row.cells.range->0, hours: seq![row_entry("*"@, row)] })
    } else if row.cells.time is Some {
        with_entry(days, row_entry(row.cells.time->0, row))
    } else {
        days
    }
}

/// Whether the log refuses a row: there is a week to take it, and its task is
/// a task definition, which has no place in a table.
pub open spec fn row_refused(weeks: Seq<WeekView>, row: RowView) -> bool {
    weeks.len() > 0 && row.task_type == TaskType::TaskString
}

/// The weeks after a table row: the row goes to the last week, and is
/// dropped where there is no week yet.
pub open spec fn weeks_after_row(weeks: Seq<WeekView>, row: RowView) -> Seq<WeekView> {
    if weeks.len() == 0 {
        weeks
    } else {
        let last = weeks.last();
        weeks.update(
            weeks.len() - 1,
            WeekView { week_start: last.week_start, days: days_after_row(last.days, row) },
        )
    }
}

/// A row with a date and a clock time opens exactly one day in the last
/// week, and that day holds exactly one entry, at the row's time. The days
/// before it and the other weeks stay as they were.
pub proof fn lemma_dated_row_opens_one_day(weeks: Seq<WeekView>, row: RowView)
    requires
        weeks.len() > 0,
        row.cells.date is Some,
        row.cells.time is Some,
    ensures
        ({
            let after = weeks_after_row(weeks, row);
            let day = DayView {
                date: row.cells.date->0,
                hours: seq![row_entry(row.cells.time->0, row)],
            };
            &&& after.len() == weeks.len()
            &&& after.drop_last() == weeks.drop_last()
            &&& after.last().week_start == weeks.last().week_start
            &&& after.last().days == weeks.last().days.push(day)
            &&& day.hours.len() == 1
        }),
{
    let after = weeks_after_row(weeks, row);
    let entry = row_entry(row.cells.time->0, row);
    let day = DayView { date: row.cells.date->0, hours: seq![entry] };
    assert(Seq::<HoursView>::empty().push(entry) =~= seq![entry]);
    assert(after.last().days =~= weeks.last().days.push(day));
    assert(after.drop_last() =~= weeks.drop_last());
}

/// A row with a range of days and no date opens exactly one day in the last
/// week, named by the range, and that day holds exactly one entry, whose
/// time is `*`. The days before it and the other weeks stay as they were.
pub proof fn lemma_range_row_opens_one_day(weeks: Seq<WeekView>, row: RowView)
    requires
        weeks.len() > 0,
        row.cells.date is None,
        row.cells.range is Some,
    ensures
        ({
            let after = weeks_after_row(weeks, row);
            let day = DayView { date: row.cells.range->0, hours: seq![row_entry("*"@, row)] };
            &&& after.len() == weeks.len()
            &&& after.drop_last() == weeks.drop_last()
            &&& after.last().week_start == weeks.last().week_start
            &&& after.last().days == weeks.last().days.push(day)
            &&& day.hours.len() == 1
            &&& day.hours[0].time == "*"@
        }),
{
    let after = weeks_after_row(weeks, row);
    assert(after.drop_last() =~= weeks.drop_last());
}

/// Before the first week a row is dropped: it is not refused, and the log
/// stays empty.
pub proof fn lemma_row_before_first_week_is_dropped(row: RowView)
    ensures
        !row_refused(Seq::empty(), row),
        weeks_after_row(Seq::empty(), row) == Seq::<WeekView>::empty(),
{
}

impl Day {
    /// Adds an entry at the end of the day.
    pub fn push_entry(&mut self, entry: Hours)
        ensures
            final(self)@ == (DayView {
                date: old(self)@.date,
                hours: old(self)@.hours.push(entry@),
            }),
    {
        self.hours.push(entry);
        assert(hours_view(self.hours@) =~= hours_view(old(self).hours@).push(entry@));
    }
}

impl Week {
    /// Adds a day at the end of the week.
    pub fn push_day(&mut self, day: Day)
        ensures
            final(self)@ == (WeekView {
                week_start: old(self)@.week_start,
                days: old(self)@.days.push(day@),
            }),
    {
        self.days.push(day);
        assert(days_view(self.days@) =~= days_view(old(self).days@).push(day@));
    }

    /// Adds an entry at the end of the week's last day; does nothing where
    /// the week has no day.
    pub fn push_entry(&mut self, entry: Hours)
        ensures
            final(self)@ == (WeekView {
                week_start: old(self)@.week_start,
                days: with_entry(old(self)@.days, entry@),
            }),
    {
        let n = self.days.len();
        if n > 0 {
            self.days[n - 1].push_entry(entry);
            assert(days_view(self.days@) =~= with_entry(days_view(old(self).days@), entry@));
        }
    }

    /// Takes a table row into the week.
    pub fn add_row(&mut self, row: Row)
        ensures
            final(self)@ == (WeekView {
                week_start: old(self)@.week_start,
                days: days_after_row(old(self)@.days, row@),
            }),
    {
        let Row { cells, duration, task_type: _, task } = row;
        let RowCells { date, time, range } = cells;
        match date {
            Some(date) => {
                self.push_day(Day::new(date));
                match time {
                    Some(time) => {
                        self.push_entry(Hours::new(time, duration, task));
                    },
                    None => {},
                }
            },
            None => match range {
                Some(range) => {
                    let mut day = Day::new(range);
                    day.push_entry(Hours::new("*".to_owned(), duration, task));
                    assert(day@.hours =~= seq![row_entry("*"@, row@)]);
                    self.push_day(day);
                },
                None => match time {
                    Some(time) => {
                        self.push_entry(Hours::new(time, duration, task));
                    },
                    None => {},
                },
            },
        }
    }
}

/// Opens a week labelled `label` at the end of the log.
pub fn add_week(weeks: &mut Vec<Week>, label: String)
    ensures
        weeks_view(final(weeks)@) == with_week(weeks_view(old(weeks)@), label@),
{
    weeks.push(Week::new(label));
    assert(weeks_view(weeks@) =~= with_week(weeks_view(old(weeks)@), label@));
}

/// Takes a table row into the last week of the log.
///
/// Before the first week the row is dropped. A row whose task is a task
/// definition is refused, and the log stays as it was.
pub fn add_row(weeks: &mut Vec<Week>, row: Row) -> (r: Result<(), ParseError>)
    ensures
        r is Err == row_refused(weeks_view(old(weeks)@), row@),
        r matches Err(e) ==> e@ == malformed_row_message() && weeks_view(final(weeks)@)
            == weeks_view(old(weeks)@),
        r is Ok ==> weeks_view(final(weeks)@) == weeks_after_row(weeks_view(old(weeks)@), row@),
{
    let n = weeks.len();
    if n == 0 {
        return Ok(());
    }
    match row.task_type {
        TaskType::TaskString => {
            return Err(ParseError::new("Invalid format for task in date table"));
        },
        _ => {},
    }
    weeks[n - 1].add_row(row);
    assert(weeks_view(weeks@) =~= weeks_after_row(weeks_view(old(weeks)@), row@));
    Ok(())
}

} // verus!
