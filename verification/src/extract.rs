//! From what a search found to the fields of a line: the label of a week, the
//! cells of a table row, the hours spent, the task.

use crate::pattern::{
    found_group, group, group_text, hours_search, task_search, Patterns, Search, SearchView,
};
use vstd::prelude::*;

verus! {

/// What kind of task a line names.
#[derive(Debug, Clone, Copy, PartialEq, Eq)]
pub enum TaskType {
    /// A whole line that defines a task: a number, a period, a space, and
    /// the description.
    TaskString,
    /// A table cell with a task number, to be resolved by a later definition.
    TaskNumber,
    /// A table cell that says `meet`.
    Meeting,
    /// A table cell that says `...`: the same task as above.
    TaskContinue,
    /// No task.
    NoTask,
}

/// The first cell of a table row: a date, a clock time, a range of days, as
/// far as the row holds them.
#[derive(Debug)]
pub struct RowCells {
    pub date: Option<String>,
    pub time: Option<String>,
    pub range: Option<String>,
}

/// The cells of a row as plain texts.
pub struct RowCellsView {
    pub date: Option<Seq<char>>,
    pub time: Option<Seq<char>>,
    pub range: Option<Seq<char>>,
}

impl View for RowCells {
    type V = RowCellsView;

    open spec fn view(&self) -> RowCellsView {
        RowCellsView {
            date: self.date.deep_view(),
            time: self.time.deep_view(),
            range: self.range.deep_view(),
        }
    }
}

/// The label of a week header: group 1 of a search for one, and nothing
/// where the search found no match or the match has no such group.
pub open spec fn week_label_of(search: SearchView) -> Option<Seq<char>> {
    found_group(search, 1)
}

/// The cells of a table row: groups 1, 2 and 3 of a search for one, and
/// nothing where the search found no match.
pub open spec fn row_cells_of(search: SearchView) -> Option<RowCellsView> {
    match search {
        SearchView::Found(groups) => Some(
            RowCellsView {
                date: group_text(groups, 1),
                time: group_text(groups, 2),
                range: group_text(groups, 3),
            },
        ),
        _ => None,
    }
}

/// The hours spent, as written: group 1 of a search for them, and `0` where
/// the search found none.
pub open spec fn duration_of(search: SearchView) -> Seq<char> {
    match found_group(search, 1) {
        Some(text) => text,
        None => "0"@,
    }
}

/// The task that a search for one names, by the first group that took part:
/// group 1 is a definition and gives its whole text, group 2 a task number
/// and gives the number, group 3 a meeting; a match with none of these is a
/// continuation. A search without a match names no task.
pub open spec fn task_of(search: SearchView) -> (TaskType, Seq<char>) {
    match search {
        SearchView::Found(groups) => {
            if group_text(groups, 1) is Some {
                (TaskType::TaskString, group_text(groups, 1)->0)
            } else if group_text(groups, 2) is Some {
                (TaskType::TaskNumber, group_text(groups, 2)->0)
            } else if group_text(groups, 3) is Some {
                (TaskType::Meeting, "Meetting"@)
            } else {
                (TaskType::TaskContinue, "..."@)
            }
        },
        _ => (TaskType::NoTask, Seq::empty()),
    }
}

/// The label of a week header, from a search for one.
pub fn week_label(search: &Search) -> (r: Option<String>)
    ensures
        r.deep_view() == week_label_of(search@),
{
    match search {
        Search::Found(groups) => group(groups, 1),
        _ => None,
    }
}

/// The cells of a table row, from a search for one.
pub fn row_cells(search: &Search) -> (r: Option<RowCells>)
    ensures
        r is Some == row_cells_of(search@) is Some,
        r matches Some(cells) ==> cells@ == row_cells_of(search@)->0,
{
    match search {
        Search::Found(groups) => Some(
            RowCells { date: group(groups, 1), time: group(groups, 2), range: group(groups, 3) },
        ),
        _ => None,
    }
}

/// The hours spent, from a search for them.
pub fn duration_from(search: &Search) -> (r: String)
    ensures
        r@ == duration_of(search@),
{
    match search {
        Search::Found(groups) => match group(groups, 1) {
            Some(text) => text,
            None => "0".to_owned(),
        },
        _ => "0".to_owned(),
    }
}

/// The task, from a search for one.
pub fn task_from(search: &Search) -> (r: (TaskType, String))
    ensures
        r.0 == task_of(search@).0,
        r.1@ == task_of(search@).1,
{
    match search {
        Search::Found(groups) => {
            if let Some(text) = group(groups, 1) {
                (TaskType::TaskString, text)
            } else if let Some(text) = group(groups, 2) {
                (TaskType::TaskNumber, text)
            } else if group(groups, 3).is_some() {
                (TaskType::Meeting, "Meetting".to_owned())
            } else {
                (TaskType::TaskContinue, "...".to_owned())
            }
        },
        _ => (TaskType::NoTask, String::new()),
    }
}

/// The hours that a line names: the first number in it that is followed by
/// `h`, as written, and `0` where there is none or the engine gave up.
pub fn get_duration(patterns: &Patterns, hay: &str) -> (r: String)
    ensures
        r@ == duration_of(hours_search(hay@)),
        !(hours_search(hay@) is Found) ==> r@ == "0"@,
{
    let search = patterns.search_hours(hay);
    duration_from(&search)
}

/// The task that a line names. Where the engine gave up, the line names none.
pub fn get_task(patterns: &Patterns, hay: &str) -> (r: (TaskType, String))
    ensures
        r.0 == task_of(task_search(hay@)).0,
        r.1@ == task_of(task_search(hay@)).1,
{
    let search = patterns.search_task(hay);
    task_from(&search)
}

} // verus!
