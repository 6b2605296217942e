//! The parser: each line of a log is classified, and the weeks gathered so
//! far take it in, from the first line to the last.

use crate::accumulate::{
    add_row, add_week, malformed_row_message, row_refused, weeks_after_row, with_week, Row,
    RowView,
};
use crate::error::ParseError;
use crate::extract::{
    duration_from, duration_of, row_cells, row_cells_of, task_from, task_of, week_label,
    week_label_of, TaskType,
};
use crate::model::{weeks_view, Week, WeekView};
use crate::pattern::{
    day_and_time_search, hours_search, task_search, week_search, Patterns, Search, SearchView,
};
use crate::resolve::{
    lemma_definition_changes_one_task, lemma_definition_without_weeks, resolve_task,
    weeks_after_definition,
};
use vstd::prelude::*;

verus! {

/// What a line of the log is.
#[derive(Debug)]
pub enum Line {
    /// The header of a week, with the week's label.
    WeekHeader(String),
    /// A row of a table of days and times.
    TableRow(Row),
    /// A line that defines a task, with its whole text.
    TaskDefinition(String),
    /// Anything else.
    Other,
}

/// A line as plain texts.
pub enum LineView {
    WeekHeader(Seq<char>),
    TableRow(RowView),
    TaskDefinition(Seq<char>),
    Other,
}

impl View for Line {
    type V = LineView;

    open spec fn view(&self) -> LineView {
        match self {
            Line::WeekHeader(label) => LineView::WeekHeader(label@),
            Line::TableRow(row) => LineView::TableRow(row@),
            Line::TaskDefinition(text) => LineView::TaskDefinition(text@),
            Line::Other => LineView::Other,
        }
    }
}

/// What a line is, from the four searches made in it. The first of these
/// that holds decides:
///
/// - the search for a week header failed: the failure, with the engine's
///   report;
/// - it found a header with its label: a week header;
/// - the search for a time or day-range cell failed: the failure;
/// - it found a cell: a table row, with the hours and the task that the line
///   names;
/// - the line names a task definition: that definition;
/// - otherwise the line is nothing to the log.
pub open spec fn line_of(
    week: SearchView,
    cell: SearchView,
    hours: SearchView,
    task: SearchView,
) -> Result<LineView, Seq<char>> {
    if let SearchView::Failed(report) = week {
        Err(report)
    } else if week_label_of(week) is Some {
        Ok(LineView::WeekHeader(week_label_of(week)->0))
    } else if let SearchView::Failed(report) = cell {
        Err(report)
    } else if row_cells_of(cell) is Some {
        Ok(
            LineView::TableRow(
                RowView {
                    cells: row_cells_of(cell)->0,
                    duration: duration_of(hours),
                    task_type: task_of(task).0,
                    task: task_of(task).1,
                },
            ),
        )
    } else if task_of(task).0 == TaskType::TaskString {
        Ok(LineView::TaskDefinition(task_of(task).1))
    } else {
        Ok(LineView::Other)
    }
}

/// What the line `hay` is.
pub open spec fn classified(hay: Seq<char>) -> Result<LineView, Seq<char>> {
    line_of(week_search(hay), day_and_time_search(hay), hours_search(hay), task_search(hay))
}

/// The weeks after one more line, or the message of the failure where the
/// log refuses the line.
pub open spec fn weeks_after_line(weeks: Seq<WeekView>, line: LineView) -> Result<
    Seq<WeekView>,
    Seq<char>,
> {
    match line {
        LineView::WeekHeader(label) => Ok(with_week(weeks, label)),
        LineView::TableRow(row) => if row_refused(weeks, row) {
            Err(malformed_row_message())
        } else {
            Ok(weeks_after_row(weeks, row))
        },
        LineView::TaskDefinition(text) => Ok(weeks_after_definition(weeks, text)),
        LineView::Other => Ok(weeks),
    }
}

/// The weeks after all of `lines`, taken in from the first to the last,
/// beginning with no week; or the first failure on the way.
pub open spec fn weeks_after_lines(lines: Seq<Seq<char>>) -> Result<Seq<WeekView>, Seq<char>>
    decreases lines.len(),
{
    if lines.len() == 0 {
        Ok(Seq::empty())
    } else {
        match weeks_after_lines(lines.drop_last()) {
            Err(report) => Err(report),
            Ok(weeks) => match classified(lines.last()) {
                Err(report) => Err(report),
                Ok(line) => weeks_after_line(weeks, line),
            },
        }
    }
}

/// What parsing `lines` gives: the weeks of the log, nothing where the log
/// has no week, or the message of the first failure.
pub open spec fn parsed(lines: Seq<Seq<char>>) -> Result<Option<Seq<WeekView>>, Seq<char>> {
    match weeks_after_lines(lines) {
        Err(report) => Err(report),
        Ok(weeks) => if weeks.len() == 0 {
            Ok(None)
        } else {
            Ok(Some(weeks))
        },
    }
}

/// Says what a line is, from the four searches made in it.
pub fn classify(week: &Search, cell: &Search, hours: &Search, task: &Search) -> (r: Result<
    Line,
    ParseError,
>)
    ensures
        match r {
            Ok(line) => line_of(week@, cell@, hours@, task@) == Ok::<LineView, Seq<char>>(line@),
            Err(e) => line_of(week@, cell@, hours@, task@) == Err::<LineView, Seq<char>>(e@),
        },
{
    if let Search::Failed(report) = week {
        return Err(ParseError::new(report.as_str()));
    }
    if let Some(label) = week_label(week) {
        return Ok(Line::WeekHeader(label));
    }
    if let Search::Failed(report) = cell {
        return Err(ParseError::new(report.as_str()));
    }
    let (task_type, text) = task_from(task);
    if let Some(cells) = row_cells(cell) {
        return Ok(Line::TableRow(Row { cells, duration: duration_from(hours), task_type, task: text }));
    }
    match task_type {
        TaskType::TaskString => Ok(Line::TaskDefinition(text)),
        _ => Ok(Line::Other),
    }
}

/// Searches the line `hay` for the four patterns and says what it is. Fails
/// with the engine's report where the search for a week header gave up, or
/// the line is no week header and the search for a table cell gave up.
pub fn classify_line(patterns: &Patterns, hay: &str) -> (r: Result<Line, ParseError>)
    ensures
        match r {
            Ok(line) => classified(hay@) == Ok::<LineView, Seq<char>>(line@),
            Err(e) => classified(hay@) == Err::<LineView, Seq<char>>(e@),
        },
{
    let week = patterns.search_week(hay);
    let cell = patterns.search_day_and_time(hay);
    let hours = patterns.search_hours(hay);
    let task = patterns.search_task(hay);
    classify(&week, &cell, &hours, &task)
}

/// Takes one line into the log. A row that the log refuses leaves it as it
/// was.
pub fn apply_line(weeks: &mut Vec<Week>, line: Line) -> (r: Result<(), ParseError>)
    ensures
        match r {
            Ok(()) => weeks_after_line(weeks_view(old(weeks)@), line@) == Ok::<
                Seq<WeekView>,
                Seq<char>,
            >(weeks_view(final(weeks)@)),
            Err(e) => weeks_after_line(weeks_view(old(weeks)@), line@) == Err::<
                Seq<WeekView>,
                Seq<char>,
            >(e@) && weeks_view(final(weeks)@) == weeks_view(old(weeks)@),
        },
{
    match line {
        Line::WeekHeader(label) => {
            add_week(weeks, label);
            Ok(())
        },
        Line::TableRow(row) => add_row(weeks, row),
        Line::TaskDefinition(text) => {
            let _ = resolve_task(weeks, text.as_str());
            Ok(())
        },
        Line::Other => Ok(()),
    }
}

/// Once a line has failed, the lines behind it change nothing.
pub proof fn lemma_failure_stays(lines: Seq<Seq<char>>, n: int)
    requires
        0 <= n <= lines.len(),
        weeks_after_lines(lines.take(n)) is Err,
    ensures
        weeks_after_lines(lines) == weeks_after_lines(lines.take(n)),
    decreases lines.len() - n,
{
    if n == lines.len() {
        assert(lines.take(n) =~= lines);
    } else {
        assert(lines.drop_last().take(n) =~= lines.take(n));
        lemma_failure_stays(lines.drop_last(), n);
    }
}

/// The labels of the week headers among `lines`, in the order of the lines.
pub open spec fn header_labels(lines: Seq<Seq<char>>) -> Seq<Seq<char>>
    decreases lines.len(),
{
    if lines.len() == 0 {
        Seq::empty()
    } else {
        match classified(lines.last()) {
            Ok(LineView::WeekHeader(label)) => header_labels(lines.drop_last()).push(label),
            _ => header_labels(lines.drop_last()),
        }
    }
}

/// The labels of the weeks, in order.
pub open spec fn week_labels(weeks: Seq<WeekView>) -> Seq<Seq<char>> {
    Seq::new(weeks.len(), |i: int| weeks[i].week_start)
}

/// A log that parses has one week for each of its week headers, in the order
/// of the headers and under their labels: no other line opens, removes,
/// renames or reorders a week.
pub proof fn lemma_weeks_follow_headers(lines: Seq<Seq<char>>)
    ensures
        weeks_after_lines(lines) matches Ok(weeks) ==> week_labels(weeks) == header_labels(lines),
    decreases lines.len(),
{
    if lines.len() == 0 {
        assert(week_labels(Seq::<WeekView>::empty()) =~= Seq::empty());
    } else if let Ok(after) = weeks_after_lines(lines) {
        lemma_weeks_follow_headers(lines.drop_last());
        let weeks = weeks_after_lines(lines.drop_last())->Ok_0;
        match classified(lines.last())->Ok_0 {
            LineView::WeekHeader(label) => {
                assert(week_labels(after) =~= week_labels(weeks).push(label));
            },
            LineView::TableRow(row) => {
                assert(week_labels(after) =~= week_labels(weeks));
            },
            LineView::TaskDefinition(text) => {
                lemma_definition_changes_one_task(weeks, text);
                assert(week_labels(after) =~= week_labels(weeks));
            },
            LineView::Other => {},
        }
    }
}

/// Whether the line `hay` is a week header.
pub open spec fn is_week_header(hay: Seq<char>) -> bool {
    classified(hay) matches Ok(LineView::WeekHeader(_))
}

/// A log without a week header has no weeks: parsing it gives nothing, and
/// never an empty list of weeks. It gives nothing for certain where no line
/// fails.
pub proof fn lemma_no_header_no_weeks(lines: Seq<Seq<char>>)
    requires
        forall|i: int| 0 <= i < lines.len() ==> !is_week_header(#[trigger] lines[i]),
    ensures
        parsed(lines) is Ok ==> parsed(lines) == Ok::<Option<Seq<WeekView>>, Seq<char>>(None),
        (forall|i: int| 0 <= i < lines.len() ==> classified(#[trigger] lines[i]) is Ok) ==> parsed(
            lines,
        ) is Ok,
    decreases lines.len(),
{
    if lines.len() > 0 {
        let front = lines.drop_last();
        assert forall|i: int| 0 <= i < front.len() implies !is_week_header(#[trigger] front[i]) by {
            assert(front[i] == lines[i]);
        }
        lemma_no_header_no_weeks(front);
        if forall|i: int| 0 <= i < lines.len() ==> classified(#[trigger] lines[i]) is Ok {
            assert forall|i: int| 0 <= i < front.len() implies classified(#[trigger] front[i]) is Ok by {
                assert(front[i] == lines[i]);
            }
        }
        assert(!is_week_header(lines[lines.len() - 1]));
        if let Ok(weeks) = weeks_after_lines(front) {
            assert(weeks =~= Seq::empty());
            if let Ok(line) = classified(lines.last()) {
                match line {
                    LineView::TaskDefinition(text) => {
                        lemma_definition_without_weeks(text);
                    },
                    _ => {},
                }
            }
        }
    }
}

/// Parses a log, given line by line, with compiled patterns.
///
/// Returns the weeks of the log in order, or nothing where the log has no
/// week header. Fails at the first line in which the search for a header or
/// for a table cell gave up, with the engine's report, or whose table row
/// holds a task definition.
pub fn parse(patterns: &Patterns, lines: &Vec<String>) -> (r: Result<Option<Vec<Week>>, ParseError>)
    ensures
        match r {
            Ok(Some(weeks)) => parsed(lines.deep_view()) == Ok::<Option<Seq<WeekView>>, Seq<char>>(
                Some(weeks_view(weeks@)),
            ),
            Ok(None) => parsed(lines.deep_view()) == Ok::<Option<Seq<WeekView>>, Seq<char>>(None),
            Err(e) => parsed(lines.deep_view()) == Err::<Option<Seq<WeekView>>, Seq<char>>(e@),
        },
        r matches Ok(Some(weeks)) ==> weeks.len() > 0,
{
    let ghost texts = lines.deep_view();
    let mut weeks: Vec<Week> = Vec::new();
    assert(weeks_view(weeks@) =~= Seq::empty());
    assert(texts.take(0) =~= Seq::empty());
    let mut i: usize = 0;
    while i < lines.len()
        invariant
            i <= lines.len(),
            texts == lines.deep_view(),
            weeks_after_lines(texts.take(i as int)) == Ok::<Seq<WeekView>, Seq<char>>(
                weeks_view(weeks@),
            ),
        decreases lines.len() - i,
    {
        proof {
            assert(texts.take(i + 1).drop_last() =~= texts.take(i as int));
            assert(texts.take(i + 1).last() == lines[i as int]@);
        }
        let line = match classify_line(patterns, lines[i].as_str()) {
            Ok(line) => line,
            Err(e) => {
                proof {
                    lemma_failure_stays(texts, i + 1);
                }
                return Err(e);
            },
        };
        match apply_line(&mut weeks, line) {
            Ok(()) => {},
            Err(e) => {
                proof {
                    lemma_failure_stays(texts, i + 1);
                }
                return Err(e);
            },
        }
        i += 1;
    }
    assert(texts.take(i as int) =~= texts);
    if weeks.len() == 0 {
        Ok(None)
    } else {
        Ok(Some(weeks))
    }
}

} // verus!
