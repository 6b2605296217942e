//! The four line patterns of a time log, and the regular expression engine
//! that compiles them and searches for them.
//!
//! The engine is `fancy_regex`. What it does is not proved here: the two
//! functions that call it, `compile` and `captures`, carry contracts that
//! are taken on trust, and every other contract of the library speaks of the
//! engine through the three names `regex_source`, `regex_refusal` and
//! `regex_captures`. A compiled expression never leaves this module: it
//! travels inside `Compiled`, which only `compile` makes.

use crate::error::ParseError;
use fancy_regex::Regex;
use vstd::prelude::*;

verus! {

/// A week header: `## Week`, the first day as day and month with an optional
/// two-digit year, a dash, and the last day in the same form. Group 1 is the
/// label, from `Week` to the end of the first day.
pub const WEEK_PATTERN: &'static str =
    r"^## (Week \d\d?\.\d\d?(?:\.\d\d)?)(?: *- *\d\d?\.\d\d?(?:\.\d\d)?)";

/// A table cell that holds a clock time, with or without a date in front of
/// it, or a range of days. Group 1 is the date, group 2 the time, group 3 the
/// range.
pub const DAY_AND_TIME_PATTERN: &'static str =
    r"(?:\|\s*?(?:(\d\d?\.\d\d?) +)?(\d\d?:\d\d)\s*?\|)|(?:\|\s*?(\d+\s*?-\s*?\d+)\s*?\|)";

/// A number of hours: digits, an optional decimal part, and `h`. Group 1 is
/// the number.
pub const HOURS_PATTERN: &'static str = r"(\d+(\.\d*)?)h";

/// A task: a whole line that begins with a number, a period and a space
/// (group 1), or a table cell that holds a task number (group 2), `meet`
/// (group 3) or `...` (group 4).
pub const TASK_PATTERN: &'static str =
    r"^(\d+\. .*)$|(?:\|[ \t]*(?:(\d+)\.|(meet)|(\.{3}))[ \t]*\|)";

/// A compiled expression of the `fancy_regex` engine, carried as an opaque value.
#[verifier::external_type_specification]
#[verifier::external_body]
pub struct ExRegex(fancy_regex::Regex);

/// What one search of a line brought back.
#[derive(Debug)]
pub enum Search {
    /// The engine gave up; the text is its own report.
    Failed(String),
    /// The expression matches nowhere in the line.
    Absent,
    /// The first match: one entry for each group of the expression, group 0
    /// being the whole match; a group that took no part holds nothing.
    Found(Vec<Option<String>>),
}

/// A search result as plain texts.
pub enum SearchView {
    Failed(Seq<char>),
    Absent,
    Found(Seq<Option<Seq<char>>>),
}

impl View for Search {
    type V = SearchView;

    open spec fn view(&self) -> SearchView {
        match self {
            Search::Failed(report) => SearchView::Failed(report@),
            Search::Absent => SearchView::Absent,
            Search::Found(groups) => SearchView::Found(groups.deep_view()),
        }
    }
}

/// The text of group `i` of a match; nothing where the match has no such
/// group or the group took no part in it.
pub open spec fn group_text(groups: Seq<Option<Seq<char>>>, i: int) -> Option<Seq<char>> {
    if 0 <= i < groups.len() {
        groups[i]
    } else {
        None
    }
}

/// The text of group `i` of a search; nothing unless the search found a match
/// in which that group took part.
pub open spec fn found_group(search: SearchView, i: int) -> Option<Seq<char>> {
    match search {
        SearchView::Found(groups) => group_text(groups, i),
        _ => None,
    }
}

/// Whether `source` is one of the four patterns of a log.
pub open spec fn is_log_pattern(source: Seq<char>) -> bool {
    ||| source == WEEK_PATTERN@
    ||| source == DAY_AND_TIME_PATTERN@
    ||| source == HOURS_PATTERN@
    ||| source == TASK_PATTERN@
}

/// A pattern of a log as the engine compiled it. The expression inside is
/// out of reach: `Compiled::new` alone makes one, with the engine's default
/// options.
pub struct Compiled {
    engine: Regex,
}

/// The source text that a compiled expression was built from: what
/// `fancy_regex::Regex::as_str` gives for it.
pub uninterp spec fn regex_source(re: Regex) -> Seq<char>;

/// What `fancy_regex::Regex::new` says against `source`: the engine's report
/// where it refuses to compile the text, nothing where it compiles it.
pub uninterp spec fn regex_refusal(source: Seq<char>) -> Option<Seq<char>>;

/// What `fancy_regex::Regex::captures` finds when the expression written as
/// `source`, compiled with default options, is searched for in `hay`: the
/// groups of the first match, no match, or the engine's report that it gave
/// up. The library states nothing more of it.
pub uninterp spec fn regex_captures(source: Seq<char>, hay: Seq<char>) -> SearchView;

/// `fancy_regex::Regex::new`: compiles `source` with default options. The
/// expression that comes back remembers the text it was built from; a text
/// that the engine refuses comes back as the engine's report. Which of the
/// two it is goes by the text alone.
///
/// This is claimed of the four patterns of a log only: the engine limits
/// the size of what it builds, and a text close to that limit may compile on
/// one machine and not on another.
#[verifier::external_body]
fn compile(source: &str) -> (r: Result<Compiled, String>)
    requires
        is_log_pattern(source@),
    ensures
        match r {
            Ok(compiled) => regex_refusal(source@) is None && regex_source(compiled.engine)
                == source@,
            Err(report) => regex_refusal(source@) == Some(report@),
        },
{
    match Regex::new(source) {
        Ok(engine) => Ok(Compiled { engine }),
        Err(e) => Err(e.to_string()),
    }
}

/// `fancy_regex::Regex::captures`: searches `hay` for the first match of a
/// compiled pattern and copies out the text of each group. As the pattern
/// was compiled with default options, the result depends on its source and
/// on `hay` alone.
#[verifier::external_body]
fn captures(compiled: &Compiled, hay: &str) -> (r: Search)
    ensures
        r@ == regex_captures(regex_source(compiled.engine), hay@),
{
    match compiled.engine.captures(hay) {
        Ok(Some(caps)) => Search::Found(
            caps.iter().map(|g| g.map(|m| m.as_str().to_string())).collect(),
        ),
        Ok(None) => Search::Absent,
        Err(e) => Search::Failed(e.to_string()),
    }
}

impl Compiled {
    /// The text that the pattern was compiled from.
    pub closed spec fn source(&self) -> Seq<char> {
        regex_source(self.engine)
    }

    /// Compiles one of the four patterns of a log. Gives the compiled
    /// pattern where the engine accepts the text, and the engine's report
    /// where it refuses it.
    pub fn new(source: &str) -> (r: Result<Compiled, String>)
        requires
            is_log_pattern(source@),
        ensures
            match r {
                Ok(compiled) => regex_refusal(source@) is None && compiled.source() == source@,
                Err(report) => regex_refusal(source@) == Some(report@),
            },
    {
        compile(source)
    }
}

/// What a search for a week header finds in `hay`.
pub open spec fn week_search(hay: Seq<char>) -> SearchView {
    regex_captures(WEEK_PATTERN@, hay)
}

/// What a search for a time or day-range cell finds in `hay`.
pub open spec fn day_and_time_search(hay: Seq<char>) -> SearchView {
    regex_captures(DAY_AND_TIME_PATTERN@, hay)
}

/// What a search for a number of hours finds in `hay`.
pub open spec fn hours_search(hay: Seq<char>) -> SearchView {
    regex_captures(HOURS_PATTERN@, hay)
}

/// What a search for a task finds in `hay`.
pub open spec fn task_search(hay: Seq<char>) -> SearchView {
    regex_captures(TASK_PATTERN@, hay)
}

/// The four patterns, compiled once and then only read.
pub struct Patterns {
    week: Compiled,
    day_and_time: Compiled,
    hours: Compiled,
    task: Compiled,
}

impl Patterns {
    /// Each field holds the pattern compiled from the constant of its name.
    #[verifier::type_invariant]
    pub closed spec fn compiled(&self) -> bool {
        &&& self.week.source() == WEEK_PATTERN@
        &&& self.day_and_time.source() == DAY_AND_TIME_PATTERN@
        &&& self.hours.source() == HOURS_PATTERN@
        &&& self.task.source() == TASK_PATTERN@
    }

    /// Compiles the four patterns. Succeeds where the engine refuses none of
    /// them. Otherwise fails with the engine's report on the first that it
    /// refuses, in the order week header, time or day-range cell, hours,
    /// task.
    pub fn new() -> (r: Result<Patterns, ParseError>)
        ensures
            match r {
                Ok(patterns) => refusal_of_patterns() is None && patterns.compiled(),
                Err(e) => refusal_of_patterns() == Some(e@),
            },
    {
        let week = Compiled::new(WEEK_PATTERN);
        let day_and_time = Compiled::new(DAY_AND_TIME_PATTERN);
        let hours = Compiled::new(HOURS_PATTERN);
        let task = Compiled::new(TASK_PATTERN);
        Patterns::from_compiled(week, day_and_time, hours, task)
    }

    /// The four patterns, from what compiling each of them gave: a compiled
    /// pattern, or the engine's report that it refused the text. Each
    /// compiled pattern must have been compiled from the constant of its
    /// place.
    ///
    /// Succeeds where all four are compiled. Otherwise fails with the
    /// report of the first refusal, in the order week header, time or
    /// day-range cell, hours, task.
    pub fn from_compiled(
        week: Result<Compiled, String>,
        day_and_time: Result<Compiled, String>,
        hours: Result<Compiled, String>,
        task: Result<Compiled, String>,
    ) -> (r: Result<Patterns, ParseError>)
        requires
            week matches Ok(compiled) ==> compiled.source() == WEEK_PATTERN@,
            day_and_time matches Ok(compiled) ==> compiled.source() == DAY_AND_TIME_PATTERN@,
            hours matches Ok(compiled) ==> compiled.source() == HOURS_PATTERN@,
            task matches Ok(compiled) ==> compiled.source() == TASK_PATTERN@,
        ensures
            match r {
                Ok(patterns) => first_refusal(week, day_and_time, hours, task) is None
                    && patterns.compiled(),
                Err(e) => first_refusal(week, day_and_time, hours, task) == Some(e@),
            },
    {
        let week = match week {
            Ok(compiled) => compiled,
            Err(report) => return Err(ParseError::new(report.as_str())),
        };
        let day_and_time = match day_and_time {
            Ok(compiled) => compiled,
            Err(report) => return Err(ParseError::new(report.as_str())),
        };
        let hours = match hours {
            Ok(compiled) => compiled,
            Err(report) => return Err(ParseError::new(report.as_str())),
        };
        let task = match task {
            Ok(compiled) => compiled,
            Err(report) => return Err(ParseError::new(report.as_str())),
        };
        Ok(Patterns { week, day_and_time, hours, task })
    }

    /// Searches `hay` for a week header.
    pub fn search_week(&self, hay: &str) -> (r: Search)
        ensures
            r@ == week_search(hay@),
    {
        proof {
            use_type_invariant(self);
        }
        captures(&self.week, hay)
    }

    /// Searches `hay` for a time or day-range cell.
    pub fn search_day_and_time(&self, hay: &str) -> (r: Search)
        ensures
            r@ == day_and_time_search(hay@),
    {
        proof {
            use_type_invariant(self);
        }
        captures(&self.day_and_time, hay)
    }

    /// Searches `hay` for a number of hours.
    pub fn search_hours(&self, hay: &str) -> (r: Search)
        ensures
            r@ == hours_search(hay@),
    {
        proof {
            use_type_invariant(self);
        }
        captures(&self.hours, hay)
    }

    /// Searches `hay` for a task.
    pub fn search_task(&self, hay: &str) -> (r: Search)
        ensures
            r@ == task_search(hay@),
    {
        proof {
            use_type_invariant(self);
        }
        captures(&self.task, hay)
    }
}

/// The report of the first refusal among what compiling the four patterns
/// gave, in the order week header, time or day-range cell, hours, task;
/// nothing where all four are compiled.
pub open spec fn first_refusal(
    week: Result<Compiled, String>,
    day_and_time: Result<Compiled, String>,
    hours: Result<Compiled, String>,
    task: Result<Compiled, String>,
) -> Option<Seq<char>> {
    if let Err(report) = week {
        Some(report@)
    } else if let Err(report) = day_and_time {
        Some(report@)
    } else if let Err(report) = hours {
        Some(report@)
    } else if let Err(report) = task {
        Some(report@)
    } else {
        None
    }
}

/// The engine's report on the first of the four patterns that it refuses to
/// compile, in the order week header, time or day-range cell, hours, task;
/// nothing where it refuses none.
pub open spec fn refusal_of_patterns() -> Option<Seq<char>> {
    if regex_refusal(WEEK_PATTERN@) is Some {
        regex_refusal(WEEK_PATTERN@)
    } else if regex_refusal(DAY_AND_TIME_PATTERN@) is Some {
        regex_refusal(DAY_AND_TIME_PATTERN@)
    } else if regex_refusal(HOURS_PATTERN@) is Some {
        regex_refusal(HOURS_PATTERN@)
    } else {
        regex_refusal(TASK_PATTERN@)
    }
}

/// The text of group `i` of a match, copied out.
pub fn group(groups: &Vec<Option<String>>, i: usize) -> (r: Option<String>)
    ensures
        r.deep_view() == group_text(groups.deep_view(), i as int),
{
    if i < groups.len() {
        match &groups[i] {
            Some(text) => Some(text.clone()),
            None => None,
        }
    } else {
        None
    }
}

} // verus!
