//! Task numbers and their definitions: a definition that comes later in the
//! log gives its description to the first entry that still waits for it.

use crate::model::{weeks_view, DayView, HoursView, Week, WeekView};
use crate::text::{contains, contains_text, is_integer, is_integer_text, skip, skip_chars};
use vstd::prelude::*;

verus! {

/// Whether an entry waits for the definition: its task is a whole number,
/// and that number occurs somewhere in the definition's text.
pub open spec fn awaits(entry: HoursView, definition: Seq<char>) -> bool {
    is_integer_text(entry.task) && contains_text(definition, entry.task)
}

/// The description that a definition gives: its text behind the first three
/// characters.
pub open spec fn description_of(definition: Seq<char>) -> Seq<char> {
    skip_chars(definition, 3)
}

/// Whether the log has an entry `h` in day `d` of week `w`.
pub open spec fn is_entry(weeks: Seq<WeekView>, w: int, d: int, h: int) -> bool {
    &&& 0 <= w < weeks.len()
    &&& 0 <= d < weeks[w].days.len()
    &&& 0 <= h < weeks[w].days[d].hours.len()
}

/// Whether entry `h1` of day `d1` of week `w1` comes before entry `h2` of day
/// `d2` of week `w2` in the log.
pub open spec fn precedes(w1: int, d1: int, h1: int, w2: int, d2: int, h2: int) -> bool {
    w1 < w2 || (w1 == w2 && (d1 < d2 || (d1 == d2 && h1 < h2)))
}

/// Whether entry `h` of day `d` of week `w` waits for the definition.
pub open spec fn awaits_at(weeks: Seq<WeekView>, definition: Seq<char>, w: int, d: int, h: int) -> bool {
    is_entry(weeks, w, d, h) && awaits(weeks[w].days[d].hours[h], definition)
}

/// Whether entry `h` of day `d` of week `w` is the first in the log that
/// waits for the definition.
pub open spec fn is_first_awaiting(
    weeks: Seq<WeekView>,
    definition: Seq<char>,
    w: int,
    d: int,
    h: int,
) -> bool {
    &&& awaits_at(weeks, definition, w, d, h)
    &&& forall|w0: int, d0: int, h0: int| #[trigger]
        awaits_at(weeks, definition, w0, d0, h0) ==> !precedes(w0, d0, h0, w, d, h)
}

/// The place of the first entry that waits for the definition, as week, day
/// and entry; nothing where no entry waits for it.
pub open spec fn first_awaiting(weeks: Seq<WeekView>, definition: Seq<char>) -> Option<
    (int, int, int),
> {
    if exists|p: (int, int, int)| is_first_awaiting(weeks, definition, p.0, p.1, p.2) {
        Some(choose|p: (int, int, int)| is_first_awaiting(weeks, definition, p.0, p.1, p.2))
    } else {
        None
    }
}

/// The log with the task of one entry replaced.
pub open spec fn with_task(weeks: Seq<WeekView>, w: int, d: int, h: int, task: Seq<char>) -> Seq<
    WeekView,
> {
    let week = weeks[w];
    let day = week.days[d];
    let entry = day.hours[h];
    let hours = day.hours.update(
        h,
        HoursView { time: entry.time, duration: entry.duration, task },
    );
    let days = week.days.update(d, DayView { date: day.date, hours });
    weeks.update(w, WeekView { week_start: week.week_start, days })
}

/// The log after a task definition: the first entry that waits for it gets
/// its description, and nothing else changes.
pub open spec fn weeks_after_definition(weeks: Seq<WeekView>, definition: Seq<char>) -> Seq<
    WeekView,
> {
    match first_awaiting(weeks, definition) {
        Some((w, d, h)) => with_task(weeks, w, d, h, description_of(definition)),
        None => weeks,
    }
}

/// A log has no more than one first entry that waits for a definition.
pub proof fn lemma_first_awaiting_is_unique(
    weeks: Seq<WeekView>,
    definition: Seq<char>,
    w1: int,
    d1: int,
    h1: int,
    w2: int,
    d2: int,
    h2: int,
)
    requires
        is_first_awaiting(weeks, definition, w1, d1, h1),
        is_first_awaiting(weeks, definition, w2, d2, h2),
    ensures
        w1 == w2 && d1 == d2 && h1 == h2,
{
    assert(awaits_at(weeks, definition, w1, d1, h1));
    assert(awaits_at(weeks, definition, w2, d2, h2));
    assert(!precedes(w1, d1, h1, w2, d2, h2));
    assert(!precedes(w2, d2, h2, w1, d1, h1));
}

/// Where a place is the first that waits for the definition, `first_awaiting`
/// names it.
pub proof fn lemma_first_awaiting_found(
    weeks: Seq<WeekView>,
    definition: Seq<char>,
    w: int,
    d: int,
    h: int,
)
    requires
        is_first_awaiting(weeks, definition, w, d, h),
    ensures
        first_awaiting(weeks, definition) == Some((w, d, h)),
{
    let p = (w, d, h);
    assert(is_first_awaiting(weeks, definition, p.0, p.1, p.2));
    let q = choose|q: (int, int, int)| is_first_awaiting(weeks, definition, q.0, q.1, q.2);
    lemma_first_awaiting_is_unique(weeks, definition, w, d, h, q.0, q.1, q.2);
}

/// A task definition changes no more than the task of one entry: the first
/// that waits for it, which gets the definition's description. The log keeps
/// its weeks, days and entries, with their labels, dates, times and hours.
pub proof fn lemma_definition_changes_one_task(weeks: Seq<WeekView>, definition: Seq<char>)
    ensures
        ({
            let after = weeks_after_definition(weeks, definition);
            &&& after.len() == weeks.len()
            &&& forall|w: int|
                0 <= w < weeks.len() ==> {
                    &&& (#[trigger] after[w]).week_start == weeks[w].week_start
                    &&& after[w].days.len() == weeks[w].days.len()
                }
            &&& forall|w: int, d: int|
                0 <= w < weeks.len() && 0 <= d < weeks[w].days.len() ==> {
                    &&& (#[trigger] after[w].days[d]).date == weeks[w].days[d].date
                    &&& after[w].days[d].hours.len() == weeks[w].days[d].hours.len()
                }
            &&& forall|w: int, d: int, h: int| #[trigger]
                is_entry(weeks, w, d, h) ==> {
                    let before = weeks[w].days[d].hours[h];
                    after[w].days[d].hours[h] == if is_first_awaiting(weeks, definition, w, d, h) {
                        HoursView {
                            time: before.time,
                            duration: before.duration,
                            task: description_of(definition),
                        }
                    } else {
                        before
                    }
                }
        }),
{
    let after = weeks_after_definition(weeks, definition);
    match first_awaiting(weeks, definition) {
        Some((w1, d1, h1)) => {
            assert(is_first_awaiting(weeks, definition, w1, d1, h1));
            assert forall|w: int, d: int, h: int| #[trigger] is_entry(weeks, w, d, h) implies ({
                let before = weeks[w].days[d].hours[h];
                after[w].days[d].hours[h] == if is_first_awaiting(weeks, definition, w, d, h) {
                    HoursView {
                        time: before.time,
                        duration: before.duration,
                        task: description_of(definition),
                    }
                } else {
                    before
                }
            }) by {
                if is_first_awaiting(weeks, definition, w, d, h) {
                    lemma_first_awaiting_is_unique(weeks, definition, w, d, h, w1, d1, h1);
                }
            }
        },
        None => {
            assert forall|w: int, d: int, h: int| #[trigger]
                is_entry(weeks, w, d, h) implies !is_first_awaiting(weeks, definition, w, d, h) by {
                if is_first_awaiting(weeks, definition, w, d, h) {
                    let p = (w, d, h);
                    assert(is_first_awaiting(weeks, definition, p.0, p.1, p.2));
                }
            }
        },
    }
}

/// A log without entries that wait for a definition is left as it is; a log
/// without weeks is one.
pub proof fn lemma_definition_without_weeks(definition: Seq<char>)
    ensures
        weeks_after_definition(Seq::empty(), definition) == Seq::<WeekView>::empty(),
{
    assert forall|p: (int, int, int)|
        !is_first_awaiting(Seq::<WeekView>::empty(), definition, p.0, p.1, p.2) by {}
}

/// Whether the entry waits for the definition.
fn entry_awaits(task: &str, definition: &str) -> (r: bool)
    ensures
        r == (is_integer_text(task@) && contains_text(definition@, task@)),
{
    is_integer(task) && contains(definition, task)
}

/// Gives the description of a task definition to the first entry of the log
/// that waits for it, and says which entry that was: its week, its day in the
/// week and its place in the day. Where no entry waits for it, the log stays
/// as it was.
pub fn resolve_task(weeks: &mut Vec<Week>, definition: &str) -> (r: Option<(usize, usize, usize)>)
    ensures
        match r {
            Some((w, d, h)) => first_awaiting(weeks_view(old(weeks)@), definition@) == Some(
                (w as int, d as int, h as int),
            ),
            None => first_awaiting(weeks_view(old(weeks)@), definition@) is None,
        },
        weeks_view(final(weeks)@) == weeks_after_definition(weeks_view(old(weeks)@), definition@),
{
    let ghost view = weeks_view(weeks@);
    let mut w: usize = 0;
    while w < weeks.len()
        invariant
            w <= weeks.len(),
            *weeks == *old(weeks),
            view == weeks_view(weeks@),
            forall|w0: int, d0: int, h0: int| #[trigger]
                awaits_at(view, definition@, w0, d0, h0) ==> w0 >= w,
        decreases weeks.len() - w,
    {
        let mut d: usize = 0;
        while d < weeks[w].days.len()
            invariant
                w < weeks.len(),
                d <= weeks[w as int].days.len(),
                *weeks == *old(weeks),
                view == weeks_view(weeks@),
                forall|w0: int, d0: int, h0: int| #[trigger]
                    awaits_at(view, definition@, w0, d0, h0) ==> !precedes(
                        w0,
                        d0,
                        h0,
                        w as int,
                        d as int,
                        0,
                    ),
            decreases weeks[w as int].days.len() - d,
        {
            let mut h: usize = 0;
            while h < weeks[w].days[d].hours.len()
                invariant
                    w < weeks.len(),
                    d < weeks[w as int].days.len(),
                    h <= weeks[w as int].days[d as int].hours.len(),
                    *weeks == *old(weeks),
                    view == weeks_view(weeks@),
                    forall|w0: int, d0: int, h0: int| #[trigger]
                        awaits_at(view, definition@, w0, d0, h0) ==> !precedes(
                            w0,
                            d0,
                            h0,
                            w as int,
                            d as int,
                            h as int,
                        ),
                decreases weeks[w as int].days[d as int].hours.len() - h,
            {
                assert(view[w as int].days[d as int].hours[h as int]
                    == weeks[w as int].days[d as int].hours[h as int]@);
                if entry_awaits(weeks[w].days[d].hours[h].task.as_str(), definition) {
                    proof {
                        assert(awaits_at(view, definition@, w as int, d as int, h as int));
                        lemma_first_awaiting_found(view, definition@, w as int, d as int, h as int);
                    }
                    weeks[w].days[d].hours[h].task = skip(definition, 3);
                    assert(weeks_view(weeks@) =~= with_task(
                        view,
                        w as int,
                        d as int,
                        h as int,
                        description_of(definition@),
                    )) by {
                        let after = weeks_view(weeks@);
                        let expect = with_task(
                            view,
                            w as int,
                            d as int,
                            h as int,
                            description_of(definition@),
                        );
                        assert(after[w as int].days[d as int].hours =~= expect[w as int].days[d as int].hours);
                        assert(after[w as int].days =~= expect[w as int].days);
                    }
                    return Some((w, d, h));
                }
                h += 1;
            }
            d += 1;
        }
        w += 1;
    }
    proof {
        assert forall|p: (int, int, int)| !is_first_awaiting(view, definition@, p.0, p.1, p.2) by {
            if awaits_at(view, definition@, p.0, p.1, p.2) {
                assert(p.0 >= w);
            }
        }
    }
    None
}

} // verus!
