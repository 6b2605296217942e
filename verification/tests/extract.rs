use work_tools::accumulate::{add_row, add_week, Row};
use work_tools::extract::{
    duration_from, get_duration, get_task, row_cells, task_from, week_label, RowCells, TaskType,
};
use work_tools::model::Week;
use work_tools::parser::{apply_line, classify, classify_line, Line};
use work_tools::pattern::{group, Patterns, Search};
use work_tools::resolve::resolve_task;

fn patterns() -> Patterns {
    match Patterns::new() {
        Ok(patterns) => patterns,
        Err(e) => panic!("the patterns do not compile: {}", e.message()),
    }
}

fn found(groups: &[Option<&str>]) -> Search {
    Search::Found(groups.iter().map(|g| g.map(|text| text.to_string())).collect())
}

fn row(date: Option<&str>, time: Option<&str>, range: Option<&str>, task_type: TaskType) -> Row {
    Row {
        cells: RowCells {
            date: date.map(|s| s.to_string()),
            time: time.map(|s| s.to_string()),
            range: range.map(|s| s.to_string()),
        },
        duration: "1.5".to_string(),
        task_type,
        task: "7".to_string(),
    }
}

fn one_week() -> Vec<Week> {
    let mut weeks = Vec::new();
    add_week(&mut weeks, "Week 1.1".to_string());
    weeks
}

#[test]
fn duration_of_a_line() {
    let p = patterns();
    assert_eq!(get_duration(&p, "1.25h"), "1.25");
    assert_eq!(get_duration(&p, "1.25h").parse::<f32>().unwrap_or(0.0), 1.25);
    assert_eq!(get_duration(&p, "| 19.5 18:50 | 1h | 2. |"), "1");
    assert_eq!(get_duration(&p, "| 2h | 3.5h |"), "2");
    assert_eq!(get_duration(&p, "| 1.h |"), "1.");
    assert_eq!(get_duration(&p, "| 1.h |").parse::<f32>().unwrap_or(0.0), 1.0);
    assert_eq!(get_duration(&p, "| h |"), "0");
    assert_eq!(get_duration(&p, "| h |").parse::<f32>().unwrap_or(0.0), 0.0);
    assert_eq!(get_duration(&p, ""), "0");
    assert_eq!(get_duration(&p, "| 19.5 18:50 |  | 2. |"), "0");
}

#[test]
fn duration_of_a_line_is_the_same_each_time() {
    let p = patterns();
    for line in ["1.25h", "| 10 - 30 | 40h |", "| h |", ""] {
        assert_eq!(get_duration(&p, line), get_duration(&p, line));
    }
}

#[test]
fn duration_of_a_duration_is_itself() {
    let p = patterns();
    for line in ["1.25h", "| 19.5 18:50 | 1h | 2. |", "| 10 - 30 | 40.h |", "100h"] {
        let once = get_duration(&p, line);
        assert!(!once.is_empty());
        assert_eq!(get_duration(&p, &format!("{}h", once)), once);
    }
}

#[test]
fn task_of_a_line() {
    let p = patterns();
    assert_eq!(get_task(&p, "1. test"), (TaskType::TaskString, "1. test".to_string()));
    assert_eq!(get_task(&p, "| 92. |"), (TaskType::TaskNumber, "92".to_string()));
    assert_eq!(get_task(&p, "| meet|"), (TaskType::Meeting, "Meetting".to_string()));
    assert_eq!(get_task(&p, "|  ...  |"), (TaskType::TaskContinue, "...".to_string()));
    assert_eq!(get_task(&p, "..."), (TaskType::NoTask, String::new()));
    assert_eq!(get_task(&p, "| 1. "), (TaskType::NoTask, String::new()));
    assert_eq!(get_task(&p, "Some random text"), (TaskType::NoTask, String::new()));
    assert_eq!(
        get_task(&p, "| 19.5 18:50 | 1h | 2. |"),
        (TaskType::TaskNumber, "2".to_string())
    );
}

#[test]
fn task_from_a_search() {
    assert_eq!(
        task_from(&found(&[Some("1. a"), Some("1. a"), None, None, None])),
        (TaskType::TaskString, "1. a".to_string())
    );
    assert_eq!(
        task_from(&found(&[Some("| 9. |"), None, Some("9"), None, None])),
        (TaskType::TaskNumber, "9".to_string())
    );
    assert_eq!(
        task_from(&found(&[Some("|meet|"), None, None, Some("meet"), None])),
        (TaskType::Meeting, "Meetting".to_string())
    );
    assert_eq!(
        task_from(&found(&[Some("|...|"), None, None, None, Some("...")])),
        (TaskType::TaskContinue, "...".to_string())
    );
    assert_eq!(task_from(&found(&[Some("x")])), (TaskType::TaskContinue, "...".to_string()));
    assert_eq!(
        task_from(&found(&[Some("x"), Some("first"), Some("second"), Some("third")])),
        (TaskType::TaskString, "first".to_string())
    );
    assert_eq!(task_from(&Search::Absent), (TaskType::NoTask, String::new()));
    assert_eq!(
        task_from(&Search::Failed("gave up".to_string())),
        (TaskType::NoTask, String::new())
    );
}

#[test]
fn duration_from_a_search() {
    assert_eq!(duration_from(&found(&[Some("1.5h"), Some("1.5"), Some(".5")])), "1.5");
    assert_eq!(duration_from(&found(&[Some("h"), None])), "0");
    assert_eq!(duration_from(&found(&[Some("h")])), "0");
    assert_eq!(duration_from(&Search::Absent), "0");
    assert_eq!(duration_from(&Search::Failed("gave up".to_string())), "0");
}

#[test]
fn week_label_from_a_search() {
    assert_eq!(
        week_label(&found(&[Some("## Week 1.1 - 7.1"), Some("Week 1.1")])),
        Some("Week 1.1".to_string())
    );
    assert_eq!(week_label(&found(&[Some("## Week 1.1 - 7.1"), None])), None);
    assert_eq!(week_label(&found(&[Some("## Week 1.1 - 7.1")])), None);
    assert_eq!(week_label(&Search::Absent), None);
    assert_eq!(week_label(&Search::Failed("gave up".to_string())), None);
}

#[test]
fn row_cells_from_a_search() {
    let cells = row_cells(&found(&[Some("| 1.1 8:00 |"), Some("1.1"), Some("8:00"), None])).unwrap();
    assert_eq!(cells.date.as_deref(), Some("1.1"));
    assert_eq!(cells.time.as_deref(), Some("8:00"));
    assert_eq!(cells.range, None);
    let cells = row_cells(&found(&[Some("| 1 - 2 |"), None, None, Some("1 - 2")])).unwrap();
    assert_eq!(cells.date, None);
    assert_eq!(cells.time, None);
    assert_eq!(cells.range.as_deref(), Some("1 - 2"));
    let cells = row_cells(&found(&[Some("x")])).unwrap();
    assert!(cells.date.is_none() && cells.time.is_none() && cells.range.is_none());
    assert!(row_cells(&Search::Absent).is_none());
    assert!(row_cells(&Search::Failed("gave up".to_string())).is_none());
}

#[test]
fn group_of_a_match() {
    let groups = vec![Some("whole".to_string()), None, Some("two".to_string())];
    assert_eq!(group(&groups, 0), Some("whole".to_string()));
    assert_eq!(group(&groups, 1), None);
    assert_eq!(group(&groups, 2), Some("two".to_string()));
    assert_eq!(group(&groups, 3), None);
    assert_eq!(group(&Vec::new(), 0), None);
}

#[test]
fn classify_goes_by_header_then_row_then_definition() {
    let header = found(&[Some("## Week 1.1 - 7.1"), Some("Week 1.1")]);
    let cell = found(&[Some("| 1.1 8:00 |"), Some("1.1"), Some("8:00"), None]);
    let hours = found(&[Some("2h"), Some("2"), None]);
    let number = found(&[Some("| 3. |"), None, Some("3"), None, None]);
    let definition = found(&[Some("3. Plan"), Some("3. Plan"), None, None, None]);
    let gave_up = Search::Failed("gave up".to_string());

    match classify(&header, &cell, &hours, &definition) {
        Ok(Line::WeekHeader(label)) => assert_eq!(label, "Week 1.1"),
        other => panic!("{:?}", other),
    }
    match classify(&header, &gave_up, &gave_up, &gave_up) {
        Ok(Line::WeekHeader(label)) => assert_eq!(label, "Week 1.1"),
        other => panic!("{:?}", other),
    }
    match classify(&Search::Absent, &cell, &hours, &number) {
        Ok(Line::TableRow(row)) => {
            assert_eq!(row.cells.date.as_deref(), Some("1.1"));
            assert_eq!(row.cells.time.as_deref(), Some("8:00"));
            assert_eq!(row.cells.range, None);
            assert_eq!(row.duration, "2");
            assert_eq!(row.task_type, TaskType::TaskNumber);
            assert_eq!(row.task, "3");
        }
        other => panic!("{:?}", other),
    }
    match classify(&Search::Absent, &cell, &gave_up, &gave_up) {
        Ok(Line::TableRow(row)) => {
            assert_eq!(row.duration, "0");
            assert_eq!(row.task_type, TaskType::NoTask);
            assert_eq!(row.task, "");
        }
        other => panic!("{:?}", other),
    }
    match classify(&Search::Absent, &cell, &hours, &definition) {
        Ok(Line::TableRow(row)) => assert_eq!(row.task_type, TaskType::TaskString),
        other => panic!("{:?}", other),
    }
    match classify(&Search::Absent, &Search::Absent, &hours, &definition) {
        Ok(Line::TaskDefinition(text)) => assert_eq!(text, "3. Plan"),
        other => panic!("{:?}", other),
    }
    assert!(matches!(
        classify(&Search::Absent, &Search::Absent, &hours, &number),
        Ok(Line::Other)
    ));
    assert!(matches!(
        classify(&Search::Absent, &Search::Absent, &Search::Absent, &Search::Absent),
        Ok(Line::Other)
    ));
    assert!(matches!(
        classify(&found(&[Some("x"), None]), &Search::Absent, &Search::Absent, &Search::Absent),
        Ok(Line::Other)
    ));
}

#[test]
fn classify_fails_where_a_deciding_search_gave_up() {
    let cell = found(&[Some("| 1.1 8:00 |"), Some("1.1"), Some("8:00"), None]);
    match classify(&Search::Failed("no header".to_string()), &cell, &Search::Absent, &Search::Absent) {
        Err(e) => assert_eq!(e.message(), "no header"),
        other => panic!("{:?}", other),
    }
    match classify(
        &Search::Absent,
        &Search::Failed("no cell".to_string()),
        &Search::Absent,
        &Search::Absent,
    ) {
        Err(e) => assert_eq!(e.message(), "no cell"),
        other => panic!("{:?}", other),
    }
}

#[test]
fn classify_line_searches_the_line() {
    let p = patterns();
    match classify_line(&p, "## Week 25.5 - 30.5") {
        Ok(Line::WeekHeader(label)) => assert_eq!(label, "Week 25.5"),
        other => panic!("{:?}", other),
    }
    match classify_line(&p, "| 10 - 30 | 40h | ... |") {
        Ok(Line::TableRow(row)) => {
            assert_eq!(row.cells.range.as_deref(), Some("10 - 30"));
            assert_eq!(row.cells.date, None);
            assert_eq!(row.cells.time, None);
            assert_eq!(row.duration, "40");
            assert_eq!(row.task_type, TaskType::TaskContinue);
            assert_eq!(row.task, "...");
        }
        other => panic!("{:?}", other),
    }
    match classify_line(&p, "2. Write report") {
        Ok(Line::TaskDefinition(text)) => assert_eq!(text, "2. Write report"),
        other => panic!("{:?}", other),
    }
    assert!(matches!(classify_line(&p, "| 92. |"), Ok(Line::Other)));
    assert!(matches!(classify_line(&p, "## Week 2.5"), Ok(Line::Other)));
    assert!(matches!(classify_line(&p, ""), Ok(Line::Other)));
}

#[test]
fn add_row_before_first_week_drops_the_row() {
    let mut weeks: Vec<Week> = Vec::new();
    assert!(add_row(&mut weeks, row(Some("1.1"), Some("8:00"), None, TaskType::TaskNumber)).is_ok());
    assert!(weeks.is_empty());
    assert!(add_row(&mut weeks, row(Some("1.1"), Some("8:00"), None, TaskType::TaskString)).is_ok());
    assert!(weeks.is_empty());
}

#[test]
fn add_row_with_date_and_time_opens_one_day_with_one_entry() {
    let mut weeks = one_week();
    assert!(add_row(&mut weeks, row(Some("1.1"), Some("8:00"), None, TaskType::TaskNumber)).is_ok());
    assert_eq!(weeks.len(), 1);
    assert_eq!(weeks[0].days.len(), 1);
    assert_eq!(weeks[0].days[0].date, "1.1");
    assert_eq!(weeks[0].days[0].hours.len(), 1);
    assert_eq!(weeks[0].days[0].hours[0].time, "8:00");
    assert_eq!(weeks[0].days[0].hours[0].duration, "1.5");
    assert_eq!(weeks[0].days[0].hours[0].task, "7");
}

#[test]
fn add_row_with_date_alone_opens_a_day_without_entries() {
    let mut weeks = one_week();
    assert!(add_row(&mut weeks, row(Some("1.1"), None, Some("1 - 2"), TaskType::NoTask)).is_ok());
    assert_eq!(weeks[0].days.len(), 1);
    assert_eq!(weeks[0].days[0].date, "1.1");
    assert!(weeks[0].days[0].hours.is_empty());
}

#[test]
fn add_row_with_range_opens_one_day_with_one_entry_at_star() {
    let mut weeks = one_week();
    assert!(add_row(&mut weeks, row(None, Some("8:00"), Some("1 - 2"), TaskType::Meeting)).is_ok());
    assert_eq!(weeks[0].days.len(), 1);
    assert_eq!(weeks[0].days[0].date, "1 - 2");
    assert_eq!(weeks[0].days[0].hours.len(), 1);
    assert_eq!(weeks[0].days[0].hours[0].time, "*");
    assert_eq!(weeks[0].days[0].hours[0].duration, "1.5");
    assert_eq!(weeks[0].days[0].hours[0].task, "7");
}

#[test]
fn add_row_with_time_alone_needs_a_day() {
    let mut weeks = one_week();
    assert!(add_row(&mut weeks, row(None, Some("8:00"), None, TaskType::NoTask)).is_ok());
    assert!(weeks[0].days.is_empty());
    assert!(add_row(&mut weeks, row(Some("1.1"), None, None, TaskType::NoTask)).is_ok());
    assert!(add_row(&mut weeks, row(None, Some("9:00"), None, TaskType::NoTask)).is_ok());
    assert!(add_row(&mut weeks, row(None, None, None, TaskType::NoTask)).is_ok());
    assert_eq!(weeks[0].days.len(), 1);
    assert_eq!(weeks[0].days[0].hours.len(), 1);
    assert_eq!(weeks[0].days[0].hours[0].time, "9:00");
}

#[test]
fn add_row_refuses_a_task_definition() {
    let mut weeks = one_week();
    match add_row(&mut weeks, row(Some("1.1"), Some("8:00"), None, TaskType::TaskString)) {
        Err(e) => assert_eq!(e.message(), "Invalid format for task in date table"),
        Ok(()) => panic!("the row was accepted"),
    }
    assert_eq!(weeks.len(), 1);
    assert!(weeks[0].days.is_empty());
}

#[test]
fn resolve_task_says_which_entry_it_changed() {
    let mut weeks = one_week();
    for (time, task) in [("8:00", "..."), ("9:00", "3"), ("10:00", "3")] {
        let mut r = row(None, Some(time), None, TaskType::TaskNumber);
        if time == "8:00" {
            r.cells.date = Some("1.1".to_string());
        }
        r.task = task.to_string();
        assert!(add_row(&mut weeks, r).is_ok());
    }
    add_week(&mut weeks, "Week 8.1".to_string());
    let mut r = row(Some("8.1"), Some("8:00"), None, TaskType::TaskNumber);
    r.task = "4".to_string();
    assert!(add_row(&mut weeks, r).is_ok());

    assert_eq!(resolve_task(&mut weeks, "5. Nothing waits"), None);
    assert_eq!(resolve_task(&mut weeks, "4. Later"), Some((1, 0, 0)));
    assert_eq!(weeks[1].days[0].hours[0].task, "Later");
    assert_eq!(resolve_task(&mut weeks, "3. First"), Some((0, 0, 1)));
    assert_eq!(resolve_task(&mut weeks, "3. Second"), Some((0, 0, 2)));
    assert_eq!(resolve_task(&mut weeks, "3. Third"), None);
    let tasks: Vec<&str> = weeks[0].days[0].hours.iter().map(|h| h.task.as_str()).collect();
    assert_eq!(tasks, vec!["...", "First", "Second"]);
    let times: Vec<&str> = weeks[0].days[0].hours.iter().map(|h| h.time.as_str()).collect();
    assert_eq!(times, vec!["8:00", "9:00", "10:00"]);
}

#[test]
fn resolve_task_drops_three_characters_of_the_definition() {
    let mut weeks = one_week();
    let mut r = row(Some("1.1"), Some("8:00"), None, TaskType::TaskNumber);
    r.task = "1".to_string();
    assert!(add_row(&mut weeks, r).is_ok());
    assert_eq!(resolve_task(&mut weeks, "1."), None.or(Some((0, 0, 0))));
    assert_eq!(weeks[0].days[0].hours[0].task, "");
}

#[test]
fn apply_line_takes_each_kind_of_line() {
    let mut weeks: Vec<Week> = Vec::new();
    assert!(apply_line(&mut weeks, Line::Other).is_ok());
    assert!(apply_line(&mut weeks, Line::TaskDefinition("1. x".to_string())).is_ok());
    assert!(weeks.is_empty());
    assert!(apply_line(&mut weeks, Line::WeekHeader("Week 1.1".to_string())).is_ok());
    assert_eq!(weeks.len(), 1);
    assert_eq!(weeks[0].week_start, "Week 1.1");
    assert!(apply_line(
        &mut weeks,
        Line::TableRow(row(Some("1.1"), Some("8:00"), None, TaskType::TaskNumber))
    )
    .is_ok());
    assert!(apply_line(&mut weeks, Line::TaskDefinition("7. Seven".to_string())).is_ok());
    assert_eq!(weeks[0].days[0].hours[0].task, "Seven");
    assert!(apply_line(
        &mut weeks,
        Line::TableRow(row(Some("2.1"), Some("8:00"), None, TaskType::TaskString))
    )
    .is_err());
    assert_eq!(weeks[0].days.len(), 1);
}
