use shell_todo::document::{
    parse_tasks, task_from_json, task_to_json, tasks_from_json, tasks_to_json, write_tasks,
};
use shell_todo::Task;

fn task(description: &str, priority: u8) -> Task {
    Task { description: String::from(description), priority }
}

fn texts(tasks: &Vec<Task>) -> Vec<(String, u8)> {
    tasks.iter().map(|t| (t.description.clone(), t.priority)).collect()
}

fn pairs(items: &[(&str, u8)]) -> Vec<(String, u8)> {
    items.iter().map(|(d, p)| (String::from(*d), *p)).collect()
}

fn record(fields: &[(&str, serde_json::Value)]) -> serde_json::Value {
    let mut map = serde_json::Map::new();
    for (name, value) in fields {
        map.insert(String::from(*name), value.clone());
    }
    serde_json::Value::Object(map)
}

fn text(value: &str) -> serde_json::Value {
    serde_json::Value::String(String::from(value))
}

fn number(value: u64) -> serde_json::Value {
    serde_json::Value::from(value)
}

#[test]
fn a_task_becomes_a_record_of_two_fields() {
    let value = task_to_json(&task("buy milk", 2));
    assert_eq!(value, record(&[("description", text("buy milk")), ("priority", number(2))]));
}

#[test]
fn a_list_becomes_an_array_of_records() {
    let value = tasks_to_json(&vec![task("x", 1), task("y", 3)]);
    let expected = serde_json::Value::Array(vec![
        record(&[("description", text("x")), ("priority", number(1))]),
        record(&[("description", text("y")), ("priority", number(3))]),
    ]);
    assert_eq!(value, expected);
}

#[test]
fn an_empty_list_becomes_an_empty_array() {
    assert_eq!(tasks_to_json(&Vec::new()), serde_json::Value::Array(Vec::new()));
}

#[test]
fn a_record_of_the_two_fields_is_a_task() {
    let value = record(&[("description", text("pay taxes")), ("priority", number(3))]);
    let read = task_from_json(&value).unwrap();
    assert_eq!(read.description, "pay taxes");
    assert_eq!(read.priority, 3);
}

#[test]
fn a_record_with_another_field_is_no_task() {
    let value = record(&[
        ("description", text("pay taxes")),
        ("priority", number(3)),
        ("due", text("friday")),
    ]);
    assert!(task_from_json(&value).is_none());
}

#[test]
fn a_record_that_lacks_a_field_is_no_task() {
    assert!(task_from_json(&record(&[("description", text("a"))])).is_none());
    assert!(task_from_json(&record(&[("priority", number(1))])).is_none());
    assert!(task_from_json(&record(&[])).is_none());
    assert!(
        task_from_json(&record(&[("description", text("a")), ("level", number(1))])).is_none()
    );
    assert!(task_from_json(&record(&[("text", text("a")), ("priority", number(1))])).is_none());
}

#[test]
fn a_record_with_fields_of_another_kind_is_no_task() {
    assert!(
        task_from_json(&record(&[("description", number(1)), ("priority", number(1))])).is_none()
    );
    assert!(
        task_from_json(&record(&[("description", text("a")), ("priority", text("1"))])).is_none()
    );
    assert!(task_from_json(&record(&[
        ("description", serde_json::Value::Null),
        ("priority", number(1))
    ]))
    .is_none());
    assert!(task_from_json(&record(&[
        ("description", text("a")),
        ("priority", serde_json::Value::Bool(true))
    ]))
    .is_none());
}

#[test]
fn a_priority_beyond_a_byte_is_no_task() {
    let fits = record(&[("description", text("a")), ("priority", number(255))]);
    assert_eq!(task_from_json(&fits).unwrap().priority, 255);
    let over = record(&[("description", text("a")), ("priority", number(256))]);
    assert!(task_from_json(&over).is_none());
    let negative = record(&[("description", text("a")), ("priority", serde_json::Value::from(-1))]);
    assert!(task_from_json(&negative).is_none());
}

#[test]
fn a_value_that_is_no_record_is_no_task() {
    assert!(task_from_json(&text("a")).is_none());
    assert!(task_from_json(&number(1)).is_none());
    assert!(task_from_json(&serde_json::Value::Null).is_none());
    assert!(task_from_json(&serde_json::Value::Array(vec![text("a"), number(1)])).is_none());
}

#[test]
fn an_array_of_task_records_is_a_list() {
    let value = serde_json::Value::Array(vec![
        record(&[("priority", number(0)), ("description", text("a"))]),
        record(&[("description", text("b")), ("priority", number(7))]),
    ]);
    let read = tasks_from_json(&value).unwrap();
    assert_eq!(texts(&read), pairs(&[("a", 0), ("b", 7)]));
}

#[test]
fn an_array_with_one_bad_item_is_no_list() {
    let value = serde_json::Value::Array(vec![
        record(&[("description", text("a")), ("priority", number(0))]),
        number(3),
    ]);
    assert!(tasks_from_json(&value).is_none());
}

#[test]
fn a_value_that_is_no_array_is_no_list() {
    assert!(tasks_from_json(&record(&[("description", text("a")), ("priority", number(0))]))
        .is_none());
    assert!(tasks_from_json(&serde_json::Value::Null).is_none());
    assert!(tasks_from_json(&text("[]")).is_none());
}

#[test]
fn empty_array_text_is_an_empty_list() {
    assert!(parse_tasks("[]").unwrap().is_empty());
    assert!(parse_tasks(" [ ] \n").unwrap().is_empty());
}

#[test]
fn text_of_the_data_file_is_read() {
    let read = parse_tasks(
        "[\n  { \"description\": \"buy milk\", \"priority\": 1 },\n  { \"description\": \"pay taxes\", \"priority\": 3 }\n]",
    )
    .unwrap();
    assert_eq!(texts(&read), pairs(&[("buy milk", 1), ("pay taxes", 3)]));
}

#[test]
fn text_that_is_no_json_is_not_read() {
    assert!(parse_tasks("").is_none());
    assert!(parse_tasks("[").is_none());
    assert!(parse_tasks("not json").is_none());
    assert!(parse_tasks("[{\"description\": \"a\", \"priority\": 1},]").is_none());
}

#[test]
fn text_that_is_no_task_list_is_not_read() {
    assert!(parse_tasks("{}").is_none());
    assert!(parse_tasks("null").is_none());
    assert!(parse_tasks("[1, 2]").is_none());
    assert!(parse_tasks("[{\"description\": \"a\"}]").is_none());
    assert!(parse_tasks("[{\"description\": \"a\", \"priority\": 1.5}]").is_none());
    assert!(parse_tasks("[{\"description\": \"a\", \"priority\": 1.0}]").is_none());
    assert!(parse_tasks("[{\"description\": \"a\", \"priority\": -1}]").is_none());
    assert!(parse_tasks("[{\"description\": \"a\", \"priority\": 256}]").is_none());
    assert!(parse_tasks("[{\"description\": \"a\", \"priority\": 1, \"done\": false}]").is_none());
}

#[test]
fn an_empty_list_is_written_as_an_empty_array() {
    assert_eq!(write_tasks(&Vec::new()).unwrap(), "[]");
}

#[test]
fn a_list_is_written_pretty() {
    let written = write_tasks(&vec![task("buy milk", 1), task("pay taxes", 3)]).unwrap();
    assert_eq!(
        written,
        "[\n  {\n    \"description\": \"buy milk\",\n    \"priority\": 1\n  },\n  {\n    \"description\": \"pay taxes\",\n    \"priority\": 3\n  }\n]"
    );
}

#[test]
fn a_written_list_is_read_back() {
    let lists = vec![
        Vec::new(),
        vec![task("a", 0)],
        vec![task("x", 1), task("y", 1), task("z", 1)],
        vec![task("quote \" and \\ backslash", 2), task("line\nbreak\ttab", 3)],
        vec![task("caf\u{e9} \u{1f600} \u{1b}[0m", 255), task("", 4)],
    ];
    for list in lists {
        let written = write_tasks(&list).unwrap();
        let read = parse_tasks(&written).unwrap();
        assert_eq!(texts(&read), texts(&list));
    }
}

#[test]
fn levels_outside_the_named_ones_are_read_back_unchanged() {
    for level in [4u8, 5, 17, 128, 254, 255] {
        let written = write_tasks(&vec![task("odd", level)]).unwrap();
        assert!(written.contains(&format!("\"priority\": {}", level)));
        let read = parse_tasks(&written).unwrap();
        assert_eq!(texts(&read), vec![(String::from("odd"), level)]);
    }
}
