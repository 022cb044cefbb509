//! The task document: how a task list is written as a JSON array of records
//! and read back from one.
//!
//! The JSON text itself is parsed and written by `serde_json`. This module
//! describes a JSON value by a mathematical tree, [`Node`], builds the tree of
//! a task list, and reads a task list off a tree. Everything that is said of
//! `serde_json` is said in the contracts of the small functions at the end of
//! this file, which Verus takes on trust.

use crate::task::{models, Task, TaskModel};
use vstd::prelude::*;

verus! {

#[verifier::external_type_specification]
#[verifier::external_body]
pub struct ExJsonValue(serde_json::Value);

#[verifier::external_type_specification]
#[verifier::external_body]
pub struct ExJsonError(serde_json::Error);

#[verifier::external_type_specification]
#[verifier::external_body]
#[verifier::reject_recursive_types(K)]
#[verifier::reject_recursive_types(V)]
pub struct ExJsonMap<K, V>(serde_json::Map<K, V>);

/// A JSON value as a mathematical tree.
pub enum Node {
    Null,
    Bool(bool),
    /// A number that `serde_json` holds as an integer, signed or unsigned.
    Integer(int),
    /// A number that `serde_json` holds as a float, told apart by the text
    /// that it writes for it.
    Fraction(Seq<char>),
    Text(Seq<char>),
    List(Seq<Node>),
    Record(Map<Seq<char>, Node>),
}

/// The tree that a `serde_json::Value` holds.
pub uninterp spec fn node_of(value: serde_json::Value) -> Node;

/// The fields that a `serde_json::Map` holds, by name.
pub uninterp spec fn fields_of(fields: serde_json::Map<String, serde_json::Value>) -> Map<
    Seq<char>,
    Node,
>;

/// The tree that `serde_json::from_str` reads from a text, or `None` where it
/// reports an error.
pub uninterp spec fn parsed(text: Seq<char>) -> Option<Node>;

/// The text that `serde_json::to_string_pretty` writes for a tree, or `None`
/// where it reports an error.
pub uninterp spec fn pretty_text(node: Node) -> Option<Seq<char>>;

/// The trees of a sequence of values, in the same order.
pub open spec fn nodes_of(values: Seq<serde_json::Value>) -> Seq<Node> {
    values.map_values(|value: serde_json::Value| node_of(value))
}

/// The record that stands for one task.
pub open spec fn task_node(task: TaskModel) -> Node {
    Node::Record(
        map![
            "description"@ => Node::Text(task.description),
            "priority"@ => Node::Integer(task.priority as int),
        ],
    )
}

/// The document that stands for a task list: the list of its tasks' records.
pub open spec fn document_node(tasks: Seq<TaskModel>) -> Node {
    Node::List(tasks.map_values(|task: TaskModel| task_node(task)))
}

/// The task that a record stands for. A record stands for a task when it has
/// exactly the two fields `description`, a text, and `priority`, an integer
/// from 0 to 255.
pub open spec fn node_task(node: Node) -> Option<TaskModel> {
    match node {
        Node::Record(fields) => {
            if field_total(fields, 2) && fields.dom().contains("description"@)
                && fields.dom().contains("priority"@) {
                match (fields["description"@], fields["priority"@]) {
                    (Node::Text(description), Node::Integer(level)) => {
                        if 0 <= level <= 255 {
                            Some(TaskModel { description, priority: level as u8 })
                        } else {
                            None
                        }
                    },
                    _ => None,
                }
            } else {
                None
            }
        },
        _ => None,
    }
}

/// The task list that a document stands for: it is a list, and each of its
/// items stands for a task.
pub open spec fn node_tasks(node: Node) -> Option<Seq<TaskModel>> {
    match node {
        Node::List(items) => {
            if forall|i: int| 0 <= i < items.len() ==> (#[trigger] node_task(items[i])) is Some {
                Some(items.map_values(|item: Node| node_task(item)->Some_0))
            } else {
                None
            }
        },
        _ => None,
    }
}

/// The task list that a text stands for: the text is JSON, and the document
/// read from it stands for a task list.
pub open spec fn text_tasks(text: Seq<char>) -> Option<Seq<TaskModel>> {
    match parsed(text) {
        Some(node) => node_tasks(node),
        None => None,
    }
}

/// The text that is written for a task list: its document, pretty-printed;
/// `None` where the writer reports an error for the document.
pub open spec fn tasks_text(tasks: Seq<TaskModel>) -> Option<Seq<char>> {
    pretty_text(document_node(tasks))
}

/// The fields are finitely many, and `count` is their number.
pub open spec fn field_total(fields: Map<Seq<char>, Node>, count: nat) -> bool {
    fields.dom().finite() && fields.dom().len() == count
}

/// The unsigned integer that a tree is, if it is one that fits 64 bits.
pub open spec fn node_unsigned(node: Node) -> Option<u64> {
    match node {
        Node::Integer(number) => if 0 <= number <= u64::MAX {
            Some(number as u64)
        } else {
            None
        },
        _ => None,
    }
}

/// The two field names differ.
proof fn lemma_field_names_differ()
    ensures
        "description"@ != "priority"@,
{
    reveal_strlit("description");
    reveal_strlit("priority");
    assert("description"@.len() == 11);
    assert("priority"@.len() == 8);
}

/// A task is read back from its own record.
pub proof fn lemma_task_round_trip(task: TaskModel)
    ensures
        node_task(task_node(task)) == Some(task),
{
    lemma_field_names_differ();
    let fields = task_node(task)->Record_0;
    assert(fields.dom() =~= set!["description"@, "priority"@]);
}

/// A task list is read back from its own document.
pub proof fn lemma_document_round_trip(tasks: Seq<TaskModel>)
    ensures
        node_tasks(document_node(tasks)) == Some(tasks),
{
    let items = document_node(tasks)->List_0;
    assert forall|i: int| 0 <= i < items.len() implies (#[trigger] node_task(items[i])) == Some(
        tasks[i],
    ) by {
        lemma_task_round_trip(tasks[i]);
    }
    assert(items.map_values(|item: Node| node_task(item)->Some_0) =~= tasks);
}

/// Builds the value that holds one task's record.
pub fn task_to_json(task: &Task) -> (value: serde_json::Value)
    ensures
        node_of(value) == task_node(task@),
{
    let mut fields = new_fields();
    assert(fields_of(fields) =~= Map::empty());
    put_field(&mut fields, String::from_str("description"), text_value(task.description.clone()));
    put_field(&mut fields, String::from_str("priority"), unsigned_value(task.priority as u64));
    assert(fields_of(fields) =~= task_node(task@)->Record_0);
    record_value(fields)
}

/// Builds the value that holds a task list's document.
pub fn tasks_to_json(tasks: &Vec<Task>) -> (value: serde_json::Value)
    ensures
        node_of(value) == document_node(models(tasks@)),
{
    let mut items: Vec<serde_json::Value> = Vec::new();
    let mut i: usize = 0;
    while i < tasks.len()
        invariant
            i <= tasks.len(),
            items@.len() == i,
            forall|j: int| 0 <= j < i ==> node_of(#[trigger] items@[j]) == task_node(tasks@[j]@),
        decreases tasks.len() - i,
    {
        items.push(task_to_json(&tasks[i]));
        i += 1;
    }
    assert(nodes_of(items@) =~= models(tasks@).map_values(|task: TaskModel| task_node(task)));
    list_value(items)
}

/// Reads the task that a value's record stands for.
pub fn task_from_json(value: &serde_json::Value) -> (task: Option<Task>)
    ensures
        match task {
            Some(task) => node_task(node_of(*value)) == Some(task@),
            None => node_task(node_of(*value)) is None,
        },
{
    let fields = match as_record(value) {
        Some(fields) => fields,
        None => { return None; },
    };
    if field_count(fields) != 2 {
        return None;
    }
    let description = match field(fields, "description") {
        Some(found) => match as_text(found) {
            Some(text) => String::from_str(text),
            None => { return None; },
        },
        None => { return None; },
    };
    let level = match field(fields, "priority") {
        Some(found) => match as_unsigned(found) {
            Some(level) => level,
            None => { return None; },
        },
        None => { return None; },
    };
    if level > 255 {
        return None;
    }
    Some(Task { description, priority: level as u8 })
}

/// Reads the task list that a value's document stands for.
pub fn tasks_from_json(value: &serde_json::Value) -> (tasks: Option<Vec<Task>>)
    ensures
        match tasks {
            Some(tasks) => node_tasks(node_of(*value)) == Some(models(tasks@)),
            None => node_tasks(node_of(*value)) is None,
        },
{
    let items = match as_list(value) {
        Some(items) => items,
        None => { return None; },
    };
    let ghost nodes = nodes_of(items@);
    let mut tasks: Vec<Task> = Vec::new();
    let mut i: usize = 0;
    while i < items.len()
        invariant
            i <= items.len(),
            nodes == nodes_of(items@),
            node_of(*value) == Node::List(nodes),
            tasks@.len() == i,
            forall|j: int| 0 <= j < i ==> (#[trigger] node_task(nodes[j])) == Some(tasks@[j]@),
        decreases items.len() - i,
    {
        assert(nodes[i as int] == node_of(items@[i as int]));
        match task_from_json(&items[i]) {
            Some(task) => {
                tasks.push(task);
            },
            None => {
                assert(node_task(nodes[i as int]) is None);
                return None;
            },
        }
        i += 1;
    }
    assert(nodes.map_values(|item: Node| node_task(item)->Some_0) =~= models(tasks@));
    Some(tasks)
}

/// Reads a task list from the text of a data file. `None` tells that the text
/// is no JSON or that its document stands for no task list.
pub fn parse_tasks(text: &str) -> (tasks: Option<Vec<Task>>)
    ensures
        match tasks {
            Some(tasks) => text_tasks(text@) == Some(models(tasks@)),
            None => text_tasks(text@) is None,
        },
{
    match parse_value(text) {
        Ok(value) => tasks_from_json(&value),
        Err(_) => None,
    }
}

/// Writes a task list as the text of a data file: the outcome is what the
/// writer gives for the list's document, its text or its error.
pub fn write_tasks(tasks: &Vec<Task>) -> (outcome: Result<String, serde_json::Error>)
    ensures
        outcome is Ok <==> tasks_text(models(tasks@)) is Some,
        outcome matches Ok(text) ==> Some(text@) == tasks_text(models(tasks@)),
{
    let value = tasks_to_json(tasks);
    pretty_value(&value)
}

/// `serde_json::Map::new`: a map without fields.
#[verifier::external_body]
fn new_fields() -> (fields: serde_json::Map<String, serde_json::Value>)
    ensures
        fields_of(fields).dom() == Set::<Seq<char>>::empty(),
{
    serde_json::Map::new()
}

/// `serde_json::Map::insert`: the field is set, in place of one of the same
/// name if there was one; the other fields stay.
#[verifier::external_body]
fn put_field(
    fields: &mut serde_json::Map<String, serde_json::Value>,
    name: String,
    value: serde_json::Value,
)
    ensures
        fields_of(*final(fields)) == fields_of(*old(fields)).insert(name@, node_of(value)),
{
    fields.insert(name, value);
}

/// `serde_json::Value::Object`: the value that is a record of the fields.
#[verifier::external_body]
fn record_value(fields: serde_json::Map<String, serde_json::Value>) -> (value: serde_json::Value)
    ensures
        node_of(value) == Node::Record(fields_of(fields)),
{
    serde_json::Value::Object(fields)
}

/// `serde_json::Value::Array`: the value that is a list of the items.
#[verifier::external_body]
fn list_value(items: Vec<serde_json::Value>) -> (value: serde_json::Value)
    ensures
        node_of(value) == Node::List(nodes_of(items@)),
{
    serde_json::Value::Array(items)
}

/// `serde_json::Value::String`: the value that is a text.
#[verifier::external_body]
fn text_value(text: String) -> (value: serde_json::Value)
    ensures
        node_of(value) == Node::Text(text@),
{
    serde_json::Value::String(text)
}

/// `serde_json::Value::from` for `u64`: the value that is this integer.
#[verifier::external_body]
fn unsigned_value(number: u64) -> (value: serde_json::Value)
    ensures
        node_of(value) == Node::Integer(number as int),
{
    serde_json::Value::from(number)
}

/// `serde_json::Value::as_array`: the items of a value that is a list, and
/// `None` for any other value.
#[verifier::external_body]
fn as_list(value: &serde_json::Value) -> (items: Option<&Vec<serde_json::Value>>)
    ensures
        match items {
            Some(items) => node_of(*value) == Node::List(nodes_of(items@)),
            None => !(node_of(*value) is List),
        },
{
    value.as_array()
}

/// `serde_json::Value::as_object`: the fields of a value that is a record, and
/// `None` for any other value.
#[verifier::external_body]
fn as_record(value: &serde_json::Value) -> (fields: Option<
    &serde_json::Map<String, serde_json::Value>,
>)
    ensures
        match fields {
            Some(fields) => node_of(*value) == Node::Record(fields_of(*fields)),
            None => !(node_of(*value) is Record),
        },
{
    value.as_object()
}

/// `serde_json::Value::as_str`: the text of a value that is a text, and `None`
/// for any other value.
#[verifier::external_body]
fn as_text(value: &serde_json::Value) -> (text: Option<&str>)
    ensures
        match text {
            Some(text) => node_of(*value) == Node::Text(text@),
            None => !(node_of(*value) is Text),
        },
{
    value.as_str()
}

/// `serde_json::Value::as_u64`: the number of a value that is an integer from
/// 0 to `u64::MAX`, and `None` for any other value.
#[verifier::external_body]
fn as_unsigned(value: &serde_json::Value) -> (number: Option<u64>)
    ensures
        number == node_unsigned(node_of(*value)),
{
    value.as_u64()
}

/// `serde_json::Map::get`: the value of the field of that name, and `None`
/// where the map has no such field.
#[verifier::external_body]
fn field<'a>(fields: &'a serde_json::Map<String, serde_json::Value>, name: &str) -> (value: Option<
    &'a serde_json::Value,
>)
    ensures
        match value {
            Some(value) => fields_of(*fields).dom().contains(name@) && fields_of(*fields)[name@]
                == node_of(*value),
            None => !fields_of(*fields).dom().contains(name@),
        },
{
    fields.get(name)
}

/// `serde_json::Map::len`: the number of fields, which is finite.
#[verifier::external_body]
fn field_count(fields: &serde_json::Map<String, serde_json::Value>) -> (count: usize)
    ensures
        field_total(fields_of(*fields), count as nat),
{
    fields.len()
}

/// `serde_json::from_str` at `serde_json::Value`: the value read from the
/// text, or the error.
#[verifier::external_body]
fn parse_value(text: &str) -> (outcome: Result<serde_json::Value, serde_json::Error>)
    ensures
        outcome is Ok <==> parsed(text@) is Some,
        outcome matches Ok(value) ==> Some(node_of(value)) == parsed(text@),
{
    serde_json::from_str::<serde_json::Value>(text)
}

/// `serde_json::to_string_pretty` on a `serde_json::Value`: the text written
/// for the value, or the error. The text is written to memory, so both depend
/// on the value alone.
#[verifier::external_body]
fn pretty_value(value: &serde_json::Value) -> (outcome: Result<String, serde_json::Error>)
    ensures
        outcome is Ok <==> pretty_text(node_of(*value)) is Some,
        outcome matches Ok(text) ==> Some(text@) == pretty_text(node_of(*value)),
{
    serde_json::to_string_pretty(value)
}

} // verus!
