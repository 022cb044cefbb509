//! The task store's rules: what a read of the data file means, what is
//! written back after a change, and which error stands for which failure.
//!
//! The store touches no file. Its caller finds the per-user data directory,
//! reads and writes the file at [`data_file`] below it, and tells the store
//! what happened.

use crate::document::{
    document_node, lemma_document_round_trip, node_tasks, parse_tasks, tasks_text, text_tasks,
    write_tasks,
};
use crate::list::{append, remove_displayed, removed_at, removed_displayed, same_tasks};
use crate::task::{models, Task, TaskModel};
use vstd::prelude::*;

verus! {

/// Why the store could not do what was asked.
#[derive(Clone, Copy, Debug, PartialEq, Eq, Structural)]
pub enum StoreError {
    /// The per-user data directory cannot be determined.
    NoDataDir,
    /// The data directory or the empty data file could not be created.
    CannotCreate,
    /// The data file could not be read, or what it holds is no task list.
    CannotRead,
    /// The task list could not be written as text, or the text could not be
    /// written to the data file.
    CannotSerialize,
}

impl StoreError {
    /// The one line that tells a user of the failure.
    pub open spec fn message_text(self) -> Seq<char> {
        match self {
            StoreError::NoDataDir => "cannot determine user data directory"@,
            StoreError::CannotCreate => "cannot create the data file"@,
            StoreError::CannotRead => "cannot read the data file"@,
            StoreError::CannotSerialize => "cannot serialize the tasks"@,
        }
    }

    /// The one line that tells a user of the failure.
    pub fn message(&self) -> (line: String)
        ensures
            line@ == self.message_text(),
    {
        match self {
            StoreError::NoDataDir => String::from_str("cannot determine user data directory"),
            StoreError::CannotCreate => String::from_str("cannot create the data file"),
            StoreError::CannotRead => String::from_str("cannot read the data file"),
            StoreError::CannotSerialize => String::from_str("cannot serialize the tasks"),
        }
    }
}

/// The outcome is the given error.
pub open spec fn fails_with<T>(outcome: Result<T, StoreError>, error: StoreError) -> bool {
    outcome matches Err(given) && given == error
}

/// The path of the data file below the per-user data directory.
pub fn data_file() -> (path: &'static str)
    ensures
        path@ == "shell_todo/tasks.json"@,
{
    "shell_todo/tasks.json"
}

/// What the attempt to read the data file gave.
#[derive(Debug)]
pub enum ReadOutcome {
    /// The per-user data directory could not be determined, so nothing was
    /// read.
    NoDataDir,
    /// The file was read; this is its text.
    Content(String),
    /// There is no such file.
    NotFound,
    /// The file is there and could not be read.
    Failed,
}

/// What follows a read of the data file.
#[derive(Debug)]
pub enum LoadStep {
    /// The list of tasks that the file held.
    Loaded(Vec<Task>),
    /// There is no file yet: the caller creates the missing directories and
    /// an empty file, and passes the outcome to [`first_run`].
    Create,
}

/// The task list that the text of a data file stands for. An empty file, as
/// a first run leaves it, stands for the empty list; any other text stands
/// for what its JSON document stands for.
pub open spec fn file_tasks(text: Seq<char>) -> Option<Seq<TaskModel>> {
    if text.len() == 0 {
        Some(Seq::empty())
    } else {
        text_tasks(text)
    }
}

/// Reads the task list that the text of a data file stands for. `None` tells
/// that the text stands for none.
pub fn read_tasks(text: &str) -> (tasks: Option<Vec<Task>>)
    ensures
        match tasks {
            Some(tasks) => file_tasks(text@) == Some(models(tasks@)),
            None => file_tasks(text@) is None,
        },
        text@.len() == 0 ==> (tasks matches Some(list) && list@.len() == 0),
{
    if text.is_empty() {
        let tasks: Vec<Task> = Vec::new();
        assert(models(tasks@) =~= Seq::empty());
        Some(tasks)
    } else {
        parse_tasks(text)
    }
}

/// Decides what a read of the data file means. A text that stands for a task
/// list is loaded, and so the empty file of a first run as the empty list; a
/// missing file is to be created; anything else is an error.
pub fn get_tasks(outcome: ReadOutcome) -> (step: Result<LoadStep, StoreError>)
    ensures
        match outcome {
            ReadOutcome::NoDataDir => fails_with(step, StoreError::NoDataDir),
            ReadOutcome::Content(text) => match file_tasks(text@) {
                Some(tasks) => step matches Ok(LoadStep::Loaded(loaded)) && models(loaded@)
                    == tasks && loaded@.len() == tasks.len(),
                None => fails_with(step, StoreError::CannotRead),
            },
            ReadOutcome::NotFound => step matches Ok(LoadStep::Create),
            ReadOutcome::Failed => fails_with(step, StoreError::CannotRead),
        },
{
    match outcome {
        ReadOutcome::NoDataDir => Err(StoreError::NoDataDir),
        ReadOutcome::Content(text) => match read_tasks(text.as_str()) {
            Some(tasks) => Ok(LoadStep::Loaded(tasks)),
            None => Err(StoreError::CannotRead),
        },
        ReadOutcome::NotFound => Ok(LoadStep::Create),
        ReadOutcome::Failed => Err(StoreError::CannotRead),
    }
}

/// The task list of a first run: empty, once the directories and the empty
/// file have been created.
pub fn first_run(created: bool) -> (tasks: Result<Vec<Task>, StoreError>)
    ensures
        created ==> (tasks matches Ok(list) && list@.len() == 0),
        !created ==> fails_with(tasks, StoreError::CannotCreate),
{
    if created {
        Ok(Vec::new())
    } else {
        Err(StoreError::CannotCreate)
    }
}

/// Decides on the text that the writer of the document gave for a list: the
/// text is read back, and it is handed on only if it stands for the list.
/// Anything else comes to the store's error for a failed save.
pub fn checked_text(tasks: &Vec<Task>, written: Result<String, serde_json::Error>) -> (text:
    Result<String, StoreError>)
    ensures
        match written {
            Ok(document) => if file_tasks(document@) == Some(models(tasks@)) {
                text matches Ok(saved) && saved == document
            } else {
                fails_with(text, StoreError::CannotSerialize)
            },
            Err(_) => fails_with(text, StoreError::CannotSerialize),
        },
{
    match written {
        Ok(document) => {
            let same = match read_tasks(document.as_str()) {
                Some(read) => same_tasks(&read, tasks),
                None => false,
            };
            if same {
                Ok(document)
            } else {
                Err(StoreError::CannotSerialize)
            }
        },
        Err(_) => Err(StoreError::CannotSerialize),
    }
}

/// The text that a save of a list hands out: the text written for the list,
/// where one is written and a load of it gives the list.
pub open spec fn saved_text(tasks: Seq<TaskModel>) -> Option<Seq<char>> {
    match tasks_text(tasks) {
        Some(text) => if file_tasks(text) == Some(tasks) {
            Some(text)
        } else {
            None
        },
        None => None,
    }
}

/// The text to write to the data file for a list: its document,
/// pretty-printed. The text is handed out only after it has been read back,
/// so a later load of it gives the list that was saved. The only error is
/// that no such text could be written.
pub fn save_tasks(tasks: &Vec<Task>) -> (text: Result<String, StoreError>)
    ensures
        match saved_text(models(tasks@)) {
            Some(written) => text matches Ok(saved) && saved@ == written,
            None => fails_with(text, StoreError::CannotSerialize),
        },
        text matches Ok(saved) ==> file_tasks(saved@) == Some(models(tasks@)),
{
    checked_text(tasks, write_tasks(tasks))
}

/// What a save comes to, from whether the text could be written to the data
/// file.
pub fn save_outcome(written: bool) -> (outcome: Result<(), StoreError>)
    ensures
        written ==> outcome is Ok,
        !written ==> fails_with(outcome, StoreError::CannotSerialize),
{
    if written {
        Ok(())
    } else {
        Err(StoreError::CannotSerialize)
    }
}

/// Adds a task at the end of the list and gives the text to write to the data
/// file: a later load of it gives the list with the task added at its end. The
/// only error is that no such text could be written.
pub fn add_task(tasks: Vec<Task>, task: Task) -> (text: Result<String, StoreError>)
    ensures
        match saved_text(models(tasks@).push(task@)) {
            Some(written) => text matches Ok(saved) && saved@ == written,
            None => fails_with(text, StoreError::CannotSerialize),
        },
        text matches Ok(saved) ==> file_tasks(saved@) == Some(models(tasks@).push(task@)),
        text matches Ok(saved) ==> (file_tasks(saved@) matches Some(loaded) && loaded.len()
            == tasks@.len() + 1 && loaded.last() == task@ && loaded.drop_last() == models(
            tasks@,
        )),
{
    let ghost before = models(tasks@);
    let mut tasks = tasks;
    append(&mut tasks, task);
    assert(before.push(task@).drop_last() =~= before);
    save_tasks(&tasks)
}

/// Removes the task that the display shows at `position` and gives the text
/// to write to the data file: a later load of it gives the list without that
/// task. Where the display has no such row the outcome is that of a save of
/// the list as it was: the position is never a cause of failure. The only
/// error is that no such text could be written.
pub fn remove_task(tasks: Vec<Task>, position: usize) -> (text: Result<String, StoreError>)
    ensures
        match saved_text(removed_displayed(models(tasks@), position as int)) {
            Some(written) => text matches Ok(saved) && saved@ == written,
            None => fails_with(text, StoreError::CannotSerialize),
        },
        text matches Ok(saved) ==> file_tasks(saved@) == Some(
            removed_displayed(models(tasks@), position as int),
        ),
        position >= tasks@.len() ==> match saved_text(models(tasks@)) {
            Some(written) => text matches Ok(saved) && saved@ == written,
            None => fails_with(text, StoreError::CannotSerialize),
        },
{
    let mut tasks = tasks;
    remove_displayed(&mut tasks, position);
    save_tasks(&tasks)
}

/// The document of a list with a task added stands for a list whose last task
/// is the added one and whose tasks before it are those of the list as it
/// was.
pub proof fn lemma_added_task_is_last(tasks: Seq<TaskModel>, task: TaskModel)
    ensures
        node_tasks(document_node(tasks.push(task))) matches Some(loaded) && loaded.len()
            == tasks.len() + 1 && loaded.last() == task && loaded.drop_last() == tasks,
{
    lemma_document_round_trip(tasks.push(task));
    assert(tasks.push(task).drop_last() =~= tasks);
}

/// The document of a list with the task at one of its positions removed
/// stands for the list without that task: the tasks before it stay where they
/// were, and those after it move up by one.
pub proof fn lemma_removed_task_is_gone(tasks: Seq<TaskModel>, position: int)
    requires
        0 <= position < tasks.len(),
    ensures
        node_tasks(document_node(removed_at(tasks, position))) matches Some(loaded) && loaded.len()
            == tasks.len() - 1 && (forall|i: int| 0 <= i < position ==> loaded[i] == tasks[i])
            && (forall|i: int| position <= i < loaded.len() ==> loaded[i] == tasks[i + 1]),
{
    lemma_document_round_trip(removed_at(tasks, position));
}

/// Removing at a position that the list does not have leaves the list as it
/// was, whether the position is one of the list or one of its display. What
/// is then saved is what a save of the list as it was gives: the position is
/// never a cause of failure.
pub proof fn lemma_remove_beyond_end_keeps_list(tasks: Seq<TaskModel>, position: int)
    requires
        position >= tasks.len(),
    ensures
        removed_at(tasks, position) == tasks,
        removed_displayed(tasks, position) == tasks,
        saved_text(removed_displayed(tasks, position)) == saved_text(tasks),
{
}

} // verus!
