//! Tasks and their priorities.

use vstd::prelude::*;

verus! {

/// The named priority levels. A task stores the level as a small integer, so
/// that a data file whose levels lie outside the named ones can still be read
/// and written back unchanged.
#[derive(Clone, Copy, Debug, PartialEq, Eq, Structural)]
pub enum Priority {
    Low,
    Normal,
    High,
    Urgent,
}

impl Priority {
    /// The integer that stands for this priority in a task and in the data file.
    pub open spec fn level_of(self) -> u8 {
        match self {
            Priority::Low => 0,
            Priority::Normal => 1,
            Priority::High => 2,
            Priority::Urgent => 3,
        }
    }

    /// The priority that a stored level names, if it names one.
    pub open spec fn named(level: u8) -> Option<Priority> {
        if level == 0 {
            Some(Priority::Low)
        } else if level == 1 {
            Some(Priority::Normal)
        } else if level == 2 {
            Some(Priority::High)
        } else if level == 3 {
            Some(Priority::Urgent)
        } else {
            None
        }
    }

    #[verifier::when_used_as_spec(level_of)]
    pub fn level(self) -> (level: u8)
        ensures
            level == self.level_of(),
    {
        match self {
            Priority::Low => 0,
            Priority::Normal => 1,
            Priority::High => 2,
            Priority::Urgent => 3,
        }
    }

    pub fn from_level(level: u8) -> (priority: Option<Priority>)
        ensures
            priority == Priority::named(level),
    {
        match level {
            0 => Some(Priority::Low),
            1 => Some(Priority::Normal),
            2 => Some(Priority::High),
            3 => Some(Priority::Urgent),
            _ => None,
        }
    }
}

/// Every priority is found again from its level, and a level that names a
/// priority is that priority's level.
pub proof fn lemma_level_names_priority(priority: Priority, level: u8)
    ensures
        Priority::named(priority.level_of()) == Some(priority),
        Priority::named(level) matches Some(p) ==> p.level_of() == level,
        Priority::named(level) is Some <==> level <= 3,
{
}

/// One entry of the todo list.
#[derive(Debug)]
pub struct Task {
    pub description: String,
    pub priority: u8,
}

/// What a task is, as a mathematical value: its text and its priority level.
pub struct TaskModel {
    pub description: Seq<char>,
    pub priority: u8,
}

impl View for Task {
    type V = TaskModel;

    open spec fn view(&self) -> TaskModel {
        TaskModel { description: self.description@, priority: self.priority }
    }
}

impl Clone for Task {
    fn clone(&self) -> (task: Task)
        ensures
            task == *self,
    {
        Task { description: self.description.clone(), priority: self.priority }
    }
}

impl Task {
    /// A task with the given text at a named priority.
    pub fn new(description: String, priority: Priority) -> (task: Task)
        ensures
            task.description == description,
            task.priority == priority.level_of(),
    {
        Task { description, priority: priority.level() }
    }
}

/// The mathematical values of a sequence of tasks, in the same order.
pub open spec fn models(tasks: Seq<Task>) -> Seq<TaskModel> {
    tasks.map_values(|task: Task| task@)
}

} // verus!
