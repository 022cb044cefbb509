//! A single-user todo list: the task store's rules, the operations on a task
//! list, and the rendering of the list as a framed table.
//!
//! The library works on plain values. Reading and writing the data file is
//! left to the caller, who hands over what a read gave and writes back the
//! document text that a change produced.

pub mod document;
pub mod list;
pub mod render;
pub mod store;
pub mod task;

pub use render::list_tasks;
pub use store::{add_task, get_tasks, remove_task, LoadStep, ReadOutcome, StoreError};
pub use task::{Priority, Task, TaskModel};
