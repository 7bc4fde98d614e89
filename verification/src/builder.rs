//! A task manager that is put together step by step by a builder.

use vstd::prelude::*;
use vstd::string::StringExecFns;

verus! {

/// What a task manager, or a builder of one, holds.
pub struct TaskSettings {
    pub state: Seq<char>,
    pub count: nat,
}

/// The state that every new builder starts in.
pub open spec fn initial_state() -> Seq<char> {
    "initialized"@
}

#[derive(Debug)]
pub struct TaskManager {
    state: String,
    count: usize,
}

pub struct TaskManagerBuilder {
    state: String,
    count: usize,
}

impl View for TaskManager {
    type V = TaskSettings;

    closed spec fn view(&self) -> TaskSettings {
        TaskSettings { state: self.state@, count: self.count as nat }
    }
}

impl View for TaskManagerBuilder {
    type V = TaskSettings;

    closed spec fn view(&self) -> TaskSettings {
        TaskSettings { state: self.state@, count: self.count as nat }
    }
}

impl TaskManager {
    /// The number of tasks.
    pub fn count(&self) -> (count: &usize)
        ensures
            *count == self@.count,
    {
        &self.count
    }
}

impl Default for TaskManagerBuilder {
    /// A builder with no state set and no tasks.
    fn default() -> (builder: Self)
        ensures
            builder@ == (TaskSettings { state: Seq::empty(), count: 0 }),
    {
        TaskManagerBuilder { state: String::new(), count: 0 }
    }
}

impl TaskManagerBuilder {
    /// A builder in the initial state, with no tasks.
    pub fn new() -> (builder: Self)
        ensures
            builder@ == (TaskSettings { state: initial_state(), count: 0 }),
    {
        TaskManagerBuilder { state: String::from_str("initialized"), count: 0 }
    }

    /// Sets the number of tasks and leaves the rest as it is.
    pub fn count(self, value: usize) -> (builder: Self)
        ensures
            builder@ == (TaskSettings { count: value as nat, ..self@ }),
    {
        TaskManagerBuilder { state: self.state, count: value }
    }

    /// The task manager with the settings collected so far.
    pub fn build(self) -> (manager: TaskManager)
        ensures
            manager@ == self@,
    {
        TaskManager { state: self.state, count: self.count }
    }
}

} // verus!
