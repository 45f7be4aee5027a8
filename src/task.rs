use vstd::prelude::*;

verus! {

/// Seconds after which a finished task is no longer shown.
pub const ONE_DAY_IN_SECONDS: u64 = 86400;

/// One unit of work on the board.
#[derive(Clone, Debug, PartialEq, Eq, PartialOrd, Ord)]
pub struct Task {
    pub subject: String,
    pub status: String,
    pub priority: i32,
    pub wait_until: Option<u64>,
    pub updated: u64,
}

/// The mathematical value of a task: its texts as character sequences.
pub ghost struct TaskView {
    pub subject: Seq<char>,
    pub status: Seq<char>,
    pub priority: i32,
    pub wait_until: Option<u64>,
    pub updated: u64,
}

impl View for Task {
    type V = TaskView;

    open spec fn view(&self) -> TaskView {
        TaskView {
            subject: self.subject@,
            status: self.status@,
            priority: self.priority,
            wait_until: self.wait_until,
            updated: self.updated,
        }
    }
}

impl Task {
    /// Builds a task from its fields.
    pub fn new(subject: String, status: String, priority: i32, wait_until: Option<u64>, updated: u64) -> (r: Task)
        ensures
            r.subject == subject,
            r.status == status,
            r.priority == priority,
            r.wait_until == wait_until,
            r.updated == updated,
    {
        Task { subject, status, priority, wait_until, updated }
    }

    /// A new task with the same fields as this one.
    pub fn duplicate(&self) -> (r: Task)
        ensures
            r == *self,
    {
        Task {
            subject: self.subject.clone(),
            status: self.status.clone(),
            priority: self.priority,
            wait_until: self.wait_until,
            updated: self.updated,
        }
    }
}

} // verus!
