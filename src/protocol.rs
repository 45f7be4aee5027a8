use vstd::prelude::*;

use crate::cache::{seconds_since_epoch, Cache};
use crate::lifecycle::{views, visible};
use crate::task::Task;

verus! {

/// A request from the board.
pub enum Action {
    /// Asks for the visible tasks.
    Init,
    /// A diagnostic line; it asks nothing of the store.
    Log { text: String },
    /// Replaces the stored list, then asks for the visible tasks.
    StoreTasks { tasks: Vec<Task> },
}

/// An answer to the board.
pub enum Response {
    Tasks { tasks: Vec<Task> },
    Error { error: String },
}

/// The stored list after `action` has been handled on `stored`.
pub open spec fn stored_after(action: Action, stored: Seq<Task>) -> Seq<Task> {
    match action {
        Action::StoreTasks { tasks } => tasks@,
        _ => stored,
    }
}

/// `r` answers `action` at `now`, given the list stored once it was handled.
pub open spec fn answers(action: Action, stored: Seq<Task>, now: int, r: Option<Response>) -> bool {
    match action {
        Action::Log { .. } => r is None,
        _ => r matches Some(Response::Tasks { tasks }) && views(tasks@) == visible(views(stored), now),
    }
}

impl Cache<Task> {
    /// Handles one request at `now`.
    pub fn respond_at(&mut self, action: Action, now: u64) -> (r: Option<Response>)
        ensures
            final(self)@ == stored_after(action, old(self)@),
            answers(action, final(self)@, now as int, r),
    {
        match action {
            Action::Init => Some(Response::Tasks { tasks: self.get_tasks_at(now) }),
            Action::Log { .. } => None,
            Action::StoreTasks { tasks } => {
                self.set_data(Box::new(tasks));
                Some(Response::Tasks { tasks: self.get_tasks_at(now) })
            },
        }
    }

    /// Handles one request at the current time. Where the clock cannot give the
    /// seconds since the epoch, a request that asks for tasks is answered with an
    /// error, after the store has been done.
    pub fn handle(&mut self, action: Action) -> (r: Option<Response>)
        ensures
            final(self)@ == stored_after(action, old(self)@),
            action is Log ==> r is None,
            r matches Some(Response::Error { .. }) || exists|now: u64|
                answers(action, final(self)@, now as int, r),
    {
        if let Action::Log { .. } = action {
            assert(answers(action, self@, 0u64 as int, None));
            return None;
        }
        match seconds_since_epoch() {
            Some(now) => self.respond_at(action, now),
            None => {
                if let Action::StoreTasks { tasks } = action {
                    self.set_data(Box::new(tasks));
                }
                Some(Response::Error { error: "could not read the current time".to_owned() })
            },
        }
    }
}

} // verus!
