use vstd::prelude::*;

use crate::lifecycle::{views, visible, visible_tasks};
use crate::task::Task;

verus! {

/// The in-memory mirror of the stored task list.
pub struct Cache<T> {
    data: Box<Vec<T>>,
}

impl<T> View for Cache<T> {
    type V = Seq<T>;

    closed spec fn view(&self) -> Seq<T> {
        self.data@
    }
}

impl<T> Cache<T> {
    /// A cache that holds nothing yet.
    pub fn new() -> (r: Cache<T>)
        ensures
            r@ == Seq::<T>::empty(),
    {
        Cache { data: Box::new(Vec::new()) }
    }

    /// Replaces what the cache holds.
    pub fn set_data(&mut self, data: Box<Vec<T>>)
        ensures
            final(self)@ == data@,
    {
        self.data = data;
    }

    /// The list that the cache holds, in its order.
    pub fn get_all(&self) -> (r: &Vec<T>)
        ensures
            r@ == self@,
    {
        &self.data
    }

    /// Loads the outcome of reading the stored list: the list itself, or an empty
    /// list where it could not be read as one.
    pub fn initialize_from<E>(&mut self, parsed: Result<Vec<T>, E>)
        ensures
            parsed is Ok ==> final(self)@ == parsed->Ok_0@,
            parsed is Err ==> final(self)@ == Seq::<T>::empty(),
    {
        let tasks: Vec<T> = match parsed {
            Ok(data) => data,
            Err(_) => Vec::new(),
        };
        self.set_data(Box::new(tasks));
    }
}

/// Relies on std::time::SystemTime::duration_since, taken from SystemTime::now to
/// UNIX_EPOCH: the whole seconds since the epoch, or None where the clock stands
/// before it.
#[verifier::external_body]
pub(crate) fn seconds_since_epoch() -> (r: Option<u64>) {
    std::time::SystemTime::now().duration_since(std::time::UNIX_EPOCH).ok().map(|d| d.as_secs())
}

/// A new list that holds the same tasks, in the same order.
fn copy_tasks(tasks: &Vec<Task>) -> (r: Vec<Task>)
    ensures
        r@ == tasks@,
{
    let mut out: Vec<Task> = Vec::new();
    let mut i: usize = 0;
    while i < tasks.len()
        invariant
            i <= tasks.len(),
            out@ == tasks@.take(i as int),
        decreases tasks.len() - i,
    {
        out.push(tasks[i].duplicate());
        assert(out@ =~= tasks@.take(i + 1));
        i = i + 1;
    }
    assert(tasks@.take(tasks.len() as int) =~= tasks@);
    out
}

impl Cache<Task> {
    /// The tasks visible at `now`; the cache itself is left as it was.
    pub fn get_tasks_at(&self, now: u64) -> (r: Vec<Task>)
        ensures
            views(r@) == visible(views(self@), now as int),
    {
        visible_tasks(&self.data, now)
    }

    /// The tasks visible at the current time, or None where the clock cannot give
    /// the seconds since the epoch. The cache is left as it was.
    pub fn get_tasks(&mut self) -> (r: Option<Vec<Task>>)
        ensures
            final(self)@ == old(self)@,
            r matches Some(v) ==> exists|now: u64| views(v@) == visible(views(old(self)@), now as int),
    {
        match seconds_since_epoch() {
            Some(now) => Some(self.get_tasks_at(now)),
            None => None,
        }
    }

    /// Replaces the stored list by the tasks of `tasks`, in their order.
    pub fn store_tasks(&mut self, tasks: &Vec<Task>)
        ensures
            final(self)@ == tasks@,
    {
        self.set_data(Box::new(copy_tasks(tasks)));
    }
}

} // verus!
