use vstd::prelude::*;

use crate::task::{Task, TaskView, ONE_DAY_IN_SECONDS};

verus! {

/// The label of a finished task.
pub open spec fn done_label() -> Seq<char> {
    "Done"@
}

/// The label of a task put aside until a wake time.
pub open spec fn snooze_label() -> Seq<char> {
    "Snooze"@
}

/// The label that a woken task takes.
pub open spec fn in_progress_label() -> Seq<char> {
    "InProgress"@
}

/// A finished task whose last change lies more than one day before `now`.
pub open spec fn is_expired(t: TaskView, now: int) -> bool {
    t.status == done_label() && now - t.updated > ONE_DAY_IN_SECONDS
}

/// A snoozed task with a wake time that `now` has passed.
pub open spec fn should_wake(t: TaskView, now: int) -> bool {
    t.status == snooze_label() && t.wait_until is Some && now > t.wait_until->0
}

/// How a task that is kept is shown at `now`.
pub open spec fn shown(t: TaskView, now: int) -> TaskView {
    if should_wake(t, now) {
        TaskView { status: in_progress_label(), wait_until: None, ..t }
    } else {
        t
    }
}

/// What one stored task contributes to the visible list at `now`.
pub open spec fn visible_entry(now: int) -> spec_fn(TaskView) -> Option<TaskView> {
    |t: TaskView|
        if is_expired(t, now) {
            None
        } else {
            Some(shown(t, now))
        }
}

/// The visible list at `now`: the stored tasks in their order, expired ones left out,
/// the others as `shown` gives them.
pub open spec fn visible(s: Seq<TaskView>, now: int) -> Seq<TaskView> {
    s.filter_map(visible_entry(now))
}

/// The views of a sequence of tasks.
pub open spec fn views(s: Seq<Task>) -> Seq<TaskView> {
    s.map_values(|t: Task| t@)
}

fn is_label(s: &String, label: &str) -> (r: bool)
    ensures
        r == (s@ == label@),
{
    *s == label.to_owned()
}

/// Whether a task is hidden at `now`.
pub fn is_expired_at(task: &Task, now: u64) -> (r: bool)
    ensures
        r == is_expired(task@, now as int),
{
    is_label(&task.status, "Done") && now > task.updated && now - task.updated > ONE_DAY_IN_SECONDS
}

/// The task as it is shown at `now`: a snoozed task whose wake time has passed
/// is back in progress, without a wake time.
pub fn shown_at(task: &Task, now: u64) -> (r: Task)
    ensures
        r@ == shown(task@, now as int),
{
    let mut t = task.duplicate();
    if let Some(w) = task.wait_until {
        if is_label(&task.status, "Snooze") && now > w {
            t.status = "InProgress".to_owned();
            t.wait_until = None;
        }
    }
    t
}

/// The tasks that are visible at `now`, in their stored order.
pub fn visible_tasks(tasks: &Vec<Task>, now: u64) -> (r: Vec<Task>)
    ensures
        views(r@) == visible(views(tasks@), now as int),
{
    let ghost s = views(tasks@);
    let mut out: Vec<Task> = Vec::new();
    let mut i: usize = 0;
    while i < tasks.len()
        invariant
            i <= tasks.len(),
            s == views(tasks@),
            views(out@) == visible(s.take(i as int), now as int),
        decreases tasks.len() - i,
    {
        proof {
            s.lemma_filter_map_take_succ(visible_entry(now as int), i as int);
        }
        let task = &tasks[i];
        if !is_expired_at(task, now) {
            let t = shown_at(task, now);
            out.push(t);
        }
        assert(views(out@) =~= visible(s.take(i + 1), now as int));
        i = i + 1;
    }
    assert(s.take(tasks.len() as int) =~= s);
    out
}


/// `idx` lists, in increasing order, the positions in `s` of the tasks that are
/// visible at `now`, and the visible list shows them in that order.
pub open spec fn embeds(idx: Seq<int>, s: Seq<TaskView>, now: int) -> bool {
    let v = visible(s, now);
    &&& idx.len() == v.len()
    &&& forall|i: int, j: int| 0 <= i < j < idx.len() ==> idx[i] < idx[j]
    &&& forall|i: int|
        0 <= i < idx.len() ==> {
            &&& 0 <= #[trigger] idx[i] < s.len()
            &&& !is_expired(s[idx[i]], now)
            &&& v[i] == shown(s[idx[i]], now)
        }
    &&& forall|k: int| 0 <= k < s.len() && !is_expired(s[k], now) ==> #[trigger] idx.contains(k)
}

/// The visible list keeps the stored order: it is the stored list with the expired
/// tasks taken out and every other task shown in its place, nothing added and
/// nothing moved.
pub proof fn lemma_visible_keeps_order(s: Seq<TaskView>, now: int)
    ensures
        exists|idx: Seq<int>| embeds(idx, s, now),
    decreases s.len(),
{
    if s.len() == 0 {
        assert(embeds(Seq::<int>::empty(), s, now));
    } else {
        let rest = s.drop_last();
        lemma_visible_keeps_order(rest, now);
        let idx0 = choose|idx: Seq<int>| embeds(idx, rest, now);
        let last = s.len() - 1;
        assert(s.drop_last() == rest);
        if is_expired(s.last(), now) {
            assert(visible(s, now) == visible(rest, now));
            assert forall|k: int| 0 <= k < s.len() && !is_expired(s[k], now) implies #[trigger] idx0.contains(k) by {
                assert(rest[k] == s[k]);
            }
            assert(embeds(idx0, s, now));
        } else {
            let idx = idx0.push(last);
            assert(visible(s, now) == visible(rest, now) + seq![shown(s.last(), now)]);
            assert forall|k: int| 0 <= k < s.len() && !is_expired(s[k], now) implies #[trigger] idx.contains(k) by {
                if k == last {
                    assert(idx[idx.len() - 1] == k);
                } else {
                    assert(rest[k] == s[k]);
                    assert(idx0.contains(k));
                    let j = choose|j: int| 0 <= j < idx0.len() && idx0[j] == k;
                    assert(idx[j] == k);
                }
            }
            assert(embeds(idx, s, now));
        }
    }
}

/// A snoozed task without a wake time is shown as it is stored, at every time.
pub proof fn lemma_snooze_without_wake_time(t: TaskView, now: int)
    requires
        t.status == snooze_label(),
        t.wait_until is None,
    ensures
        visible(seq![t], now) == seq![t],
{
    reveal_strlit("Done");
    reveal_strlit("Snooze");
    Seq::lemma_filter_map_singleton(t, visible_entry(now));
    assert(done_label()[0] != snooze_label()[0]);
    assert(!is_expired(t, now));
    assert(visible(seq![t], now) =~= seq![t]);
}


/// Where nothing is stored, nothing is visible, at every time.
pub proof fn lemma_nothing_stored_nothing_visible(now: int)
    ensures
        visible(Seq::<TaskView>::empty(), now) == Seq::<TaskView>::empty(),
{
}

} // verus!
