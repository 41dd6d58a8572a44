//! The batch orchestrator's bookkeeping: which task starts next under a
//! concurrency bound, and one result per task, kept in input order whatever
//! order the tasks finish in.

use vstd::prelude::*;
use crate::error::{error_text, TaskError};
use crate::text::push_str;

verus! {

/// The outcome of one task as the caller sees it.
#[derive(Debug, Clone)]
pub struct TaskResult {
    pub success: bool,
    pub message: String,
    /// The resolved title, when the task succeeded.
    pub title: Option<String>,
}

/// A result reports an outcome: success and the title for a finished task,
/// failure and the error's text for a failed one.
pub open spec fn reports(r: TaskResult, outcome: Result<String, TaskError>) -> bool {
    match outcome {
        Ok(t) => r.success && r.message@ == "下载完成: "@ + t@ && (r.title matches Some(
            x,
        ) && x@ == t@),
        Err(e) => !r.success && r.message@ == "下载失败: "@ + error_text(e) && r.title
            is None,
    }
}

impl TaskResult {
    /// A copy with the same fields.
    pub fn duplicate(&self) -> (r: TaskResult)
        ensures
            r == *self,
    {
        let title = match &self.title {
            Some(t) => Some(t.clone()),
            None => None,
        };
        TaskResult { success: self.success, message: self.message.clone(), title }
    }

    /// The result that reports a task's outcome.
    pub fn from_outcome(outcome: Result<String, TaskError>) -> (r: TaskResult)
        ensures
            reports(r, outcome),
    {
        match outcome {
            Ok(t) => {
                let mut m = String::from_str("下载完成: ");
                push_str(&mut m, t.as_str());
                TaskResult { success: true, message: m, title: Some(t) }
            },
            Err(e) => {
                let mut m = String::from_str("下载失败: ");
                let text = e.message();
                push_str(&mut m, text.as_str());
                TaskResult { success: false, message: m, title: None }
            },
        }
    }
}

/// The quality label used when none is given.
pub fn effective_label(label: &str) -> (r: &str)
    ensures
        label@.len() == 0 ==> r@ == "4K"@,
        label@.len() > 0 ==> r@ == label@,
{
    if label.unicode_len() == 0 {
        "4K"
    } else {
        label
    }
}

/// Number of filled slots.
pub open spec fn filled(s: Seq<Option<TaskResult>>) -> nat
    decreases s.len(),
{
    if s.len() == 0 {
        0
    } else {
        filled(s.drop_last()) + if s.last() is Some {
            1nat
        } else {
            0nat
        }
    }
}

proof fn lemma_filled_update(s: Seq<Option<TaskResult>>, i: int, x: TaskResult)
    requires
        0 <= i < s.len(),
        s[i] is None,
    ensures
        filled(s.update(i, Some(x))) == filled(s) + 1,
    decreases s.len(),
{
    let t = s.update(i, Some(x));
    if i < s.len() - 1 {
        assert(t.drop_last() == s.drop_last().update(i, Some(x)));
        lemma_filled_update(s.drop_last(), i, x);
    } else {
        assert(t.drop_last() == s.drop_last());
    }
}

proof fn lemma_filled_bound(s: Seq<Option<TaskResult>>)
    ensures
        filled(s) <= s.len(),
        filled(s) == s.len() ==> forall|i: int| 0 <= i < s.len() ==> (#[trigger] s[i]) is Some,
    decreases s.len(),
{
    if s.len() > 0 {
        lemma_filled_bound(s.drop_last());
        assert forall|i: int| 0 <= i < s.len() - 1 implies s[i] == s.drop_last()[i] by {}
    }
}

proof fn lemma_filled_prefix(s: Seq<Option<TaskResult>>, k: int)
    requires
        0 <= k <= s.len(),
        forall|i: int| k <= i < s.len() ==> (#[trigger] s[i]) is None,
    ensures
        filled(s) == filled(s.subrange(0, k)),
    decreases s.len(),
{
    if s.len() > k {
        assert(s.drop_last().subrange(0, k) == s.subrange(0, k));
        lemma_filled_prefix(s.drop_last(), k);
    } else {
        assert(s.subrange(0, k) == s);
    }
}

/// A batch of tasks in flight: tasks start in input order, at most `limit`
/// at a time, and each finished task's result is kept at its input slot.
#[derive(Debug, Clone)]
pub struct Batch {
    /// Most tasks running at once.
    pub limit: usize,
    /// Tasks `0..next` have been started.
    pub next: usize,
    /// Tasks that have finished.
    pub finished: usize,
    /// The result of each task, once it has finished.
    pub slots: Vec<Option<TaskResult>>,
}

impl Batch {
    /// Started tasks that have not finished.
    pub open spec fn running(&self) -> int {
        self.next - self.finished
    }

    pub open spec fn wf(&self) -> bool {
        &&& self.limit > 0
        &&& self.next <= self.slots@.len()
        &&& self.finished == filled(self.slots@)
        &&& forall|i: int| self.next <= i < self.slots@.len() ==> (#[trigger] self.slots@[i]) is None
        &&& self.finished <= self.next
        &&& self.running() <= self.limit
    }

    /// Task `i` has started and not finished.
    pub open spec fn is_running(&self, i: int) -> bool {
        0 <= i < self.next && self.slots@[i] is None
    }

    /// A batch of `n` tasks, none started, running at most `limit` at once.
    pub fn new(n: usize, limit: usize) -> (r: Batch)
        requires
            limit > 0,
        ensures
            r.wf(),
            r.slots@.len() == n,
            r.limit == limit,
            r.next == 0,
            forall|i: int| 0 <= i < n ==> (#[trigger] r.slots@[i]) is None,
    {
        let mut slots: Vec<Option<TaskResult>> = Vec::new();
        let mut i: usize = 0;
        while i < n
            invariant
                i <= n,
                slots@.len() == i,
                forall|k: int| 0 <= k < i ==> (#[trigger] slots@[k]) is None,
            decreases n - i,
        {
            slots.push(None);
            i = i + 1;
        }
        proof {
            lemma_filled_prefix(slots@, 0);
        }
        Batch { limit, next: 0, finished: 0, slots }
    }

    /// The next task to start, when one is waiting and the bound allows.
    pub fn start_next(&mut self) -> (r: Option<usize>)
        requires
            old(self).wf(),
        ensures
            final(self).wf(),
            final(self).slots == old(self).slots,
            final(self).finished == old(self).finished,
            final(self).limit == old(self).limit,
            (old(self).next < old(self).slots@.len() && old(self).running() < old(self).limit)
                ==> r == Some(old(self).next) && final(self).next == old(self).next + 1,
            !(old(self).next < old(self).slots@.len() && old(self).running() < old(self).limit)
                ==> r is None && final(self).next == old(self).next,
    {
        if self.next < self.slots.len() && self.next - self.finished < self.limit {
            let i = self.next;
            self.next = self.next + 1;
            Some(i)
        } else {
            None
        }
    }

    /// Records the outcome of a running task at its slot.
    pub fn complete(&mut self, index: usize, outcome: Result<String, TaskError>)
        requires
            old(self).wf(),
            old(self).is_running(index as int),
        ensures
            final(self).wf(),
            completes(*old(self), *final(self), index as int, outcome),
    {
        let r = TaskResult::from_outcome(outcome);
        let ghost before = self.slots@;
        self.slots.set(index, Some(r));
        proof {
            lemma_filled_update(before, index as int, r);
            lemma_filled_bound(self.slots@);
            lemma_filled_prefix(self.slots@, self.next as int);
            lemma_filled_bound(self.slots@.subrange(0, self.next as int));
        }
        self.finished = self.finished + 1;
    }

    /// Every task has started and finished.
    pub fn is_done(&self) -> (r: bool)
        requires
            self.wf(),
        ensures
            r == (self.next == self.slots@.len() && self.finished == self.next),
    {
        self.next == self.slots.len() && self.finished == self.next
    }

    /// The results, one per task, in input order.
    pub fn into_results(self) -> (r: Vec<TaskResult>)
        requires
            self.wf(),
            self.next == self.slots@.len(),
            self.finished == self.next,
        ensures
            r@.len() == self.slots@.len(),
            forall|i: int| 0 <= i < r@.len() ==> self.slots@[i] == Some(#[trigger] r@[i]),
    {
        proof {
            lemma_filled_bound(self.slots@);
        }
        let mut r: Vec<TaskResult> = Vec::new();
        let mut i: usize = 0;
        while i < self.slots.len()
            invariant
                i <= self.slots@.len(),
                r@.len() == i,
                forall|k: int| 0 <= k < self.slots@.len() ==> (#[trigger] self.slots@[k]) is Some,
                forall|k: int| 0 <= k < i ==> self.slots@[k] == Some(#[trigger] r@[k]),
            decreases self.slots@.len() - i,
        {
            match &self.slots[i] {
                Some(x) => r.push(x.duplicate()),
                None => {},
            }
            i = i + 1;
        }
        r
    }
}

/// `new` is `old` with task `i` finished with `outcome`: its slot reports the
/// outcome and no other slot changed.
pub open spec fn completes(old: Batch, new: Batch, i: int, outcome: Result<String, TaskError>) -> bool {
    &&& 0 <= i < old.slots@.len()
    &&& new.limit == old.limit
    &&& new.next == old.next
    &&& new.finished == old.finished + 1
    &&& new.slots@.len() == old.slots@.len()
    &&& new.slots@[i] matches Some(r) && reports(r, outcome)
    &&& forall|k: int| 0 <= k < old.slots@.len() && k != i ==> new.slots@[k] == old.slots@[k]
}

/// Whatever order the tasks finish in, each task's outcome is reported at its
/// own input slot at the end, and no other task's completion alters it: a
/// failed task leaves its siblings' results as they came.
pub proof fn lemma_batch_isolation(
    states: Seq<Batch>,
    done: Seq<(int, Result<String, TaskError>)>,
)
    requires
        states.len() == done.len() + 1,
        forall|j: int|
            0 <= j < done.len() ==> completes(
                states[j],
                states[j + 1],
                (#[trigger] done[j]).0,
                done[j].1,
            ),
        forall|j: int, k: int| 0 <= j < k < done.len() ==> (#[trigger] done[j]).0 != (#[trigger] done[k]).0,
    ensures
        forall|j: int|
            0 <= j < states.len() ==> (#[trigger] states[j]).slots@.len() == states[0].slots@.len(),
        forall|j: int|
            0 <= j < done.len() ==> 0 <= (#[trigger] done[j]).0 < states.last().slots@.len() && (
            states.last().slots@[done[j].0] matches Some(r) && reports(r, done[j].1)),
    decreases done.len(),
{
    if done.len() > 0 {
        let m = done.len() - 1;
        let s2 = states.drop_last();
        let d2 = done.drop_last();
        assert forall|j: int| 0 <= j < d2.len() implies completes(
            s2[j],
            s2[j + 1],
            (#[trigger] d2[j]).0,
            d2[j].1,
        ) by {
            assert(done[j] == d2[j]);
            assert(completes(states[j], states[j + 1], done[j].0, done[j].1));
        }
        assert forall|j: int, k: int| 0 <= j < k < d2.len() implies (#[trigger] d2[j]).0 != (
        #[trigger] d2[k]).0 by {
            assert(done[j] == d2[j] && done[k] == d2[k]);
        }
        lemma_batch_isolation(s2, d2);
        assert(completes(states[m], states[m + 1], done[m].0, done[m].1));
        assert(s2[m] == states[m]);
        assert forall|j: int| 0 <= j < states.len() implies (#[trigger] states[j]).slots@.len()
            == states[0].slots@.len() by {
            if j < states.len() - 1 {
                assert(s2[j] == states[j]);
            }
        }
        assert forall|j: int| 0 <= j < done.len() implies (states.last().slots@[(
        #[trigger] done[j]).0] matches Some(r) && reports(r, done[j].1)) by {
            if j < m {
                assert(d2[j] == done[j]);
                assert(done[j].0 != done[m].0);
                assert(s2.last() == states[m]);
            }
        }
    }
}

} // verus!
