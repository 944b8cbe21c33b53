//! The stack of open tasks and their distances from the bottom printed line.

use vstd::prelude::*;

verus! {

/// One open task: how many rows its line lies above the last printed line.
#[derive(Clone, Copy, Debug)]
pub struct Task {
    pub row_offset: u64,
}

/// The open tasks, root first; only the most recent one can be closed.
pub struct TaskStack {
    tasks: Vec<Task>,
}

/// The rows after a push: every open task moves one row up and a new task
/// takes the bottom row.
pub open spec fn pushed(rows: Seq<nat>) -> Seq<nat> {
    rows.map_values(|r: nat| r + 1).push(0)
}

/// Rows are strictly decreasing from the root to the most recent task: each
/// task lies below all tasks that were opened before it.
pub open spec fn rows_wf(rows: Seq<nat>) -> bool {
    forall|i: int, j: int| 0 <= i < j < rows.len() ==> rows[i] > rows[j]
}

/// A push keeps every row within `u64`. With decreasing rows the root's is
/// the largest.
pub open spec fn rows_can_push(rows: Seq<nat>) -> bool {
    rows.len() == 0 || rows[0] < u64::MAX
}

impl View for TaskStack {
    type V = Seq<nat>;

    closed spec fn view(&self) -> Seq<nat> {
        self.tasks@.map_values(|t: Task| t.row_offset as nat)
    }
}

impl TaskStack {
    pub open spec fn wf(&self) -> bool {
        rows_wf(self@)
    }

    pub open spec fn can_push(&self) -> bool {
        rows_can_push(self@)
    }

    pub fn new() -> (r: TaskStack)
        ensures
            r@ == Seq::<nat>::empty(),
            r.wf(),
    {
        let r = TaskStack { tasks: Vec::new() };
        assert(r@ =~= Seq::<nat>::empty());
        r
    }

    pub fn len(&self) -> (r: usize)
        ensures
            r == self@.len(),
    {
        self.tasks.len()
    }

    pub fn is_empty(&self) -> (r: bool)
        ensures
            r == (self@.len() == 0),
    {
        self.tasks.len() == 0
    }

    /// The row offset of the task at depth `i`.
    pub fn row(&self, i: usize) -> (r: u64)
        requires
            i < self@.len(),
        ensures
            r == self@[i as int],
    {
        self.tasks[i].row_offset
    }

    /// Tells whether a push keeps every row within `u64`.
    pub fn has_room(&self) -> (r: bool)
        ensures
            r == self.can_push(),
    {
        self.tasks.len() == 0 || self.tasks[0].row_offset < u64::MAX
    }

    /// Moves every open task one row up and opens a new task on the bottom row.
    pub fn push(&mut self)
        requires
            old(self).wf(),
            old(self).can_push(),
        ensures
            final(self)@ == pushed(old(self)@),
            final(self).wf(),
    {
        let n = self.tasks.len();
        let mut i: usize = 0;
        while i < n
            invariant
                n == old(self)@.len(),
                self.tasks@.len() == n,
                0 <= i <= n,
                rows_wf(old(self)@),
                rows_can_push(old(self)@),
                forall|k: int|
                    0 <= k < i ==> self.tasks@[k].row_offset == old(self).tasks@[k].row_offset
                        + 1,
                forall|k: int| i <= k < n ==> self.tasks@[k] == old(self).tasks@[k],
            decreases n - i,
        {
            assert(old(self)@[i as int] <= old(self)@[0]);
            assert(old(self)@[i as int] == old(self).tasks@[i as int].row_offset);
            let t = self.tasks[i];
            self.tasks.set(i, Task { row_offset: t.row_offset + 1 });
            i = i + 1;
        }
        self.tasks.push(Task { row_offset: 0 });
        assert(self@ =~= pushed(old(self)@));
    }

    /// Closes the most recent task and returns its row offset, or `None`
    /// when no task is open.
    pub fn pop(&mut self) -> (r: Option<u64>)
        requires
            old(self).wf(),
        ensures
            final(self).wf(),
            old(self)@.len() == 0 ==> r is None && final(self)@ == old(self)@,
            old(self)@.len() > 0 ==> r == Some(old(self)@.last() as u64) && final(self)@
                == old(self)@.drop_last(),
    {
        match self.tasks.pop() {
            Some(t) => {
                assert(self@ =~= old(self)@.drop_last());
                Some(t.row_offset)
            },
            None => None,
        }
    }
}

} // verus!
