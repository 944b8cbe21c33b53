//! The task tree: the open tasks together with the flag that says whether a
//! spinner loop is running, and what each event prints and decides.

use vstd::prelude::*;
use crate::render::{end_output, end_text, start_output, start_text, tick_output, tick_text};
use crate::spinner::Spinner;
use crate::stack::{pushed, rows_can_push, rows_wf, TaskStack};

verus! {

/// Glyph that marks a task that passed: a green check mark.
pub const PASS_SYMBOL: &'static str = "\x1b[32;1m✔\x1b[0m";

/// Glyph that marks a task that passed with a warning: a yellow triangle.
pub const WARN_SYMBOL: &'static str = "\x1b[33;1m▲\x1b[0m";

/// Glyph that marks a task that failed: a red cross.
pub const FAIL_SYMBOL: &'static str = "\x1b[31;1m✘\x1b[0m";

/// The abstract state of a tree: the open tasks' rows, root first, and
/// whether a spinner loop is running.
pub struct TreeState {
    pub rows: Seq<nat>,
    pub animating: bool,
}

/// A tree with no open task and no spinner loop.
pub open spec fn idle_state() -> TreeState {
    TreeState { rows: Seq::<nat>::empty(), animating: false }
}

/// After `start`: a task is pushed and a spinner loop is running.
pub open spec fn start_state(s: TreeState) -> TreeState {
    TreeState { rows: pushed(s.rows), animating: true }
}

/// After `end`: the most recent task, if any, is closed.
pub open spec fn end_state(s: TreeState) -> TreeState {
    TreeState {
        rows: if s.rows.len() == 0 {
            s.rows
        } else {
            s.rows.drop_last()
        },
        animating: s.animating,
    }
}

/// After a spinner tick: the loop stops when no task is open.
pub open spec fn tick_state(s: TreeState) -> TreeState {
    if s.rows.len() == 0 {
        TreeState { rows: s.rows, animating: false }
    } else {
        s
    }
}

/// `start` launches a spinner loop exactly when none is running.
pub open spec fn start_spawns(s: TreeState) -> bool {
    !s.animating
}

/// The task tree, owned by one service object and shared under a lock.
pub struct TaskTree {
    stack: TaskStack,
    animating: bool,
}

/// What `start` hands back: the text to print, and whether the caller must
/// launch a spinner loop.
pub struct Started {
    pub text: String,
    pub spawn_animator: bool,
}

impl View for TaskTree {
    type V = TreeState;

    closed spec fn view(&self) -> TreeState {
        TreeState { rows: self.stack@, animating: self.animating }
    }
}

impl TaskTree {
    pub open spec fn wf(&self) -> bool {
        rows_wf(self@.rows)
    }

    /// A new task keeps every row offset within `u64`.
    pub open spec fn can_start(&self) -> bool {
        rows_can_push(self@.rows)
    }

    pub fn new() -> (r: TaskTree)
        ensures
            r@ == idle_state(),
            r.wf(),
    {
        TaskTree { stack: TaskStack::new(), animating: false }
    }

    /// The number of open tasks.
    pub fn depth(&self) -> (r: usize)
        ensures
            r == self@.rows.len(),
    {
        self.stack.len()
    }

    pub fn is_empty(&self) -> (r: bool)
        ensures
            r == (self@.rows.len() == 0),
    {
        self.stack.is_empty()
    }

    /// Whether a spinner loop is running.
    pub fn is_animating(&self) -> (r: bool)
        ensures
            r == self@.animating,
    {
        self.animating
    }

    /// The row offset of the open task at depth `i`.
    pub fn row(&self, i: usize) -> (r: u64)
        requires
            i < self@.rows.len(),
        ensures
            r == self@.rows[i as int],
    {
        self.stack.row(i)
    }

    pub fn has_room(&self) -> (r: bool)
        ensures
            r == self.can_start(),
    {
        self.stack.has_room()
    }

    /// Opens a task showing `message` below the open ones. The caller prints
    /// the text and launches a spinner loop when told to.
    pub fn start(&mut self, message: &str) -> (r: Started)
        requires
            old(self).wf(),
            old(self).can_start(),
        ensures
            final(self).wf(),
            final(self)@ == start_state(old(self)@),
            r.text@ == start_text(old(self)@.rows, message@),
            r.spawn_animator == start_spawns(old(self)@),
    {
        let text = start_output(&self.stack, message);
        self.stack.push();
        let spawn_animator = !self.animating;
        self.animating = true;
        Started { text, spawn_animator }
    }

    /// Closes the most recent task with `symbol` and `message`, and returns
    /// the text to print. With no open task the text is a plain line.
    pub fn end(&mut self, symbol: &str, message: &str) -> (r: String)
        requires
            old(self).wf(),
        ensures
            final(self).wf(),
            final(self)@ == end_state(old(self)@),
            r@ == end_text(old(self)@.rows, symbol@, message@),
    {
        let text = end_output(&self.stack, symbol, message);
        let _ = self.stack.pop();
        text
    }

    /// `end` with the check mark of a task that passed.
    pub fn end_pass(&mut self, message: &str) -> (r: String)
        requires
            old(self).wf(),
        ensures
            final(self).wf(),
            final(self)@ == end_state(old(self)@),
            r@ == end_text(old(self)@.rows, PASS_SYMBOL@, message@),
    {
        self.end(PASS_SYMBOL, message)
    }

    /// `end` with the triangle of a task that passed with a warning.
    pub fn end_warn(&mut self, message: &str) -> (r: String)
        requires
            old(self).wf(),
        ensures
            final(self).wf(),
            final(self)@ == end_state(old(self)@),
            r@ == end_text(old(self)@.rows, WARN_SYMBOL@, message@),
    {
        self.end(WARN_SYMBOL, message)
    }

    /// `end` with the cross of a task that failed.
    pub fn end_fail(&mut self, message: &str) -> (r: String)
        requires
            old(self).wf(),
        ensures
            final(self).wf(),
            final(self)@ == end_state(old(self)@),
            r@ == end_text(old(self)@.rows, FAIL_SYMBOL@, message@),
    {
        self.end(FAIL_SYMBOL, message)
    }

    /// One step of the spinner loop: the text that paints `frame` on every
    /// open task, or `None` when no task is open, in which case the loop
    /// ends and the tree records that no loop is running.
    pub fn tick(&mut self, frame: Spinner) -> (r: Option<String>)
        requires
            old(self).wf(),
        ensures
            final(self).wf(),
            final(self)@ == tick_state(old(self)@),
            r is None <==> old(self)@.rows.len() == 0,
            r matches Some(t) ==> t@ == tick_text(old(self)@.rows, frame.glyph_spec()),
    {
        if self.stack.is_empty() {
            self.animating = false;
            None
        } else {
            Some(tick_output(&self.stack, frame))
        }
    }
}

} // verus!
