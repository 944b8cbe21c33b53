//! What holds of every sequence of `start`, `end` and spinner ticks that the
//! lock serialises.

use vstd::prelude::*;
use crate::tree::{end_state, idle_state, start_state, tick_state, TreeState};

verus! {

/// One event applied to a task tree under its lock.
pub enum Event {
    Start,
    End,
    Tick,
}

pub open spec fn step(s: TreeState, e: Event) -> TreeState {
    match e {
        Event::Start => start_state(s),
        Event::End => end_state(s),
        Event::Tick => tick_state(s),
    }
}

/// The state after the events `evs`, in order, from `s`.
pub open spec fn run(s: TreeState, evs: Seq<Event>) -> TreeState
    decreases evs.len(),
{
    if evs.len() == 0 {
        s
    } else {
        step(run(s, evs.drop_last()), evs.last())
    }
}

/// Starts minus ends.
pub open spec fn balance(evs: Seq<Event>) -> int
    decreases evs.len(),
{
    if evs.len() == 0 {
        0
    } else {
        balance(evs.drop_last()) + match evs.last() {
            Event::Start => 1int,
            Event::End => -1int,
            Event::Tick => 0int,
        }
    }
}

/// The number of starts.
pub open spec fn starts(evs: Seq<Event>) -> nat
    decreases evs.len(),
{
    if evs.len() == 0 {
        0
    } else {
        starts(evs.drop_last()) + if evs.last() is Start {
            1nat
        } else {
            0nat
        }
    }
}

/// Every end closes a task that a start of the same sequence opened.
pub open spec fn never_underflows(evs: Seq<Event>) -> bool {
    forall|k: int| 0 <= k <= evs.len() ==> balance(#[trigger] evs.take(k)) >= 0
}

/// Every end matches the most recent unmatched start, and every start is ended.
pub open spec fn properly_nested(evs: Seq<Event>) -> bool {
    never_underflows(evs) && balance(evs) == 0
}

/// The number of starts that launch a spinner loop.
pub open spec fn spawns(s: TreeState, evs: Seq<Event>) -> nat
    decreases evs.len(),
{
    if evs.len() == 0 {
        0
    } else {
        spawns(s, evs.drop_last()) + if evs.last() is Start && !run(s, evs.drop_last()).animating {
            1nat
        } else {
            0nat
        }
    }
}

/// The number of ticks on which a running spinner loop ends.
pub open spec fn stops(s: TreeState, evs: Seq<Event>) -> nat
    decreases evs.len(),
{
    if evs.len() == 0 {
        0
    } else {
        stops(s, evs.drop_last()) + if evs.last() is Tick && run(s, evs.drop_last()).animating
            && run(s, evs.drop_last()).rows.len() == 0 {
            1nat
        } else {
            0nat
        }
    }
}

proof fn lemma_prefix_never_underflows(evs: Seq<Event>)
    requires
        evs.len() > 0,
        never_underflows(evs),
    ensures
        never_underflows(evs.drop_last()),
        balance(evs) >= 0,
{
    let p = evs.drop_last();
    assert forall|k: int| 0 <= k <= p.len() implies balance(#[trigger] p.take(k)) >= 0 by {
        assert(p.take(k) =~= evs.take(k));
    }
    assert(evs.take(evs.len() as int) =~= evs);
}

/// Events that never close more tasks than they open leave the tasks that
/// were open before them in place, each moved up by one row per start.
pub proof fn lemma_run_keeps_older_tasks(s: TreeState, evs: Seq<Event>)
    requires
        never_underflows(evs),
    ensures
        run(s, evs).rows.len() == s.rows.len() + balance(evs),
        forall|i: int| 0 <= i < s.rows.len() ==> run(s, evs).rows[i] == s.rows[i] + starts(evs),
    decreases evs.len(),
{
    if evs.len() > 0 {
        let p = evs.drop_last();
        lemma_prefix_never_underflows(evs);
        lemma_run_keeps_older_tasks(s, p);
    }
}

/// Properly nested starts and ends from an idle tree close every task, and the
/// spinner loop's next tick finds the tree empty and clears the flag.
pub proof fn lemma_nested_calls_close_tree(evs: Seq<Event>)
    requires
        properly_nested(evs),
    ensures
        run(idle_state(), evs).rows.len() == 0,
        tick_state(run(idle_state(), evs)) == idle_state(),
{
    lemma_run_keeps_older_tasks(idle_state(), evs);
    assert(tick_state(run(idle_state(), evs)).rows =~= idle_state().rows);
}

/// When a task is ended after properly nested events that followed its start,
/// its row is the number of starts among those events, and the tasks below
/// it moved up by one more row than that.
pub proof fn lemma_end_row_counts_later_starts(s: TreeState, evs: Seq<Event>)
    requires
        properly_nested(evs),
    ensures
        run(start_state(s), evs).rows.len() == s.rows.len() + 1,
        run(start_state(s), evs).rows.last() == starts(evs),
        end_state(run(start_state(s), evs)).rows == s.rows.map_values(
            |r: nat| r + starts(evs) + 1,
        ),
{
    let t = run(start_state(s), evs);
    lemma_run_keeps_older_tasks(start_state(s), evs);
    assert(t.rows[s.rows.len() as int] == start_state(s).rows[s.rows.len() as int] + starts(evs));
    assert(end_state(t).rows =~= s.rows.map_values(|r: nat| r + starts(evs) + 1));
}

/// The number of spinner loops running is always what the flag says: the
/// loops that were running, plus those launched, minus those ended, is one
/// when the flag is set and zero when it is not.
pub proof fn lemma_one_spinner_loop(s: TreeState, evs: Seq<Event>)
    ensures
        (if s.animating { 1int } else { 0int }) + spawns(s, evs) - stops(s, evs) == if run(
            s,
            evs,
        ).animating {
            1int
        } else {
            0int
        },
    decreases evs.len(),
{
    if evs.len() > 0 {
        lemma_one_spinner_loop(s, evs.drop_last());
    }
}

/// However many starts come in a row, at most one of them launches a spinner
/// loop: the first, and only when none was running.
pub proof fn lemma_starts_spawn_once(s: TreeState, evs: Seq<Event>)
    requires
        forall|i: int| 0 <= i < evs.len() ==> #[trigger] evs[i] is Start,
    ensures
        spawns(s, evs) == if !s.animating && evs.len() > 0 {
            1nat
        } else {
            0nat
        },
        evs.len() > 0 ==> run(s, evs).animating,
    decreases evs.len(),
{
    if evs.len() > 0 {
        let p = evs.drop_last();
        assert(evs.last() is Start);
        assert forall|i: int| 0 <= i < p.len() implies #[trigger] p[i] is Start by {
            assert(p[i] == evs[i]);
        }
        lemma_starts_spawn_once(s, p);
    }
}

} // verus!
