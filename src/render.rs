//! The escape sequences that draw the task tree: what `start`, `end` and a
//! spinner tick print, given the open tasks' rows before the event.

use vstd::prelude::*;
use crate::spinner::Spinner;
use crate::stack::TaskStack;
use crate::text::{append_decimal, decimal};

verus! {

/// Columns taken by each nesting level.
pub const INDENT: u128 = 5;

/// `k` copies of `s`.
pub open spec fn repeat(s: Seq<char>, k: nat) -> Seq<char>
    decreases k,
{
    if k == 0 {
        Seq::<char>::empty()
    } else {
        repeat(s, (k - 1) as nat) + s
    }
}

/// The cursor command `ESC [ n cmd`.
pub open spec fn csi(n: nat, cmd: Seq<char>) -> Seq<char> {
    "\x1b["@ + decimal(n) + cmd
}

/// The column of the status marker of a task at nesting depth `depth`.
pub open spec fn marker_column(depth: nat) -> nat {
    depth * (INDENT as nat) + 1
}

/// Moves the cursor `row` lines up, or nothing when `row` is zero.
pub open spec fn up_text(row: nat) -> Seq<char> {
    if row > 0 {
        csi(row, "A"@)
    } else {
        Seq::<char>::empty()
    }
}

/// Redraws the parent's vertical line down to the new task, where `rows` are
/// the open tasks before the push (at least one): a branch corner under the
/// parent, then a bar on each line between it and the new task's line.
pub open spec fn connector_text(rows: Seq<nat>) -> Seq<char> {
    let up = rows.last();
    let n = rows.len();
    "\x1b[s"@ + (if up > 0 {
        csi(up, "A"@) + csi(((n - 1) * (INDENT as nat) + 3) as nat, "G"@) + "┣"@
    } else {
        Seq::<char>::empty()
    }) + repeat("\x1b[1D\x1b[1B┃"@, up) + "\x1b[u"@
}

/// What `start` prints, where `rows` are the open tasks before the push.
pub open spec fn start_text(rows: Seq<nat>, message: Seq<char>) -> Seq<char> {
    "\n"@ + (if rows.len() > 0 {
        connector_text(rows) + repeat(" "@, ((rows.len() - 1) * (INDENT as nat) + 2) as nat) + "┗━ "@
    } else {
        Seq::<char>::empty()
    }) + "\x1b[33;1m-\x1b[0m "@ + message
}

/// What `end` prints, where `rows` are the open tasks before the pop. With no
/// open task it prints `symbol message` on a line of its own; else it
/// rewrites the most recent task's line in place. When the tree is then
/// empty a blank line closes it.
pub open spec fn end_text(rows: Seq<nat>, symbol: Seq<char>, message: Seq<char>) -> Seq<char> {
    if rows.len() == 0 {
        symbol + " "@ + message + "\n"@ + "\n"@
    } else {
        let row = rows.last();
        "\x1b[s"@ + up_text(row) + csi(marker_column((rows.len() - 1) as nat), "G"@) + symbol
            + " \x1b[K"@ + message + (if row != 0 {
            "\x1b[u"@
        } else {
            Seq::<char>::empty()
        }) + (if rows.len() == 1 {
            "\n"@
        } else {
            Seq::<char>::empty()
        })
    }
}

/// Paints `frame` on the marker of the task at `depth`, `row` lines up, and
/// puts the cursor back.
pub open spec fn tick_cell(row: nat, depth: nat, frame: char) -> Seq<char> {
    "\x1b[s"@ + up_text(row) + csi(marker_column(depth), "G"@) + "\x1b[33;1m"@ + seq![frame]
        + "\x1b[0m\x1b[u"@
}

/// What one spinner tick prints: a cell for each open task, root first.
pub open spec fn tick_text(rows: Seq<nat>, frame: char) -> Seq<char>
    decreases rows.len(),
{
    if rows.len() == 0 {
        Seq::<char>::empty()
    } else {
        tick_text(rows.drop_last(), frame) + tick_cell(
            rows.last(),
            (rows.len() - 1) as nat,
            frame,
        )
    }
}

fn append_csi(s: &mut String, n: u128, cmd: &str)
    ensures
        final(s)@ == old(s)@ + csi(n as nat, cmd@),
{
    s.append("\x1b[");
    append_decimal(s, n);
    s.append(cmd);
    assert(final(s)@ =~= old(s)@ + csi(n as nat, cmd@));
}

fn append_up(s: &mut String, row: u64)
    ensures
        final(s)@ == old(s)@ + up_text(row as nat),
{
    if row > 0 {
        append_csi(s, row as u128, "A");
    } else {
        assert(final(s)@ =~= old(s)@ + up_text(row as nat));
    }
}

fn append_repeat(s: &mut String, piece: &str, k: u128)
    ensures
        final(s)@ == old(s)@ + repeat(piece@, k as nat),
{
    let mut i: u128 = 0;
    while i < k
        invariant
            0 <= i <= k,
            s@ == old(s)@ + repeat(piece@, i as nat),
        decreases k - i,
    {
        s.append(piece);
        i = i + 1;
        assert(s@ =~= old(s)@ + repeat(piece@, i as nat));
    }
}

/// The text that `start` prints for `message`, given the stack before the push.
pub fn start_output(stack: &TaskStack, message: &str) -> (r: String)
    ensures
        r@ == start_text(stack@, message@),
{
    let mut s = String::new();
    s.append("\n");
    let n = stack.len();
    if n > 0 {
        let up = stack.row(n - 1);
        let ghost s0 = s@;
        s.append("\x1b[s");
        if up > 0 {
            append_csi(&mut s, up as u128, "A");
            append_csi(&mut s, (n - 1) as u128 * INDENT + 3, "G");
            s.append("┣");
        }
        append_repeat(&mut s, "\x1b[1D\x1b[1B┃", up as u128);
        s.append("\x1b[u");
        assert(s@ =~= s0 + connector_text(stack@));
        append_repeat(&mut s, " ", (n - 1) as u128 * INDENT + 2);
        s.append("┗━ ");
    }
    let ghost s1 = s@;
    s.append("\x1b[33;1m-\x1b[0m ");
    s.append(message);
    assert(s@ =~= s1 + "\x1b[33;1m-\x1b[0m "@ + message@);
    proof { reveal_strlit("\n"); }
    assert(s@ =~= start_text(stack@, message@));
    s
}

/// The text that `end` prints for `symbol` and `message`, given the stack
/// before the pop.
pub fn end_output(stack: &TaskStack, symbol: &str, message: &str) -> (r: String)
    ensures
        r@ == end_text(stack@, symbol@, message@),
{
    let mut s = String::new();
    let n = stack.len();
    if n == 0 {
        s.append(symbol);
        s.append(" ");
        s.append(message);
        s.append("\n");
        s.append("\n");
        assert(s@ =~= end_text(stack@, symbol@, message@));
    } else {
        let row = stack.row(n - 1);
        s.append("\x1b[s");
        append_up(&mut s, row);
        append_csi(&mut s, (n - 1) as u128 * INDENT + 1, "G");
        s.append(symbol);
        s.append(" \x1b[K");
        s.append(message);
        if row != 0 {
            s.append("\x1b[u");
        }
        if n == 1 {
            s.append("\n");
        }
        assert(s@ =~= end_text(stack@, symbol@, message@));
    }
    s
}

/// The text that one spinner tick prints with `frame`.
pub fn tick_output(stack: &TaskStack, frame: Spinner) -> (r: String)
    ensures
        r@ == tick_text(stack@, frame.glyph_spec()),
{
    let mut s = String::new();
    let n = stack.len();
    let glyph = frame.glyph();
    let mut i: usize = 0;
    assert(stack@.take(0) =~= Seq::<nat>::empty());
    while i < n
        invariant
            n == stack@.len(),
            0 <= i <= n,
            glyph@ == seq![frame.glyph_spec()],
            s@ == tick_text(stack@.take(i as int), frame.glyph_spec()),
        decreases n - i,
    {
        let ghost s0 = s@;
        let row = stack.row(i);
        s.append("\x1b[s");
        append_up(&mut s, row);
        append_csi(&mut s, i as u128 * INDENT + 1, "G");
        s.append("\x1b[33;1m");
        s.append(glyph);
        s.append("\x1b[0m\x1b[u");
        assert(s@ =~= s0 + tick_cell(row as nat, i as nat, frame.glyph_spec()));
        assert(stack@.take(i + 1).drop_last() =~= stack@.take(i as int));
        i = i + 1;
    }
    assert(stack@.take(n as int) =~= stack@);
    s
}

} // verus!
