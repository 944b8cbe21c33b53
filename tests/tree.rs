use jeflog::spinner::Spinner;
use jeflog::stack::TaskStack;
use jeflog::tree::{TaskTree, FAIL_SYMBOL, PASS_SYMBOL, WARN_SYMBOL};

const MARK: &str = "\x1b[33;1m-\x1b[0m ";

#[test]
fn first_task_prints_newline_and_marker() {
    let mut tree = TaskTree::new();
    let started = tree.start("build");
    assert_eq!(started.text, format!("\n{MARK}build"));
    assert!(started.spawn_animator);
    assert_eq!(tree.depth(), 1);
    assert_eq!(tree.row(0), 0);
    assert!(tree.is_animating());
}

#[test]
fn nested_build_and_compile_close_the_tree() {
    let mut tree = TaskTree::new();
    let build = tree.start("build");
    assert!(build.spawn_animator);
    let compile = tree.start("compile");
    assert_eq!(compile.text, format!("\n\x1b[s\x1b[u  ┗━ {MARK}compile"));
    assert!(!compile.spawn_animator);
    assert_eq!(tree.row(0), 1);
    assert_eq!(tree.row(1), 0);

    let first = tree.end_pass("compile ok");
    assert_eq!(first, format!("\x1b[s\x1b[6G{PASS_SYMBOL} \x1b[Kcompile ok"));
    assert_eq!(tree.depth(), 1);

    let second = tree.end_pass("build ok");
    assert_eq!(second, format!("\x1b[s\x1b[1A\x1b[1G{PASS_SYMBOL} \x1b[Kbuild ok\x1b[u\n"));
    assert!(tree.is_empty());

    // the spinner loop is still running until its next tick finds no task
    assert!(tree.is_animating());
    assert_eq!(tree.tick(Spinner::Dash), None);
    assert!(!tree.is_animating());

    // a later task launches a new loop
    assert!(tree.start("again").spawn_animator);
}

#[test]
fn end_fail_without_task_prints_plain_line() {
    let mut tree = TaskTree::new();
    let text = tree.end_fail("no task");
    assert_eq!(text, format!("{FAIL_SYMBOL} no task\n\n"));
    assert_eq!(FAIL_SYMBOL, "\x1b[31;1m✘\x1b[0m");
    assert!(tree.is_empty());
    assert!(!tree.is_animating());
}

#[test]
fn end_warn_uses_triangle() {
    let mut tree = TaskTree::new();
    tree.start("lint");
    let text = tree.end_warn("two warnings");
    assert_eq!(text, format!("\x1b[s\x1b[1G{WARN_SYMBOL} \x1b[Ktwo warnings\n"));
    assert_eq!(WARN_SYMBOL, "\x1b[33;1m▲\x1b[0m");
}

#[test]
fn end_with_custom_symbol() {
    let mut tree = TaskTree::new();
    tree.start("a");
    assert_eq!(tree.end("*", "done"), "\x1b[s\x1b[1G* \x1b[Kdone\n");
    assert_eq!(tree.end("*", "none"), "* none\n\n");
}

#[test]
fn third_level_start_indents_leaf() {
    let mut tree = TaskTree::new();
    tree.start("a");
    tree.start("b");
    let c = tree.start("c");
    assert_eq!(c.text, format!("\n\x1b[s\x1b[u       ┗━ {MARK}c"));
    assert_eq!((tree.row(0), tree.row(1), tree.row(2)), (2, 1, 0));
}

#[test]
fn sibling_start_draws_branch_corner_and_bars() {
    let mut tree = TaskTree::new();
    tree.start("a");
    tree.start("b");
    tree.start("c");
    tree.end_pass("c ok");
    let d = tree.start("d");
    assert_eq!(
        d.text,
        format!("\n\x1b[s\x1b[1A\x1b[8G┣\x1b[1D\x1b[1B┃\x1b[u       ┗━ {MARK}d")
    );
    assert_eq!((tree.row(0), tree.row(1), tree.row(2)), (3, 2, 0));
}

#[test]
fn push_moves_every_row_up_by_one() {
    let mut tree = TaskTree::new();
    tree.start("a");
    tree.start("b");
    let before: Vec<u64> = (0..tree.depth()).map(|i| tree.row(i)).collect();
    tree.start("c");
    assert_eq!(tree.depth(), before.len() + 1);
    for (i, r) in before.iter().enumerate() {
        assert_eq!(tree.row(i), r + 1);
    }
    assert_eq!(tree.row(before.len()), 0);
}

#[test]
fn popped_row_counts_later_starts() {
    let mut tree = TaskTree::new();
    tree.start("root");
    for _ in 0..11 {
        tree.start("child");
        tree.end_pass("child ok");
    }
    assert_eq!(tree.row(0), 11);
    let text = tree.end_pass("root ok");
    assert_eq!(text, format!("\x1b[s\x1b[11A\x1b[1G{PASS_SYMBOL} \x1b[Kroot ok\x1b[u\n"));
}

#[test]
fn nested_sequence_leaves_tree_idle() {
    let mut tree = TaskTree::new();
    tree.start("a");
    tree.start("b");
    tree.end_pass("b");
    tree.start("c");
    tree.start("d");
    tree.end_fail("d");
    tree.end_warn("c");
    tree.end_pass("a");
    assert!(tree.is_empty());
    assert_eq!(tree.tick(Spinner::Bar), None);
    assert!(!tree.is_animating());
}

#[test]
fn many_starts_spawn_one_animator() {
    let mut tree = TaskTree::new();
    let spawned = (0..8).filter(|_| tree.start("job").spawn_animator).count();
    assert_eq!(spawned, 1);
}

#[test]
fn tick_paints_frame_on_each_task() {
    let mut tree = TaskTree::new();
    tree.start("a");
    tree.start("b");
    let text = tree.tick(Spinner::Dash).unwrap();
    assert_eq!(
        text,
        "\x1b[s\x1b[1A\x1b[1G\x1b[33;1m-\x1b[0m\x1b[u\x1b[s\x1b[6G\x1b[33;1m-\x1b[0m\x1b[u"
    );
    assert!(tree.is_animating());
    assert_eq!(tree.depth(), 2);
}

#[test]
fn spinner_turns_through_four_frames() {
    let mut s = Spinner::first();
    let mut seen = String::new();
    for _ in 0..5 {
        seen.push_str(s.glyph());
        s = s.next();
    }
    assert_eq!(seen, "-\\|/-");
    assert_eq!(Spinner::Slash.next(), Spinner::Dash);
}

#[test]
fn stack_push_and_pop() {
    let mut stack = TaskStack::new();
    assert_eq!(stack.pop(), None);
    stack.push();
    stack.push();
    assert_eq!(stack.len(), 2);
    assert_eq!(stack.row(0), 1);
    assert!(stack.has_room());
    assert_eq!(stack.pop(), Some(0));
    assert_eq!(stack.pop(), Some(1));
    assert!(stack.is_empty());
}

#[test]
fn decimal_digits_of_large_numbers() {
    let mut s = String::from("x");
    jeflog::text::append_decimal(&mut s, 1_234_567_890);
    assert_eq!(s, "x1234567890");
    let mut z = String::new();
    jeflog::text::append_decimal(&mut z, 0);
    assert_eq!(z, "0");
}
