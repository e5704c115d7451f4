use crescent::tail::{Tail, WatchEvent, WatchStep};

#[test]
fn unit_tail_read_lines() {
    let file_path = String::from("/tmp/crescent_temp_log_file_test.txt");
    let content = "LOG";

    let file = Tail::new(file_path.clone(), content.len());

    let lines_read = file.read_lines(content, 1);

    assert_eq!(lines_read.len(), 1);
    assert_eq!(lines_read.first().unwrap(), "LOG");
}

#[test]
fn fewer_lines_than_asked_for() {
    let tail = Tail::new(String::from("/tmp/log"), 6);
    assert_eq!(tail.read_lines("a\nb\nc\n", 10), vec!["a", "b", "c"]);
    assert_eq!(tail.read_lines("a\nb\nc", 4), vec!["a", "b", "c"]);
}

#[test]
fn last_lines_in_order() {
    let tail = Tail::new(String::from("/tmp/log"), 8);
    assert_eq!(tail.read_lines("a\nb\nc\nd\n", 2), vec!["c", "d"]);
    assert_eq!(tail.read_lines("a\r\nb\r\nc\r\n", 3), vec!["a", "b", "c"]);
    assert_eq!(tail.read_lines("a\n\nb\n", 2), vec!["", "b"]);
}

#[test]
fn no_line_asked_for() {
    let tail = Tail::new(String::from("/tmp/log"), 8);
    assert_eq!(tail.read_lines("a\nb\n", 0), Vec::<String>::new());
    assert_eq!(tail.read_budget(0), 0);
}

#[test]
fn empty_file_has_no_line() {
    let tail = Tail::new(String::from("/tmp/log"), 0);
    assert_eq!(tail.read_lines("", 5), Vec::<String>::new());
    assert_eq!(tail.read_budget(5), 0);
}

#[test]
fn budget_is_clamped_to_the_file() {
    let tail = Tail::new(String::from("/tmp/log"), 1000);
    assert_eq!(tail.read_budget(1), 200);
    assert_eq!(tail.read_budget(4), 800);
    assert_eq!(tail.read_budget(5), 1000);
    assert_eq!(tail.read_budget(6), 1000);
    assert_eq!(tail.read_budget(usize::MAX), 1000);
}

#[test]
fn tail_follow() {
    // A log of one line; three lines are added from outside.
    let first = "one\n";
    let mut log = String::from(first);
    let mut tail = Tail::new(String::from("/tmp/log"), log.len());
    let mut seen = String::new();
    for line in ["two\n", "three\n", "four\n"] {
        log.push_str(line);
        match tail.watch(WatchEvent::Modified(log.len())) {
            WatchStep::Emit(from, to) => seen.push_str(&log[from..to]),
            other => panic!("unexpected {:?}", other),
        }
    }
    assert_eq!(seen, "two\nthree\nfour\n");
    assert_eq!(tail.length, log.len());
}

#[test]
fn watch_never_goes_back() {
    let mut tail = Tail::new(String::from("/tmp/log"), 10);
    assert_eq!(tail.watch(WatchEvent::Modified(10)), WatchStep::Idle);
    assert_eq!(tail.watch(WatchEvent::Modified(4)), WatchStep::Idle);
    assert_eq!(tail.length, 10);
    assert_eq!(tail.watch(WatchEvent::Other), WatchStep::Idle);
    assert_eq!(tail.watch(WatchEvent::Modified(12)), WatchStep::Emit(10, 12));
    assert_eq!(tail.length, 12);
}

#[test]
fn watch_ends_with_the_file() {
    let mut tail = Tail::new(String::from("/tmp/log"), 10);
    assert_eq!(tail.watch(WatchEvent::Removed), WatchStep::Finished);
    assert_eq!(tail.watch(WatchEvent::Failed), WatchStep::Failed);
    assert_eq!(tail.length, 10);
}
