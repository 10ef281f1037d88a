use scrolls::render::{render_footer, Session, SourceEvent};

fn lines(ls: &[&str]) -> Vec<String> {
    ls.iter().map(|s| s.to_string()).collect()
}

#[test]
fn print_basic() {
    let mut output = String::new();
    let mut session = Session::new();

    session.absorb(&lines(&["Line 1", "Line 2"]), 5);
    output.push_str(&session.render_frame(0));
    session.observe(SourceEvent::Closed);
    output.push_str(&session.render_frame(0));
    session.observe(SourceEvent::Closed);
    assert!(session.is_terminated());
    output.push_str(&render_footer(0));

    assert!(output.contains("Line 1"));
    assert!(output.contains("Line 2"));
    assert!(output.contains("· Finished in:"));
}

#[test]
fn print_with_more_lines_than_display() {
    let mut output = String::new();
    let mut session = Session::new();

    for i in 1..10 {
        session.absorb(&lines(&[&format!("Line {}", i)]), 5);
        output.push_str(&session.render_frame(0));
    }
    session.observe(SourceEvent::Closed);
    output.push_str(&session.render_frame(0));
    session.observe(SourceEvent::Closed);
    assert!(session.is_terminated());
    output.push_str(&render_footer(0));

    for i in 1..10 {
        assert!(output.contains(&format!("Line {}", i)));
    }
    assert!(output.contains("· Finished in:"));
}

#[test]
fn window_keeps_last_lines() {
    let mut session = Session::new();
    session.absorb(&lines(&["a", "b", "c", "d", "e"]), 3);
    let frame = session.render_frame(0);
    assert_eq!(frame, "· Elapsed time: 00:00:00\n╭─\n│ c\n│ d\n│ e\n╰─\n");
}

#[test]
fn three_lines_capacity_two() {
    let mut session = Session::new();
    session.absorb(&lines(&["a", "b", "c"]), 2);
    let frame = session.render_frame(0);
    assert_eq!(frame, "· Elapsed time: 00:00:00\n╭─\n│ b\n│ c\n╰─\n");
    assert!(!frame.contains("│ a"));
    assert!(frame.contains("│ b"));
    assert!(frame.contains("│ c"));
}

#[test]
fn empty_frame_before_footer() {
    let mut session = Session::new();
    session.absorb(&lines(&[]), 10);
    let frame = session.render_frame(0);
    assert_eq!(frame, "· Elapsed time: 00:00:00\n╭─\n╰─\n");
    session.observe(SourceEvent::Closed);
    session.observe(SourceEvent::Closed);
    assert!(session.is_terminated());
    assert_eq!(render_footer(0), "· Finished in: 00:00:00\n");
}

#[test]
fn redraw_without_input_repeats_frame() {
    let mut session = Session::new();
    session.absorb(&lines(&["x", "y"]), 5);
    let first = session.render_frame(7);
    let second = session.render_frame(7);
    assert_eq!(first, second);
    // With a later clock, only the header line differs.
    let later = session.render_frame(8);
    let first_rest = first.splitn(2, '\n').nth(1).unwrap();
    let later_rest = later.splitn(2, '\n').nth(1).unwrap();
    assert_eq!(first_rest, later_rest);
}

#[test]
fn closed_source_terminates_in_two_observations() {
    let mut session = Session::new();
    session.observe(SourceEvent::Line("tail".to_string()));
    assert!(!session.is_terminated());
    session.observe(SourceEvent::Closed);
    assert!(!session.is_terminated());
    session.observe(SourceEvent::Closed);
    assert!(session.is_terminated());
}

#[test]
fn late_line_resumes_running() {
    let mut session = Session::new();
    session.observe(SourceEvent::Closed);
    assert!(!session.is_terminated());
    // A line delivered in the race with the close starts the
    // confirmation over.
    session.observe(SourceEvent::Line("late".to_string()));
    session.observe(SourceEvent::Closed);
    assert!(!session.is_terminated());
    session.observe(SourceEvent::Closed);
    assert!(session.is_terminated());
}

#[test]
fn timeout_changes_nothing() {
    let mut session = Session::new();
    session.observe(SourceEvent::Closed);
    session.observe(SourceEvent::TimedOut);
    assert!(!session.is_terminated());
    session.observe(SourceEvent::Closed);
    assert!(session.is_terminated());
}
