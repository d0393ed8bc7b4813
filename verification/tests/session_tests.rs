use unknproject::session::{Session, Terminal};

#[test]
fn success_message_wears_the_prefix() {
    let t = Terminal::success("Foo");
    assert_eq!(t.text(), "SUCCESS: Foo");
    assert!(t.text().starts_with("SUCCESS: "));
}

#[test]
fn failure_message_never_wears_the_prefix() {
    let t = Terminal::failure("Process 'bar.exe' not found.".to_string());
    assert_eq!(t.text(), "Process 'bar.exe' not found.");
    assert!(!t.text().starts_with("SUCCESS: "));
}

#[test]
fn a_second_submission_is_refused_while_one_runs() {
    let mut s = Session::new();
    assert!(!s.is_in_progress());
    assert!(s.try_begin());
    assert!(s.is_in_progress());
    assert_eq!(s.current_status(), "Starting injection...");

    // Single-flight: the session is busy, so nothing starts and nothing
    // changes.
    assert!(!s.try_begin());
    assert!(s.is_in_progress());
    assert_eq!(s.current_status(), "Starting injection...");
}

#[test]
fn finishing_clears_the_flag_and_frees_the_session() {
    let mut s = Session::new();
    assert!(s.try_begin());
    s.set_status("Injecting...");
    s.finish(Terminal::success("Foo"));
    assert!(!s.is_in_progress());

    let msg = s.take_terminal().expect("a terminal outcome was recorded");
    assert_eq!(msg.text(), "SUCCESS: Foo");
    assert!(s.take_terminal().is_none());

    // The next request may begin now.
    assert!(s.try_begin());
}
