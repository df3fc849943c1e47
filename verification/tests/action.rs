use watchso::action::{Event, Signal, WAction};

fn event(paths: &[&str], signals: &[Signal]) -> Event {
    Event { paths: paths.iter().map(|p| p.to_string()).collect(), signals: signals.to_vec() }
}

#[test]
fn unique_paths_keep_the_order_of_first_occurrence() {
    let action = WAction::new(vec![
        event(&["b/lib.rs", "a/lib.rs"], &[]),
        event(&["a/lib.rs", "c.so", "b/lib.rs"], &[]),
        event(&[], &[]),
        event(&["c.so", "d.json"], &[]),
    ]);
    assert_eq!(action.get_unique_paths(), vec!["b/lib.rs", "a/lib.rs", "c.so", "d.json"]);
}

#[test]
fn unique_paths_of_an_empty_batch() {
    assert!(WAction::new(vec![]).get_unique_paths().is_empty());
}

#[test]
fn interrupt_is_found_in_any_notification() {
    let action = WAction::new(vec![
        event(&["a.rs"], &[Signal::Hangup]),
        event(&[], &[Signal::User1, Signal::Interrupt]),
    ]);
    assert!(action.is_interrupt());
    assert!(!action.is_terminate());
}

#[test]
fn terminate_is_found_in_any_notification() {
    let action = WAction::new(vec![event(&["a.rs"], &[Signal::Terminate])]);
    assert!(action.is_terminate());
    assert!(!action.is_interrupt());
}

#[test]
fn other_signals_are_neither() {
    let action = WAction::new(vec![event(
        &["a.rs"],
        &[Signal::Hangup, Signal::ForceStop, Signal::Quit, Signal::User2, Signal::Custom(2)],
    )]);
    assert!(!action.is_terminate());
    assert!(!action.is_interrupt());
}

#[test]
fn take_returns_the_notifications() {
    let action = WAction::new(vec![event(&["a.rs"], &[]), event(&["b.rs"], &[Signal::Quit])]);
    let events = action.take();
    assert_eq!(events.len(), 2);
    assert_eq!(events[0].paths, vec!["a.rs"]);
    assert_eq!(events[1].signals, vec![Signal::Quit]);
}
