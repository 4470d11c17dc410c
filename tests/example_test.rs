use watchy_rs::sticky_signal::StickySignal;

#[derive(Copy, Clone, PartialEq, Debug)]
enum TestCommand {
    Start,
    Stop,
}

#[test]
fn test_signal() {
    let mut signal: StickySignal<TestCommand, (), 4> = StickySignal::new();
    signal.signal(TestCommand::Start);
    assert_eq!(signal.peek(), Some(TestCommand::Start));
}

#[test]
fn test_reset() {
    let mut signal: StickySignal<TestCommand, (), 4> = StickySignal::new();
    signal.signal(TestCommand::Start);
    signal.reset();
    assert_eq!(signal.peek(), None);
}

#[test]
fn test_try_take() {
    let mut signal: StickySignal<TestCommand, (), 4> = StickySignal::new();
    signal.signal(TestCommand::Start);
    assert_eq!(signal.try_take(), Some(TestCommand::Start));
    assert_eq!(signal.try_take(), None);
}

#[test]
fn test_is_signaled() {
    let mut signal: StickySignal<TestCommand, (), 4> = StickySignal::new();
    assert!(!signal.is_signaled());
    signal.signal(TestCommand::Start);
    assert!(signal.is_signaled());
}

#[test]
fn test_peek() {
    let mut signal: StickySignal<TestCommand, (), 4> = StickySignal::new();
    assert_eq!(signal.peek(), None);
    signal.signal(TestCommand::Start);
    assert_eq!(signal.peek(), Some(TestCommand::Start));
}

#[test]
fn last_signal_wins() {
    let mut signal: StickySignal<TestCommand, (), 4> = StickySignal::new();
    signal.signal(TestCommand::Start);
    signal.signal(TestCommand::Stop);
    assert_eq!(signal.peek(), Some(TestCommand::Stop));
    assert_eq!(signal.peek(), Some(TestCommand::Stop));
}
