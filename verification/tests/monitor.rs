use xhci_hcd_rebind::matcher::build_failure_pattern;
use xhci_hcd_rebind::monitor::{
    journal_filters, Action, Event, HookOutcome, Monitor, State, SCRIPT_TIMEOUT,
};

const UNBIND_PATH: &str = "/sys/bus/pci/drivers/xhci_hcd/unbind";
const BIND_PATH: &str = "/sys/bus/pci/drivers/xhci_hcd/bind";

fn monitor(bus_id: &str, pre: &str, post: &str) -> Monitor {
    Monitor::new(bus_id.to_string(), 3, 300, pre.to_string(), post.to_string())
        .expect("Creating xhci_hcd fail regex")
}

#[test]
fn test_xhci_hcd_fail_log() {
    let journal_log1 = "xhci_hcd 0000:04:00.0: WARN: TRB error for slot 1 ep 5 on endpoint";
    let journal_log2 = "xhci_hcd 0000:04:00.0: WARN waiting for error on ep to be cleared";

    let mon = monitor("0000:04:00.0", "", "");
    assert!(!mon.is_fail(journal_log1));
    assert!(mon.is_fail(journal_log2));
}

#[test]
fn test_pattern_text() {
    assert_eq!(
        build_failure_pattern("0000:04:00.0"),
        "xhci_hcd 0000:04:00\\.0: WARN waiting for error on ep to be cleared"
    );
    assert_eq!(
        build_failure_pattern(""),
        "xhci_hcd : WARN waiting for error on ep to be cleared"
    );
}

#[test]
fn test_matcher_escapes_dots() {
    let mon = monitor("0000:04:00.0", "", "");
    // The dot matches only a literal dot, not an arbitrary character.
    assert!(!mon.is_fail("xhci_hcd 0000:04:00X0: WARN waiting for error on ep to be cleared"));
    assert!(mon.is_fail("xhci_hcd 0000:04:00.0: WARN waiting for error on ep to be cleared"));
}

#[test]
fn test_trailing_phrase_required() {
    let mon = monitor("0000:04:00.0", "", "");
    // The driver name and bus id alone are not enough.
    assert!(!mon.is_fail("xhci_hcd 0000:04:00.0: WARN: TRB error for slot 1 ep 5 on endpoint"));
    assert!(!mon.is_fail("xhci_hcd 0000:04:00.0: something else entirely"));
    // The phrase may sit anywhere in the message, not only at the start.
    assert!(mon.is_fail(
        "kernel: xhci_hcd 0000:04:00.0: WARN waiting for error on ep to be cleared (again)"
    ));
}

#[test]
fn test_matcher_idempotent() {
    let mon = monitor("0000:04:00.0", "", "");
    let msg = "xhci_hcd 0000:04:00.0: WARN waiting for error on ep to be cleared";
    let first = mon.is_fail(msg);
    for _ in 0..10 {
        assert_eq!(mon.is_fail(msg), first);
    }
    // A second matcher with the same bus identifier agrees.
    let other = monitor("0000:04:00.0", "", "");
    assert_eq!(other.is_fail(msg), first);
}

#[test]
fn test_invalid_bus_id_rejected_at_construction() {
    // A bus identifier that makes the pattern an invalid regular expression
    // fails at construction time, never at match time.
    assert!(Monitor::new("(".to_string(), 3, 300, String::new(), String::new()).is_none());
}

#[test]
fn test_non_matching_entry_stays_idle() {
    let mon = monitor("0000:04:00.0", "", "");
    let (state, action) = mon.on_event(
        State::Idle,
        &Event::Entry { message: Some("unrelated kernel warning".to_string()) },
    );
    assert_eq!(state, State::Idle);
    assert!(matches!(action, Action::AwaitEntry));

    // An entry without a message text is discarded too.
    let (state, action) = mon.on_event(State::Idle, &Event::Entry { message: None });
    assert_eq!(state, State::Idle);
    assert!(matches!(action, Action::AwaitEntry));
}

#[test]
fn test_empty_hook_never_invoked() {
    // With both hook paths empty a full cycle asks for no hook run at all.
    let mon = monitor("0000:05:00.0", "", "");
    let mut hook_runs: usize = 0;
    let mut state = State::Idle;
    let mut events = vec![
        Event::Entry {
            message: Some(
                "xhci_hcd 0000:05:00.0: WARN waiting for error on ep to be cleared".to_string(),
            ),
        },
        Event::Wrote { ok: true },
        Event::Slept,
        Event::Wrote { ok: true },
        Event::Slept,
    ]
    .into_iter();
    for _ in 0..5 {
        let event = events.next().unwrap();
        let (next, action) = mon.on_event(state, &event);
        if matches!(action, Action::RunHook { .. }) {
            hook_runs += 1;
        }
        state = next;
    }
    assert_eq!(hook_runs, 0);
    assert_eq!(state, State::Idle);
}

#[test]
fn test_hook_timeout_proceeds() {
    // A hook that timed out was killed and reported as TimedOut; the cycle
    // still proceeds: to the unbind write after the pre-unbind hook, to the
    // cooldown after the post-rebind hook.
    let mon = monitor("0000:04:00.0", "/usr/local/bin/pre.sh", "/usr/local/bin/post.sh");

    let (state, action) = mon.on_event(
        State::PreHook,
        &Event::HookDone { outcome: HookOutcome::TimedOut },
    );
    assert_eq!(state, State::Unbinding);
    match action {
        Action::WriteAttr { path, value } => {
            assert_eq!(path, UNBIND_PATH);
            assert_eq!(value, "0000:04:00.0");
        }
        other => panic!("expected the unbind write, got {:?}", other),
    }

    let (state, action) = mon.on_event(
        State::PostHook,
        &Event::HookDone { outcome: HookOutcome::TimedOut },
    );
    assert_eq!(state, State::Cooldown);
    match action {
        Action::Sleep { seconds } => assert_eq!(seconds, 300),
        other => panic!("expected the cooldown sleep, got {:?}", other),
    }

    // A spawn failure is treated the same way.
    let (state, _) = mon.on_event(
        State::PreHook,
        &Event::HookDone { outcome: HookOutcome::SpawnFailed },
    );
    assert_eq!(state, State::Unbinding);
}

#[test]
fn test_configured_hooks_are_invoked() {
    let mon = monitor("0000:04:00.0", "/usr/local/bin/pre.sh", "/usr/local/bin/post.sh");
    let (state, action) = mon.on_event(
        State::Idle,
        &Event::Entry {
            message: Some(
                "xhci_hcd 0000:04:00.0: WARN waiting for error on ep to be cleared".to_string(),
            ),
        },
    );
    assert_eq!(state, State::PreHook);
    match action {
        Action::RunHook { path, timeout_seconds } => {
            assert_eq!(path, "/usr/local/bin/pre.sh");
            assert_eq!(timeout_seconds, SCRIPT_TIMEOUT);
            assert_eq!(timeout_seconds, 20);
        }
        other => panic!("expected the pre-unbind hook run, got {:?}", other),
    }

    let (state, action) = mon.on_event(State::Rebinding, &Event::Wrote { ok: true });
    assert_eq!(state, State::PostHook);
    match action {
        Action::RunHook { path, timeout_seconds } => {
            assert_eq!(path, "/usr/local/bin/post.sh");
            assert_eq!(timeout_seconds, 20);
        }
        other => panic!("expected the post-rebind hook run, got {:?}", other),
    }
}

#[test]
fn test_unbind_failure_abandons_cycle() {
    // An unbind write failure returns the machine to Idle: no rebind-delay
    // sleep, no bind write.
    let mon = monitor("0000:04:00.0", "", "");
    let (state, action) = mon.on_event(State::Unbinding, &Event::Wrote { ok: false });
    assert_eq!(state, State::Idle);
    assert!(matches!(action, Action::AwaitEntry));

    // A bind write failure abandons the cycle the same way.
    let (state, action) = mon.on_event(State::Rebinding, &Event::Wrote { ok: false });
    assert_eq!(state, State::Idle);
    assert!(matches!(action, Action::AwaitEntry));
}

#[test]
fn test_full_cycle() {
    // End to end: one matching entry gives exactly one unbind write, the
    // 3-second delay, exactly one bind write, the 300-second cooldown, and
    // then the blocking wait again.
    let mon = Monitor::new("0000:05:00.0".to_string(), 3, 300, String::new(), String::new())
        .expect("Creating xhci_hcd fail regex");

    let (state, action) = mon.on_event(
        State::Idle,
        &Event::Entry {
            message: Some(
                "xhci_hcd 0000:05:00.0: WARN waiting for error on ep to be cleared".to_string(),
            ),
        },
    );
    assert_eq!(state, State::Unbinding);
    match action {
        Action::WriteAttr { path, value } => {
            assert_eq!(path, UNBIND_PATH);
            assert_eq!(value, "0000:05:00.0");
        }
        other => panic!("expected the unbind write, got {:?}", other),
    }

    let (state, action) = mon.on_event(state, &Event::Wrote { ok: true });
    assert_eq!(state, State::RebindDelay);
    match action {
        Action::Sleep { seconds } => assert_eq!(seconds, 3),
        other => panic!("expected the rebind-delay sleep, got {:?}", other),
    }

    let (state, action) = mon.on_event(state, &Event::Slept);
    assert_eq!(state, State::Rebinding);
    match action {
        Action::WriteAttr { path, value } => {
            assert_eq!(path, BIND_PATH);
            assert_eq!(value, "0000:05:00.0");
        }
        other => panic!("expected the bind write, got {:?}", other),
    }

    let (state, action) = mon.on_event(state, &Event::Wrote { ok: true });
    assert_eq!(state, State::Cooldown);
    match action {
        Action::Sleep { seconds } => assert_eq!(seconds, 300),
        other => panic!("expected the cooldown sleep, got {:?}", other),
    }

    let (state, action) = mon.on_event(state, &Event::Slept);
    assert_eq!(state, State::Idle);
    assert!(matches!(action, Action::AwaitEntry));
}

#[test]
fn test_status_message() {
    let mon = monitor("0000:05:00.0", "", "");
    assert_eq!(
        mon.status_message(),
        "Start monitor xhci_hcd failure on bus 0000:05:00.0"
    );
}

#[test]
fn test_journal_filters() {
    let filters = journal_filters();
    assert_eq!(filters.len(), 2);
    assert_eq!(filters[0].0, "_TRANSPORT");
    assert_eq!(filters[0].1, "kernel");
    assert_eq!(filters[1].0, "PRIORITY");
    assert_eq!(filters[1].1, "4");
}
