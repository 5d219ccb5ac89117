//! The recovery orchestrator: the configuration, the failure matcher, and the
//! state machine that drives the unbind/delay/rebind sequence with its hooks
//! and cooldown. The blocking waits, sleeps, file writes and hook processes
//! are performed by the caller; this module decides, for each state and each
//! completion event, the next state and the next action.

use crate::matcher::FailureMatcher;
use crate::matcher::failure_pattern;
use crate::matcher::pattern_accepted;
use crate::matcher::regex_match;
use vstd::prelude::*;
use vstd::string::*;

verus! {

/// Wall-clock timeout in seconds granted to a hook before it is killed.
pub const SCRIPT_TIMEOUT: u64 = 20;

/// The sysfs attribute the bus identifier is written to in order to unbind
/// the device from its driver.
pub open spec fn unbind_bus_file() -> Seq<char> {
    "/sys/bus/pci/drivers/xhci_hcd/unbind"@
}

/// The sysfs attribute the bus identifier is written to in order to bind the
/// device to its driver again.
pub open spec fn bind_bus_file() -> Seq<char> {
    "/sys/bus/pci/drivers/xhci_hcd/bind"@
}

/// The unbind attribute path as text.
pub fn unbind_bus_path() -> (r: String)
    ensures
        r@ == unbind_bus_file(),
{
    String::from_str("/sys/bus/pci/drivers/xhci_hcd/unbind")
}

/// The bind attribute path as text.
pub fn bind_bus_path() -> (r: String)
    ensures
        r@ == bind_bus_file(),
{
    String::from_str("/sys/bus/pci/drivers/xhci_hcd/bind")
}

/// The states of one recovery cycle.
#[derive(Clone, Copy, Debug, PartialEq, Eq, Structural)]
pub enum State {
    /// Blocked awaiting the next log entry.
    Idle,
    /// The pre-unbind hook is running.
    PreHook,
    /// The unbind write is in flight.
    Unbinding,
    /// Sleeping before the bind write, so the hardware can settle.
    RebindDelay,
    /// The bind write is in flight.
    Rebinding,
    /// The post-rebind hook is running.
    PostHook,
    /// Sleeping before the next failure check, against retrigger storms.
    Cooldown,
}

/// How a hook run ended. A hook never blocks the cycle, whatever its outcome.
#[derive(Clone, Copy, Debug, PartialEq, Eq, Structural)]
pub enum HookOutcome {
    /// The hook exited by itself within the timeout.
    Completed,
    /// The hook could not be spawned.
    SpawnFailed,
    /// The timeout elapsed and the hook was killed.
    TimedOut,
}

/// What the caller reports back once the pending action is done.
#[derive(Debug)]
pub enum Event {
    /// A log entry arrived; its message text, if the entry carries one.
    Entry { message: Option<String> },
    /// The hook run ended with this outcome.
    HookDone { outcome: HookOutcome },
    /// The attribute write succeeded or failed.
    Wrote { ok: bool },
    /// The sleep elapsed.
    Slept,
}

/// What the caller must do next.
#[derive(Debug)]
pub enum Action {
    /// Block on the log stream for the next entry.
    AwaitEntry,
    /// Run the hook at this path, killing it after the timeout.
    RunHook { path: String, timeout_seconds: u64 },
    /// Write the value to this sysfs attribute path.
    WriteAttr { path: String, value: String },
    /// Sleep for this many seconds.
    Sleep { seconds: u64 },
}

/// The mathematical image of an `Event`.
pub ghost enum EventView {
    Entry { message: Option<Seq<char>> },
    HookDone { outcome: HookOutcome },
    Wrote { ok: bool },
    Slept,
}

/// The mathematical image of an `Action`.
pub ghost enum ActionView {
    AwaitEntry,
    RunHook { path: Seq<char>, timeout_seconds: u64 },
    WriteAttr { path: Seq<char>, value: Seq<char> },
    Sleep { seconds: u64 },
}

impl View for Event {
    type V = EventView;

    open spec fn view(&self) -> EventView {
        match self {
            Event::Entry { message: Some(m) } => EventView::Entry { message: Some(m@) },
            Event::Entry { message: None } => EventView::Entry { message: None },
            Event::HookDone { outcome } => EventView::HookDone { outcome: *outcome },
            Event::Wrote { ok } => EventView::Wrote { ok: *ok },
            Event::Slept => EventView::Slept,
        }
    }
}

impl View for Action {
    type V = ActionView;

    open spec fn view(&self) -> ActionView {
        match self {
            Action::AwaitEntry => ActionView::AwaitEntry,
            Action::RunHook { path, timeout_seconds } => ActionView::RunHook {
                path: path@,
                timeout_seconds: *timeout_seconds,
            },
            Action::WriteAttr { path, value } => ActionView::WriteAttr {
                path: path@,
                value: value@,
            },
            Action::Sleep { seconds } => ActionView::Sleep { seconds: *seconds },
        }
    }
}

/// The immutable configuration the orchestrator runs with.
pub ghost struct MonitorView {
    /// PCI-style bus address of the monitored device.
    pub bus_id: Seq<char>,
    /// Seconds to sleep between the unbind and the bind write.
    pub bus_rebind_delay: u64,
    /// Seconds of cooldown after a finished cycle.
    pub next_fail_check_delay: u64,
    /// Path of the pre-unbind hook; empty means disabled.
    pub pre_unbind_script: Seq<char>,
    /// Path of the post-rebind hook; empty means disabled.
    pub post_rebind_script: Seq<char>,
}

/// Whether a received log entry triggers a recovery cycle: it must carry a
/// message and the message must match the failure pattern of the bus.
pub open spec fn entry_matches(cfg: MonitorView, message: Option<Seq<char>>) -> bool {
    message matches Some(m) && regex_match(failure_pattern(cfg.bus_id), m)
}

/// The transition function of the recovery state machine: from the current
/// state and the completion event, the next state and the next action. An
/// event that does not belong to the current state abandons the cycle and
/// resumes waiting.
pub open spec fn step_spec(cfg: MonitorView, state: State, event: EventView) -> (State, ActionView) {
    match (state, event) {
        (State::Idle, EventView::Entry { message }) => {
            if entry_matches(cfg, message) {
                if cfg.pre_unbind_script.len() > 0 {
                    (
                        State::PreHook,
                        ActionView::RunHook {
                            path: cfg.pre_unbind_script,
                            timeout_seconds: SCRIPT_TIMEOUT,
                        },
                    )
                } else {
                    (
                        State::Unbinding,
                        ActionView::WriteAttr { path: unbind_bus_file(), value: cfg.bus_id },
                    )
                }
            } else {
                (State::Idle, ActionView::AwaitEntry)
            }
        },
        (State::PreHook, EventView::HookDone { .. }) => (
            State::Unbinding,
            ActionView::WriteAttr { path: unbind_bus_file(), value: cfg.bus_id },
        ),
        (State::Unbinding, EventView::Wrote { ok }) => {
            if ok {
                (State::RebindDelay, ActionView::Sleep { seconds: cfg.bus_rebind_delay })
            } else {
                (State::Idle, ActionView::AwaitEntry)
            }
        },
        (State::RebindDelay, EventView::Slept) => (
            State::Rebinding,
            ActionView::WriteAttr { path: bind_bus_file(), value: cfg.bus_id },
        ),
        (State::Rebinding, EventView::Wrote { ok }) => {
            if ok {
                if cfg.post_rebind_script.len() > 0 {
                    (
                        State::PostHook,
                        ActionView::RunHook {
                            path: cfg.post_rebind_script,
                            timeout_seconds: SCRIPT_TIMEOUT,
                        },
                    )
                } else {
                    (State::Cooldown, ActionView::Sleep { seconds: cfg.next_fail_check_delay })
                }
            } else {
                (State::Idle, ActionView::AwaitEntry)
            }
        },
        (State::PostHook, EventView::HookDone { .. }) => (
            State::Cooldown,
            ActionView::Sleep { seconds: cfg.next_fail_check_delay },
        ),
        (State::Cooldown, EventView::Slept) => (State::Idle, ActionView::AwaitEntry),
        _ => (State::Idle, ActionView::AwaitEntry),
    }
}

/// The recovery orchestrator: the configuration and the compiled failure
/// matcher, owned for the process lifetime and never mutated.
pub struct Monitor {
    matcher: FailureMatcher,
    bus_id: String,
    bus_rebind_delay: u64,
    next_fail_check_delay: u64,
    pre_unbind_script: String,
    post_rebind_script: String,
}

impl View for Monitor {
    type V = MonitorView;

    closed spec fn view(&self) -> MonitorView {
        MonitorView {
            bus_id: self.bus_id@,
            bus_rebind_delay: self.bus_rebind_delay,
            next_fail_check_delay: self.next_fail_check_delay,
            pre_unbind_script: self.pre_unbind_script@,
            post_rebind_script: self.post_rebind_script@,
        }
    }
}

impl Monitor {
    #[verifier::type_invariant]
    spec fn wf(self) -> bool {
        self.matcher@ == self.bus_id@
    }

    /// Builds the orchestrator from the validated configuration values and
    /// compiles the failure pattern once; fails only when the pattern built
    /// from the bus identifier is not a valid regular expression.
    pub fn new(
        bus_id: String,
        bus_rebind_delay: u64,
        next_fail_check_delay: u64,
        pre_unbind_script: String,
        post_rebind_script: String,
    ) -> (r: Option<Monitor>)
        ensures
            r is Some <==> pattern_accepted(failure_pattern(bus_id@)),
            r matches Some(m) ==> m@ == (MonitorView {
                bus_id: bus_id@,
                bus_rebind_delay,
                next_fail_check_delay,
                pre_unbind_script: pre_unbind_script@,
                post_rebind_script: post_rebind_script@,
            }),
    {
        match FailureMatcher::new(bus_id.clone()) {
            Some(matcher) => Some(
                Monitor {
                    matcher,
                    bus_id,
                    bus_rebind_delay,
                    next_fail_check_delay,
                    pre_unbind_script,
                    post_rebind_script,
                },
            ),
            None => None,
        }
    }

    /// Tests one log message against the failure pattern of the configured
    /// bus. Pure and deterministic; never fails at call time.
    pub fn is_fail(&self, log_msg: &str) -> (r: bool)
        ensures
            r == regex_match(failure_pattern(self@.bus_id), log_msg@),
    {
        proof {
            use_type_invariant(self);
        }
        self.matcher.is_failure(log_msg)
    }

    /// One step of the recovery state machine: from the current state and
    /// the completion event, the next state and the next action, exactly as
    /// `step_spec` says.
    pub fn on_event(&self, state: State, event: &Event) -> (r: (State, Action))
        ensures
            r.0 == step_spec(self@, state, event@).0,
            r.1@ == step_spec(self@, state, event@).1,
    {
        proof {
            use_type_invariant(self);
        }
        match (state, event) {
            (State::Idle, Event::Entry { message }) => {
                let matched = match message {
                    Some(m) => self.is_fail(m.as_str()),
                    None => false,
                };
                if matched {
                    if !self.pre_unbind_script.as_str().is_empty() {
                        (
                            State::PreHook,
                            Action::RunHook {
                                path: self.pre_unbind_script.clone(),
                                timeout_seconds: SCRIPT_TIMEOUT,
                            },
                        )
                    } else {
                        (
                            State::Unbinding,
                            Action::WriteAttr {
                                path: unbind_bus_path(),
                                value: self.bus_id.clone(),
                            },
                        )
                    }
                } else {
                    (State::Idle, Action::AwaitEntry)
                }
            },
            (State::PreHook, Event::HookDone { .. }) => (
                State::Unbinding,
                Action::WriteAttr { path: unbind_bus_path(), value: self.bus_id.clone() },
            ),
            (State::Unbinding, Event::Wrote { ok }) => {
                if *ok {
                    (State::RebindDelay, Action::Sleep { seconds: self.bus_rebind_delay })
                } else {
                    (State::Idle, Action::AwaitEntry)
                }
            },
            (State::RebindDelay, Event::Slept) => (
                State::Rebinding,
                Action::WriteAttr { path: bind_bus_path(), value: self.bus_id.clone() },
            ),
            (State::Rebinding, Event::Wrote { ok }) => {
                if *ok {
                    if !self.post_rebind_script.as_str().is_empty() {
                        (
                            State::PostHook,
                            Action::RunHook {
                                path: self.post_rebind_script.clone(),
                                timeout_seconds: SCRIPT_TIMEOUT,
                            },
                        )
                    } else {
                        (State::Cooldown, Action::Sleep { seconds: self.next_fail_check_delay })
                    }
                } else {
                    (State::Idle, Action::AwaitEntry)
                }
            },
            (State::PostHook, Event::HookDone { .. }) => (
                State::Cooldown,
                Action::Sleep { seconds: self.next_fail_check_delay },
            ),
            (State::Cooldown, Event::Slept) => (State::Idle, Action::AwaitEntry),
            _ => (State::Idle, Action::AwaitEntry),
        }
    }

    /// The status text announced to the process supervisor at startup.
    pub fn status_message(&self) -> (r: String)
        ensures
            r@ == status_message_spec(self@.bus_id),
    {
        String::from_str("Start monitor xhci_hcd failure on bus ").concat(self.bus_id.as_str())
    }
}

/// The startup status text for a bus identifier.
pub open spec fn status_message_spec(bus_id: Seq<char>) -> Seq<char> {
    "Start monitor xhci_hcd failure on bus "@ + bus_id
}

/// The log-stream filters the orchestrator asks for: kernel-origin entries of
/// warning severity or higher.
pub fn journal_filters() -> (r: Vec<(String, String)>)
    ensures
        r@.len() == 2,
        r@[0].0@ == "_TRANSPORT"@,
        r@[0].1@ == "kernel"@,
        r@[1].0@ == "PRIORITY"@,
        r@[1].1@ == "4"@,
{
    let mut v: Vec<(String, String)> = Vec::new();
    v.push((String::from_str("_TRANSPORT"), String::from_str("kernel")));
    v.push((String::from_str("PRIORITY"), String::from_str("4")));
    v
}

/// A configuration with both hook paths empty never asks for a hook run:
/// whatever the state and the event, the step never returns a RunHook action.
pub proof fn lemma_no_hooks_when_unconfigured(cfg: MonitorView, state: State, event: EventView)
    requires
        cfg.pre_unbind_script.len() == 0,
        cfg.post_rebind_script.len() == 0,
    ensures
        !(step_spec(cfg, state, event).1 is RunHook),
{
}

/// A hook's outcome never decides the next step: after the pre-unbind hook
/// the cycle always proceeds to the unbind write, and after the post-rebind
/// hook always to the cooldown sleep — a timeout or a spawn failure included.
pub proof fn lemma_hook_outcome_ignored(cfg: MonitorView, o1: HookOutcome, o2: HookOutcome)
    ensures
        step_spec(cfg, State::PreHook, EventView::HookDone { outcome: o1 }) == step_spec(
            cfg,
            State::PreHook,
            EventView::HookDone { outcome: o2 },
        ),
        step_spec(cfg, State::PostHook, EventView::HookDone { outcome: o1 }) == step_spec(
            cfg,
            State::PostHook,
            EventView::HookDone { outcome: o2 },
        ),
        step_spec(cfg, State::PreHook, EventView::HookDone { outcome: o1 }) == (
            State::Unbinding,
            ActionView::WriteAttr { path: unbind_bus_file(), value: cfg.bus_id },
        ),
        step_spec(cfg, State::PostHook, EventView::HookDone { outcome: o1 }) == (
            State::Cooldown,
            ActionView::Sleep { seconds: cfg.next_fail_check_delay },
        ),
{
}

/// A failed unbind write abandons the cycle: the machine returns to Idle and
/// the next action is the blocking wait — no rebind-delay sleep and no bind
/// write. A failed bind write abandons the cycle the same way.
pub proof fn lemma_write_failure_abandons_cycle(cfg: MonitorView)
    ensures
        step_spec(cfg, State::Unbinding, EventView::Wrote { ok: false }) == (
            State::Idle,
            ActionView::AwaitEntry,
        ),
        step_spec(cfg, State::Rebinding, EventView::Wrote { ok: false }) == (
            State::Idle,
            ActionView::AwaitEntry,
        ),
{
}

/// A non-matching entry is discarded: the machine stays Idle and resumes the
/// blocking wait.
pub proof fn lemma_non_match_stays_idle(cfg: MonitorView, message: Option<Seq<char>>)
    requires
        !entry_matches(cfg, message),
    ensures
        step_spec(cfg, State::Idle, EventView::Entry { message }) == (
            State::Idle,
            ActionView::AwaitEntry,
        ),
{
}

/// One full recovery cycle with no hooks configured: a matching entry leads
/// to exactly the unbind write of the bus identifier, the rebind-delay sleep,
/// the bind write of the bus identifier, the cooldown sleep, and then the
/// blocking wait again, in that order.
pub proof fn lemma_full_cycle_without_hooks(cfg: MonitorView, message: Seq<char>)
    requires
        cfg.pre_unbind_script.len() == 0,
        cfg.post_rebind_script.len() == 0,
        regex_match(failure_pattern(cfg.bus_id), message),
    ensures
        step_spec(cfg, State::Idle, EventView::Entry { message: Some(message) }) == (
            State::Unbinding,
            ActionView::WriteAttr { path: unbind_bus_file(), value: cfg.bus_id },
        ),
        step_spec(cfg, State::Unbinding, EventView::Wrote { ok: true }) == (
            State::RebindDelay,
            ActionView::Sleep { seconds: cfg.bus_rebind_delay },
        ),
        step_spec(cfg, State::RebindDelay, EventView::Slept) == (
            State::Rebinding,
            ActionView::WriteAttr { path: bind_bus_file(), value: cfg.bus_id },
        ),
        step_spec(cfg, State::Rebinding, EventView::Wrote { ok: true }) == (
            State::Cooldown,
            ActionView::Sleep { seconds: cfg.next_fail_check_delay },
        ),
        step_spec(cfg, State::Cooldown, EventView::Slept) == (State::Idle, ActionView::AwaitEntry),
{
}

} // verus!
