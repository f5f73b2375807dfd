use vstd::prelude::*;

verus! {

/// Quiescence delay observed after a disconnect or a failed connection
/// attempt, in milliseconds. It is fixed by design: firmware runs
/// unattended indefinitely, so the retry loop has no backoff growth and
/// no attempt cap, only this pause to avoid hammering a rebooting or
/// overloaded access point.
pub const RETRY_DELAY_MS: u64 = 5000;

/// Bound on the number of results the opportunistic scan asks for.
pub const SCAN_MAX: usize = 10;

/// The association state machine's states, owned exclusively by the
/// machine itself. Other components never read this state; they observe
/// only derived signals (the link-up boolean and disconnect events).
#[derive(Clone, Copy, Debug, PartialEq, Eq, Structural)]
pub enum AssocState {
    /// Not yet activated.
    Idle,
    /// Radio told to start; waiting for the driver to report it started.
    Starting,
    /// Opportunistic, diagnostic-only scan in flight.
    Scanning,
    /// Credentials applied, connection attempt in flight.
    Connecting,
    /// Associated with the access point; waiting for a disconnect notice.
    Connected,
    /// Association lost; sitting out the quiescence delay.
    Disconnected { reason: u32 },
}

/// Driver and timer events delivered to the machine by the firmware.
#[derive(Clone, Copy, Debug, PartialEq, Eq, Structural)]
pub enum AssocEvent {
    /// First activation, delivered once at construction.
    Activate,
    /// The radio driver reports "started".
    RadioStarted,
    /// The diagnostic scan finished with this many access points found.
    ScanFinished { found: usize },
    /// The driver reports the connection attempt succeeded.
    ConnectSucceeded,
    /// The driver reports the connection attempt failed.
    ConnectFailed { reason: u32 },
    /// Asynchronous driver notification that the association was lost.
    LinkLost { reason: u32 },
    /// The quiescence delay has elapsed.
    QuiescenceElapsed,
}

/// What the firmware must do next on the machine's behalf. The firmware
/// performs the action against the radio driver or the timer and hands the
/// resulting event back.
#[derive(Clone, Copy, Debug, PartialEq, Eq, Structural)]
pub enum AssocAction {
    /// Start the radio driver.
    StartRadio,
    /// Run the bounded, diagnostic-only scan.
    ScanAccessPoints { max: usize },
    /// (Re-)apply the credentials, then attempt to connect. Configuration
    /// is applied before every attempt because the driver may require it
    /// on the first start and after any recoverable stop.
    ApplyConfigAndConnect,
    /// Wait for the driver's disconnect notification.
    AwaitDisconnect,
    /// Sleep for the given number of milliseconds, then deliver
    /// `QuiescenceElapsed`.
    DelayRetry { millis: u64 },
    /// No new action: keep waiting for the event the machine expects.
    KeepWaiting,
}

/// One step of the machine: the state it moves to and the action the
/// firmware must perform next.
#[derive(Clone, Copy, Debug, PartialEq, Eq, Structural)]
pub struct StepOutcome {
    pub next: AssocState,
    pub action: AssocAction,
}

/// The full transition table. An event the current state does not expect
/// is absorbed: the state is kept and no new action is ordered, so a
/// stale or duplicated driver notification can never derail the machine.
pub open spec fn spec_step(s: AssocState, e: AssocEvent) -> StepOutcome {
    match (s, e) {
        (AssocState::Idle, AssocEvent::Activate) => StepOutcome {
            next: AssocState::Starting,
            action: AssocAction::StartRadio,
        },
        (AssocState::Starting, AssocEvent::RadioStarted) => StepOutcome {
            next: AssocState::Scanning,
            action: AssocAction::ScanAccessPoints { max: SCAN_MAX },
        },
        (AssocState::Scanning, AssocEvent::ScanFinished { found: _ }) => StepOutcome {
            next: AssocState::Connecting,
            action: AssocAction::ApplyConfigAndConnect,
        },
        (AssocState::Connecting, AssocEvent::ConnectSucceeded) => StepOutcome {
            next: AssocState::Connected,
            action: AssocAction::AwaitDisconnect,
        },
        (AssocState::Connecting, AssocEvent::ConnectFailed { reason }) => StepOutcome {
            next: AssocState::Disconnected { reason },
            action: AssocAction::DelayRetry { millis: RETRY_DELAY_MS },
        },
        (AssocState::Connected, AssocEvent::LinkLost { reason }) => StepOutcome {
            next: AssocState::Disconnected { reason },
            action: AssocAction::DelayRetry { millis: RETRY_DELAY_MS },
        },
        (AssocState::Disconnected { reason: _ }, AssocEvent::QuiescenceElapsed) => StepOutcome {
            next: AssocState::Starting,
            action: AssocAction::StartRadio,
        },
        _ => StepOutcome { next: s, action: AssocAction::KeepWaiting },
    }
}

/// Advance the association state machine by one event.
pub fn step(s: AssocState, e: AssocEvent) -> (o: StepOutcome)
    ensures
        o == spec_step(s, e),
{
    match (s, e) {
        (AssocState::Idle, AssocEvent::Activate) => StepOutcome {
            next: AssocState::Starting,
            action: AssocAction::StartRadio,
        },
        (AssocState::Starting, AssocEvent::RadioStarted) => StepOutcome {
            next: AssocState::Scanning,
            action: AssocAction::ScanAccessPoints { max: SCAN_MAX },
        },
        (AssocState::Scanning, AssocEvent::ScanFinished { found: _ }) => StepOutcome {
            next: AssocState::Connecting,
            action: AssocAction::ApplyConfigAndConnect,
        },
        (AssocState::Connecting, AssocEvent::ConnectSucceeded) => StepOutcome {
            next: AssocState::Connected,
            action: AssocAction::AwaitDisconnect,
        },
        (AssocState::Connecting, AssocEvent::ConnectFailed { reason }) => StepOutcome {
            next: AssocState::Disconnected { reason },
            action: AssocAction::DelayRetry { millis: RETRY_DELAY_MS },
        },
        (AssocState::Connected, AssocEvent::LinkLost { reason }) => StepOutcome {
            next: AssocState::Disconnected { reason },
            action: AssocAction::DelayRetry { millis: RETRY_DELAY_MS },
        },
        (AssocState::Disconnected { reason: _ }, AssocEvent::QuiescenceElapsed) => StepOutcome {
            next: AssocState::Starting,
            action: AssocAction::StartRadio,
        },
        _ => StepOutcome { next: s, action: AssocAction::KeepWaiting },
    }
}

/// The event a cooperative driver answers the pending action of state `s`
/// with: the "everything goes right from here on" response.
pub open spec fn spec_recovery_event(s: AssocState) -> AssocEvent {
    match s {
        AssocState::Idle => AssocEvent::Activate,
        AssocState::Starting => AssocEvent::RadioStarted,
        AssocState::Scanning => AssocEvent::ScanFinished { found: 0 },
        AssocState::Connecting => AssocEvent::ConnectSucceeded,
        AssocState::Connected => AssocEvent::Activate,
        AssocState::Disconnected { reason: _ } => AssocEvent::QuiescenceElapsed,
    }
}

/// The state after `n` steps in which the driver answers every pending
/// action successfully.
pub open spec fn spec_run_recovery(s: AssocState, n: nat) -> AssocState
    decreases n,
{
    if n == 0 {
        s
    } else {
        spec_run_recovery(spec_step(s, spec_recovery_event(s)).next, (n - 1) as nat)
    }
}

/// The state after the machine has consumed an arbitrary event sequence.
pub open spec fn spec_run_events(s: AssocState, events: Seq<AssocEvent>) -> AssocState
    decreases events.len(),
{
    if events.len() == 0 {
        s
    } else {
        spec_run_events(spec_step(s, events[0]).next, events.drop_first())
    }
}

/// Law: from every state, four successful driver responses reach
/// `Connected`, and once connected the machine stays connected until a
/// disconnect. There is no state from which recovery is impossible: the
/// machine never gives up.
pub proof fn lemma_eventually_connected(s: AssocState)
    ensures
        spec_run_recovery(s, 4) == AssocState::Connected,
{
    reveal_with_fuel(spec_run_recovery, 5);
}

/// Law (liveness under fault injection): whatever event sequence the
/// driver has delivered so far — disconnects and failed attempts included —
/// four successful responses thereafter return the machine to `Connected`
/// without manual intervention.
pub proof fn lemma_recovers_after_any_events(events: Seq<AssocEvent>)
    ensures
        spec_run_recovery(spec_run_events(AssocState::Idle, events), 4) == AssocState::Connected,
{
    lemma_eventually_connected(spec_run_events(AssocState::Idle, events));
}

/// Law: every delay the machine ever orders equals the configured fixed
/// interval — the quiescence between attempts has no growth and no cap,
/// however many attempts have already failed.
pub proof fn lemma_retry_delay_fixed(s: AssocState, e: AssocEvent)
    ensures
        spec_step(s, e).action matches AssocAction::DelayRetry { millis } ==> millis
            == RETRY_DELAY_MS,
{
}

/// Law: a failed connection attempt is treated identically to a driver
/// disconnect with the same reason: same next state, same fixed delay.
pub proof fn lemma_connect_failure_is_disconnect(reason: u32)
    ensures
        spec_step(AssocState::Connecting, AssocEvent::ConnectFailed { reason }) == spec_step(
            AssocState::Connected,
            AssocEvent::LinkLost { reason },
        ),
{
}

/// Law: the scan is bounded and diagnostic only. It always asks for at
/// most `SCAN_MAX` results, and its outcome never gates the connection:
/// whatever the result count, the machine proceeds to a connection
/// attempt, re-applying the configuration first.
pub proof fn lemma_scan_diagnostic_only(found: usize)
    ensures
        spec_step(AssocState::Scanning, AssocEvent::ScanFinished { found }).next
            == AssocState::Connecting,
        spec_step(AssocState::Scanning, AssocEvent::ScanFinished { found }).action
            == AssocAction::ApplyConfigAndConnect,
        spec_step(AssocState::Starting, AssocEvent::RadioStarted).action matches
            AssocAction::ScanAccessPoints { max } && max == SCAN_MAX,
{
}

/// Law: the configuration is (re-)applied before every connection attempt:
/// every entry into `Connecting` carries the apply-and-connect action.
pub proof fn lemma_config_applied_before_every_attempt(s: AssocState, e: AssocEvent)
    ensures
        spec_step(s, e).next == AssocState::Connecting && s != AssocState::Connecting
            ==> spec_step(s, e).action == AssocAction::ApplyConfigAndConnect,
{
}

} // verus!
