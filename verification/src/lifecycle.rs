use vstd::prelude::*;

verus! {

/// The bootstrap lifecycle: setup, then the event loop, then exactly one of
/// two terminal outcomes.
#[derive(Clone, Copy, Debug, PartialEq, Eq, Structural)]
pub enum LifecycleState {
    Starting,
    Running,
    ExitedNormally,
    ExitedWithFault,
}

/// What the GUI shell reports back to the bootstrap logic.
pub enum ShellEvent {
    /// The one-shot setup callback ran.
    SetupComplete,
    /// The event loop returned cleanly.
    RunSucceeded,
    /// The event loop failed; the field holds the error text.
    RunFailed(String),
}

/// What the caller must do after a step: move to the new state, append the
/// line to the log (if any), and raise the fault (if any) so that the
/// process exits with a non-zero code.
pub struct StepOutcome {
    pub next: LifecycleState,
    pub log_message: Option<String>,
    pub abort_message: Option<String>,
}

pub open spec fn is_terminal(s: LifecycleState) -> bool {
    s == LifecycleState::ExitedNormally || s == LifecycleState::ExitedWithFault
}

/// Logged when the one-shot setup callback runs.
pub open spec fn setup_complete_message() -> Seq<char> {
    "Tauri app setup complete"@
}

/// Logged when the event loop returns cleanly.
pub open spec fn normal_exit_message() -> Seq<char> {
    "WebSQL exited normally"@
}

/// Logged when the event loop fails with the given error text.
pub open spec fn run_error_message(e: Seq<char>) -> Seq<char> {
    "Error running tauri application: "@ + e
}

/// Carried by the deliberate fault that forces a non-zero exit code.
pub open spec fn abort_message(e: Seq<char>) -> Seq<char> {
    "Failed to run tauri application: "@ + e
}

/// Logged once at startup, with the resolved log path.
pub open spec fn startup_text(path: Seq<char>) -> Seq<char> {
    "WebSQL starting up - Log file: "@ + path
}

/// Builds the startup line for the given log path.
pub fn startup_message(path: &str) -> (r: String)
    ensures
        r@ == startup_text(path@),
{
    let mut s = String::from_str("WebSQL starting up - Log file: ");
    s.append(path);
    s
}

/// The environment override that forces software compositing in the
/// embedded renderer: key and value, both fixed.
pub fn compositing_override() -> (r: (String, String))
    ensures
        r.0@ == "WEBKIT_DISABLE_COMPOSITING_MODE"@,
        r.1@ == "1"@,
{
    (
        String::from_str("WEBKIT_DISABLE_COMPOSITING_MODE"),
        String::from_str("1"),
    )
}

/// Advances the lifecycle by one shell event. Terminal states absorb every
/// event. Setup completion moves `Starting` to `Running` and logs a
/// confirmation. The end of the event loop moves any live state to exactly
/// one terminal state: a clean return logs the normal-exit line; a failure
/// logs the error text and demands a fault carrying the same text, so the
/// process exit code reflects the failure.
pub fn step(state: LifecycleState, event: ShellEvent) -> (outcome: StepOutcome)
    ensures
        is_terminal(state) ==> outcome.next == state && outcome.log_message is None
            && outcome.abort_message is None,
        !is_terminal(state) ==> match event {
            ShellEvent::SetupComplete => {
                &&& outcome.next == (if state is Starting {
                    LifecycleState::Running
                } else {
                    state
                })
                &&& if state is Starting {
                    outcome.log_message matches Some(m) && m@ == setup_complete_message()
                } else {
                    outcome.log_message is None
                }
                &&& outcome.abort_message is None
            },
            ShellEvent::RunSucceeded => {
                &&& outcome.next is ExitedNormally
                &&& outcome.log_message matches Some(m) && m@ == normal_exit_message()
                &&& outcome.abort_message is None
            },
            ShellEvent::RunFailed(e) => {
                &&& outcome.next is ExitedWithFault
                &&& outcome.log_message matches Some(m) && m@ == run_error_message(e@)
                &&& outcome.abort_message matches Some(a) && a@ == abort_message(e@)
            },
        },
{
    match state {
        LifecycleState::ExitedNormally | LifecycleState::ExitedWithFault => StepOutcome {
            next: state,
            log_message: Option::None,
            abort_message: Option::None,
        },
        LifecycleState::Starting | LifecycleState::Running => match event {
            ShellEvent::SetupComplete => {
                if state == LifecycleState::Starting {
                    StepOutcome {
                        next: LifecycleState::Running,
                        log_message: Option::Some(String::from_str("Tauri app setup complete")),
                        abort_message: Option::None,
                    }
                } else {
                    StepOutcome {
                        next: state,
                        log_message: Option::None,
                        abort_message: Option::None,
                    }
                }
            },
            ShellEvent::RunSucceeded => StepOutcome {
                next: LifecycleState::ExitedNormally,
                log_message: Option::Some(String::from_str("WebSQL exited normally")),
                abort_message: Option::None,
            },
            ShellEvent::RunFailed(e) => {
                let mut log = String::from_str("Error running tauri application: ");
                log.append(e.as_str());
                let mut abort = String::from_str("Failed to run tauri application: ");
                abort.append(e.as_str());
                StepOutcome {
                    next: LifecycleState::ExitedWithFault,
                    log_message: Option::Some(log),
                    abort_message: Option::Some(abort),
                }
            },
        },
    }
}

} // verus!
