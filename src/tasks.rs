//! Handlers around timed and host-side work: the delayed task, the progress
//! schedule, window actions, system information and the simulated restart.
//! Each computes what the host then performs or reports.
use vstd::prelude::*;
use crate::records::ApiResponse;
use crate::text::{decimal, decimal_string};

verus! {

/// Pause between two progress events, in milliseconds.
pub const PROGRESS_INTERVAL_MS: u64 = 50;

/// The last step of the progress schedule.
pub const PROGRESS_LAST_STEP: u32 = 100;

/// Delay before the simulated restart completes, in milliseconds.
pub const RESTART_DELAY_MS: u64 = 1000;

/// The text reported once the delayed task has waited `duration` seconds.
pub open spec fn task_completed_text(duration: nat) -> Seq<char> {
    "Task completed after "@ + decimal(duration) + " seconds"@
}

/// The response of the delayed task, after its wait of `duration` seconds.
pub fn async_task_response(duration: u64) -> (r: ApiResponse<String>)
    ensures
        r.success,
        r.data matches Some(d) && d@ == task_completed_text(duration as nat),
        r.message@ == "Async task finished"@,
{
    let s = String::from_str("Task completed after ").concat(decimal_string(duration).as_str());
    let d = s.concat(" seconds");
    assert(d@ =~= task_completed_text(duration as nat));
    ApiResponse::ok(d, String::from_str("Async task finished"))
}

/// One event of the progress schedule.
#[derive(Debug, Clone, PartialEq, Eq)]
pub enum ProgressEvent {
    Progress { progress: u32, message: String },
    Completed { message: String },
}

impl ProgressEvent {
    /// The name under which the event is emitted.
    pub open spec fn spec_event_name(&self) -> Seq<char> {
        match self {
            ProgressEvent::Progress { .. } => "progress-update"@,
            ProgressEvent::Completed { .. } => "task-completed"@,
        }
    }

    /// The name under which the event is emitted.
    pub fn event_name(&self) -> (r: &'static str)
        ensures
            r@ == self.spec_event_name(),
    {
        match self {
            ProgressEvent::Progress { .. } => "progress-update",
            ProgressEvent::Completed { .. } => "task-completed",
        }
    }
}

/// The message of progress step `step`.
pub open spec fn step_message(step: nat) -> Seq<char> {
    "Processing step "@ + decimal(step) + "/100"@
}

/// The message of the completion event.
pub open spec fn completion_message() -> Seq<char> {
    "Task completed successfully!"@
}

/// Whether `e` is the progress event of step `step`.
pub open spec fn is_step(e: ProgressEvent, step: nat) -> bool {
    e matches ProgressEvent::Progress { progress, message } && progress == step && message@
        == step_message(step)
}

/// The progress event of step `step`.
pub fn progress_step(step: u32) -> (r: ProgressEvent)
    ensures
        is_step(r, step as nat),
{
    let s = String::from_str("Processing step ").concat(decimal_string(step as u64).as_str());
    let message = s.concat("/100");
    assert(message@ =~= step_message(step as nat));
    ProgressEvent::Progress { progress: step, message }
}

/// The whole schedule, in emission order: one progress event for each step
/// from 0 to 100, then a single completion event.
pub fn progress_events() -> (r: Vec<ProgressEvent>)
    ensures
        r@.len() == PROGRESS_LAST_STEP + 2,
        forall|i: int| 0 <= i <= PROGRESS_LAST_STEP ==> is_step(#[trigger] r@[i], i as nat),
        forall|i: int, j: int|
            0 <= i < j <= PROGRESS_LAST_STEP ==> #[trigger] r@[i]->progress < #[trigger] r@[j]->progress,
        r@.last() matches ProgressEvent::Completed { message } && message@
            == completion_message(),
{
    let mut events: Vec<ProgressEvent> = Vec::new();
    let mut step: u32 = 0;
    while step <= PROGRESS_LAST_STEP
        invariant
            step <= PROGRESS_LAST_STEP + 1,
            events@.len() == step,
            forall|i: int| 0 <= i < step ==> is_step(#[trigger] events@[i], i as nat),
        decreases PROGRESS_LAST_STEP + 1 - step,
    {
        events.push(progress_step(step));
        step = step + 1;
    }
    events.push(
        ProgressEvent::Completed { message: String::from_str("Task completed successfully!") },
    );
    events
}

/// The acknowledgement returned when the progress schedule is started.
pub fn progress_started_response() -> (r: ApiResponse<String>)
    ensures
        r.success,
        r.data matches Some(d) && d@ == "Progress task started"@,
        r.message@ == "Background task initiated"@,
{
    ApiResponse::ok(
        String::from_str("Progress task started"),
        String::from_str("Background task initiated"),
    )
}

/// An action on the application window.
#[derive(Debug, Clone, Copy, PartialEq, Eq)]
pub enum WindowAction {
    Minimize,
    Maximize,
    Close,
    Unknown,
}

/// The action that a request names.
pub open spec fn action_named(name: Seq<char>) -> WindowAction {
    if name == "minimize"@ {
        WindowAction::Minimize
    } else if name == "maximize"@ {
        WindowAction::Maximize
    } else if name == "close"@ {
        WindowAction::Close
    } else {
        WindowAction::Unknown
    }
}

/// The report of an action.
pub open spec fn action_report(a: WindowAction) -> Seq<char> {
    match a {
        WindowAction::Minimize => "Window minimized"@,
        WindowAction::Maximize => "Window maximized"@,
        WindowAction::Close => "Window closed"@,
        WindowAction::Unknown => "Unknown action"@,
    }
}

impl WindowAction {
    /// Reads the action that `name` names; any other name is `Unknown`.
    pub fn parse(name: &String) -> (r: WindowAction)
        ensures
            r == action_named(name@),
    {
        if *name == String::from_str("minimize") {
            WindowAction::Minimize
        } else if *name == String::from_str("maximize") {
            WindowAction::Maximize
        } else if *name == String::from_str("close") {
            WindowAction::Close
        } else {
            WindowAction::Unknown
        }
    }

    /// The report of this action.
    pub fn report(&self) -> (r: String)
        ensures
            r@ == action_report(*self),
    {
        match self {
            WindowAction::Minimize => String::from_str("Window minimized"),
            WindowAction::Maximize => String::from_str("Window maximized"),
            WindowAction::Close => String::from_str("Window closed"),
            WindowAction::Unknown => String::from_str("Unknown action"),
        }
    }
}

/// The response of a window request naming `name`, once its action is done.
pub fn window_action_response(name: &String) -> (r: ApiResponse<String>)
    ensures
        r.success,
        r.data matches Some(d) && d@ == action_report(action_named(name@)),
        r.message@ == "Window action executed"@,
{
    let action = WindowAction::parse(name);
    ApiResponse::ok(action.report(), String::from_str("Window action executed"))
}

/// What the host reports about the machine it runs on.
#[derive(Debug, Clone, PartialEq, Eq)]
pub struct SystemInfo {
    pub platform: String,
    pub arch: String,
    pub family: String,
    pub timestamp: String,
}

/// The response carrying `info`.
pub fn system_info_response(info: SystemInfo) -> (r: ApiResponse<SystemInfo>)
    ensures
        r.success,
        r.data == Some(info),
        r.message@ == "System info retrieved"@,
{
    ApiResponse::ok(info, String::from_str("System info retrieved"))
}

/// The result of the simulated restart, once its delay has passed.
pub fn restart_result() -> (r: Result<String, String>)
    ensures
        r matches Ok(s) && s@ == "应用已重启"@,
{
    Ok(String::from_str("应用已重启"))
}

} // verus!
