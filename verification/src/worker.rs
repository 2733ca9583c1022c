//! The worker-side task lifecycle: what a broker delivery carries, and how
//! the worker routes the outcome of one verification.

use vstd::prelude::*;
use vstd::string::*;

use crate::input::CheckEmailInput;
use crate::json::{dec_rep, push_dec_u64, push_str_chars};
use crate::output::{CheckEmailOutput, Reachable};

verus! {

/// The webhook to fire after one verification.
#[derive(Debug, Clone)]
pub struct Webhook {
    /// Where to POST the result.
    pub url: String,
    /// An opaque JSON document echoed back beside the result, when one was
    /// given.
    pub extra: Option<String>,
}

/// The webhooks of a task.
#[derive(Debug, Clone)]
pub struct TaskWebhook {
    /// Fired after each email verification, whatever its outcome.
    pub on_each_email: Option<Webhook>,
}

/// One verification task, as delivered by the broker.
#[derive(Debug, Clone)]
pub struct CheckEmailTask {
    pub input: CheckEmailInput,
    /// Set iff the task is part of a bulk verification job.
    pub job_id: Option<i32>,
    pub webhook: Option<TaskWebhook>,
}

impl CheckEmailTask {
    /// Returns true if the task is a single-shot email verification, i.e.
    /// not a part of a bulk verification job.
    pub fn is_single_shot(&self) -> (b: bool)
        ensures
            b == (self.job_id is None),
    {
        self.job_id.is_none()
    }
}

/// The errors that can occur when processing a task.
#[derive(Debug, Clone)]
pub enum TaskError {
    /// The worker is at full capacity and cannot accept more tasks, and the
    /// caller should wait this many milliseconds. This error only occurs for
    /// single-shot tasks: bulk tasks simply stay in the queue until one
    /// worker is ready to process them.
    Throttle(u64),
    /// The broker channel failed; the carried text is the broker library's
    /// own description of the fault.
    Lapin(String),
    /// The webhook POST failed; the carried text is the HTTP library's own
    /// description of the fault.
    Reqwest(String),
}

/// The human-readable message of a task-level error.
pub open spec fn task_error_message(e: TaskError) -> Seq<char> {
    match e {
        TaskError::Throttle(ms) => "Worker at full capacity, wait "@ + dec_rep(ms as int)
            + "ms"@,
        TaskError::Lapin(m) => "Lapin error: "@ + m@,
        TaskError::Reqwest(m) => "Reqwest error during webhook: "@ + m@,
    }
}

impl TaskError {
    /// Returns the HTTP status code that should be returned to the client:
    /// 429 when throttled, 500 otherwise.
    pub fn status_code(&self) -> (c: u16)
        ensures
            self matches TaskError::Throttle(_) ==> c == 429,
            !(self matches TaskError::Throttle(_)) ==> c == 500,
    {
        match self {
            Self::Throttle(_) => 429,
            Self::Lapin(_) => 500,
            Self::Reqwest(_) => 500,
        }
    }

    /// The characters of this error's human-readable message.
    pub fn message_chars(&self) -> (v: Vec<char>)
        ensures
            v@ == task_error_message(*self),
    {
        let mut out: Vec<char> = Vec::new();
        match self {
            TaskError::Throttle(ms) => {
                push_str_chars(&mut out, "Worker at full capacity, wait ");
                push_dec_u64(&mut out, *ms);
                push_str_chars(&mut out, "ms");
                assert(out@ =~= task_error_message(*self));
            },
            TaskError::Lapin(m) => {
                push_str_chars(&mut out, "Lapin error: ");
                push_str_chars(&mut out, m.as_str());
                assert(out@ =~= task_error_message(*self));
            },
            TaskError::Reqwest(m) => {
                push_str_chars(&mut out, "Reqwest error during webhook: ");
                push_str_chars(&mut out, m.as_str());
                assert(out@ =~= task_error_message(*self));
            },
        }
        out
    }

    /// This error's human-readable message.
    pub fn to_message(&self) -> (m: String)
        ensures
            m@ == task_error_message(*self),
    {
        let v = self.message_chars();
        crate::json::chars_to_string(&v)
    }
}

/// What the worker does with a delivery once the pipeline has finished.
#[derive(Debug, Clone, Copy, PartialEq, Eq, Structural)]
pub enum TaskAction {
    /// Reject without requeue: a poison message whose body did not parse as
    /// a task.
    RejectDrop,
    /// Reject with requeue: the outcome was Unknown or an error, and the
    /// broker has not delivered this message before.
    Requeue,
    /// Acknowledge, then publish the single-shot reply to the reply queue.
    AckAndReply,
    /// Acknowledge, then persist the result row of the bulk job.
    AckAndStore,
}

/// The routing rule of the worker: an Unknown verdict or a failed pipeline
/// is requeued, but only on the first delivery; everything else is
/// acknowledged and routed by the kind of the task.
pub open spec fn spec_task_action(
    task: CheckEmailTask,
    redelivered: bool,
    outcome: Result<CheckEmailOutput, TaskError>,
) -> TaskAction {
    let retriable = match outcome {
        Ok(o) => o.is_reachable == Reachable::Unknown,
        Err(_) => true,
    };
    if !redelivered && retriable {
        TaskAction::Requeue
    } else if task.job_id is None {
        TaskAction::AckAndReply
    } else {
        TaskAction::AckAndStore
    }
}

/// Decides what the worker does with a delivery whose pipeline run ended in
/// `outcome`. `redelivered` is the broker's flag on the delivery.
pub fn decide_task_action(
    task: &CheckEmailTask,
    redelivered: bool,
    outcome: &Result<CheckEmailOutput, TaskError>,
) -> (a: TaskAction)
    ensures
        a == spec_task_action(*task, redelivered, *outcome),
{
    let retriable = match outcome {
        Ok(o) => matches!(o.is_reachable, Reachable::Unknown),
        Err(_) => true,
    };
    if !redelivered && retriable {
        TaskAction::Requeue
    } else if task.is_single_shot() {
        TaskAction::AckAndReply
    } else {
        TaskAction::AckAndStore
    }
}

/// The routing rule over a whole delivery, the poison rule included: a body
/// that did not parse as a task is rejected without requeue; a parsed task
/// is routed by the worker's routing rule.
pub open spec fn spec_delivery_action(
    parsed: Option<(CheckEmailTask, Result<CheckEmailOutput, TaskError>)>,
    redelivered: bool,
) -> TaskAction {
    match parsed {
        None => TaskAction::RejectDrop,
        Some(p) => spec_task_action(p.0, redelivered, p.1),
    }
}

/// Decides what the worker does with one delivery: `None` stands for a body
/// that failed to parse as a task (poison), `Some` carries the parsed task
/// with the outcome of its pipeline run.
pub fn decide_delivery_action(
    parsed: &Option<(CheckEmailTask, Result<CheckEmailOutput, TaskError>)>,
    redelivered: bool,
) -> (a: TaskAction)
    ensures
        a == spec_delivery_action(*parsed, redelivered),
{
    match parsed {
        None => TaskAction::RejectDrop,
        Some(p) => decide_task_action(&p.0, redelivered, &p.1),
    }
}

/// A task redelivered once is never requeued a second time by this worker:
/// on a redelivered message the decision is an acknowledging action, never a
/// requeue.
pub proof fn lemma_redelivered_never_requeued(
    task: CheckEmailTask,
    outcome: Result<CheckEmailOutput, TaskError>,
)
    ensures
        spec_task_action(task, true, outcome) != TaskAction::Requeue,
        spec_task_action(task, true, outcome) == TaskAction::AckAndReply <==> task.job_id
            is None,
        spec_task_action(task, true, outcome) == TaskAction::AckAndStore <==> task.job_id
            is Some,
{
}

} // verus!
