//! Routing one worker outcome to its sink: the RPC reply of a single-shot
//! task, the stored row of a bulk task, and the per-task webhook.

use vstd::prelude::*;
use vstd::string::*;
use vstd::utf8::encode_utf8;

use crate::json::{
    chars_to_string, dec_rep, json_byte_array, json_string, push_dec_u64, push_json_byte_array,
    push_json_string, push_str_chars,
};
use crate::output::CheckEmailOutput;
use crate::serialize::{json_of_output, json_of_task};
use crate::worker::{CheckEmailTask, TaskError, Webhook, task_error_message};

verus! {

/// For single-shot email verifications, the worker sends a reply to the
/// client with the result of the verification.
#[derive(Debug)]
pub enum SingleShotReply {
    /// JSON serialization of the output record, as bytes; tagged `Ok` on
    /// the wire.
    Success(Vec<u8>),
    /// Message of the task-level error with its HTTP status code; tagged
    /// `Err` on the wire.
    Failure((String, u16)),
}

/// The HTTP status code of a task-level error: 429 when throttled, 500
/// otherwise.
pub open spec fn spec_status_code(e: TaskError) -> u16 {
    match e {
        TaskError::Throttle(_) => 429u16,
        _ => 500u16,
    }
}

/// The JSON of a single-shot reply: `{"Ok":[..bytes..]}` on success,
/// `{"Err":[message,code]}` on failure.
pub open spec fn json_of_reply(r: SingleShotReply) -> Seq<char> {
    match r {
        SingleShotReply::Success(b) => "{\"Ok\":"@ + json_byte_array(b@) + "}"@,
        SingleShotReply::Failure(p) => "{\"Err\":["@ + json_string(p.0@) + ","@ + dec_rep(p.1 as int)
            + "]}"@,
    }
}

/// The JSON of the reply that one worker outcome earns: the bytes of the
/// output's JSON on success, the error message and its status code on
/// failure.
pub open spec fn reply_json_of_outcome(outcome: Result<CheckEmailOutput, TaskError>) -> Seq<
    char,
> {
    match outcome {
        Ok(o) => "{\"Ok\":"@ + json_byte_array(encode_utf8(json_of_output(o))) + "}"@,
        Err(e) => "{\"Err\":["@ + json_string(task_error_message(e)) + ","@ + dec_rep(
            spec_status_code(e) as int,
        ) + "]}"@,
    }
}

impl SingleShotReply {
    /// The reply that one worker outcome earns: the JSON bytes of the output
    /// on success; the error message with status 429 for a throttle and 500
    /// for every other error.
    pub fn from_worker_output(outcome: &Result<CheckEmailOutput, TaskError>) -> (r: Self)
        ensures
            outcome matches Ok(o) ==> (r matches SingleShotReply::Success(b) && b@ == encode_utf8(
                json_of_output(*o),
            )),
            outcome matches Err(e) ==> (r matches SingleShotReply::Failure(p) && p.0@
                == task_error_message(*e) && p.1 == spec_status_code(*e)),
    {
        match outcome {
            Ok(o) => {
                let json = o.to_json();
                Self::Success(json.as_str().as_bytes_vec())
            },
            Err(e) => Self::Failure((e.to_message(), e.status_code())),
        }
    }

    /// The canonical JSON of this reply.
    pub fn to_json(&self) -> (r: String)
        ensures
            r@ == json_of_reply(*self),
    {
        let mut out: Vec<char> = Vec::new();
        match self {
            SingleShotReply::Success(b) => {
                push_str_chars(&mut out, "{\"Ok\":");
                push_json_byte_array(&mut out, b);
                push_str_chars(&mut out, "}");
                assert(out@ =~= json_of_reply(*self));
            },
            SingleShotReply::Failure(p) => {
                push_str_chars(&mut out, "{\"Err\":[");
                push_json_string(&mut out, p.0.as_str());
                push_str_chars(&mut out, ",");
                push_dec_u64(&mut out, p.1 as u64);
                push_str_chars(&mut out, "]}");
                assert(out@ =~= json_of_reply(*self));
            },
        }
        chars_to_string(&out)
    }
}

/// One publish on the broker channel, addressed to the queue that initiated
/// a single-shot request.
#[derive(Debug)]
pub struct ReplyPublish {
    /// The queue to publish to: the `reply_to` property of the delivery.
    pub routing_key: String,
    /// Echo of the `correlation_id` property of the delivery.
    pub correlation_id: String,
    /// Always `application/json`.
    pub content_type: String,
    /// The serialized single-shot reply.
    pub payload: Vec<u8>,
}

/// Plans the reply of a single-shot verification, in an "RPC mode", for the
/// queue that initiated the request. A reply is produced if and only if the
/// delivery carried both a `reply_to` and a `correlation_id` property.
pub fn plan_single_shot_reply(
    reply_to: &Option<String>,
    correlation_id: &Option<String>,
    outcome: &Result<CheckEmailOutput, TaskError>,
) -> (r: Result<ReplyPublish, String>)
    ensures
        r is Ok <==> (reply_to is Some && correlation_id is Some),
        r matches Ok(p) ==> p.routing_key == reply_to.unwrap() && p.correlation_id
            == correlation_id.unwrap() && p.content_type@ == "application/json"@ && p.payload@
            == encode_utf8(reply_json_of_outcome(*outcome)),
        r matches Err(m) ==> m@ == "Missing reply_to or correlation_id"@,
{
    match (reply_to, correlation_id) {
        (Some(rt), Some(cid)) => {
            let reply = SingleShotReply::from_worker_output(outcome);
            let json = reply.to_json();
            proof {
                assert(json@ =~= reply_json_of_outcome(*outcome));
            }
            Ok(
                ReplyPublish {
                    routing_key: rt.clone(),
                    correlation_id: cid.clone(),
                    content_type: String::from_str("application/json"),
                    payload: json.as_str().as_bytes_vec(),
                },
            )
        },
        _ => Err(String::from_str("Missing reply_to or correlation_id")),
    }
}

/// One row of the `v1_task_result` store: the durable result of a bulk
/// task.
#[derive(Debug)]
pub struct TaskResultRow {
    /// The JSON of the whole task, as delivered.
    pub payload: String,
    /// Identifier of the bulk job.
    pub job_id: i32,
    /// Identifier for the service that ran the verification.
    pub backend_name: String,
    /// The JSON of the output record, on success.
    pub result: Option<String>,
    /// The message of the task-level error, on failure.
    pub error: Option<String>,
}

/// Builds the one row that a completed bulk task writes to the result
/// store: its `job_id` and `backend_name` match the task and the worker,
/// and exactly one of `result` and `error` is set, by the outcome.
pub fn build_task_result_row(
    backend_name: &str,
    task: &CheckEmailTask,
    outcome: &Result<CheckEmailOutput, TaskError>,
) -> (r: TaskResultRow)
    requires
        task.job_id is Some,
    ensures
        r.payload@ == json_of_task(*task),
        r.job_id == task.job_id.unwrap(),
        r.backend_name@ == backend_name@,
        outcome matches Ok(o) ==> (r.result matches Some(j) && j@ == json_of_output(*o)
            && r.error is None),
        outcome matches Err(e) ==> (r.error matches Some(m) && m@ == task_error_message(*e)
            && r.result is None),
{
    let payload = task.to_json();
    let job_id = match &task.job_id {
        Some(j) => *j,
        None => 0,
    };
    match outcome {
        Ok(o) => TaskResultRow {
            payload,
            job_id,
            backend_name: String::from_str(backend_name),
            result: Some(o.to_json()),
            error: None,
        },
        Err(e) => TaskResultRow {
            payload,
            job_id,
            backend_name: String::from_str(backend_name),
            result: None,
            error: Some(e.to_message()),
        },
    }
}

/// One POST to a task's webhook.
#[derive(Debug)]
pub struct WebhookPost {
    /// Where to POST.
    pub url: String,
    /// The JSON body: the result record beside the task's opaque `extra`
    /// document.
    pub body: String,
}

/// The webhook of a task, when it has one.
pub open spec fn spec_webhook_of_task(t: CheckEmailTask) -> Option<Webhook> {
    match t.webhook {
        Some(tw) => tw.on_each_email,
        None => None,
    }
}

/// The body of a webhook POST.
pub open spec fn webhook_body_json(o: CheckEmailOutput, extra: Option<String>) -> Seq<char> {
    "{\"result\":"@ + json_of_output(o) + ",\"extra\":"@ + (match extra {
        Some(e) => e@,
        None => "null"@,
    }) + "}"@
}

/// Plans the webhook POST of a task, fired after the pipeline completes,
/// whatever its outcome: one POST iff the task carries an `on_each_email`
/// webhook.
pub fn plan_webhook(task: &CheckEmailTask, output: &CheckEmailOutput) -> (w: Option<
    WebhookPost,
>)
    ensures
        spec_webhook_of_task(*task) is None ==> w is None,
        spec_webhook_of_task(*task) matches Some(wh) ==> (w matches Some(p) && p.url == wh.url
            && p.body@ == webhook_body_json(*output, wh.extra)),
{
    match &task.webhook {
        Some(tw) => match &tw.on_each_email {
            Some(wh) => {
                let mut out: Vec<char> = Vec::new();
                push_str_chars(&mut out, "{\"result\":");
                output.push_json(&mut out);
                push_str_chars(&mut out, ",\"extra\":");
                match &wh.extra {
                    Some(e) => push_str_chars(&mut out, e.as_str()),
                    None => push_str_chars(&mut out, "null"),
                }
                push_str_chars(&mut out, "}");
                assert(out@ =~= webhook_body_json(*output, wh.extra));
                Some(WebhookPost { url: wh.url.clone(), body: chars_to_string(&out) })
            },
            None => None,
        },
        None => None,
    }
}

} // verus!
