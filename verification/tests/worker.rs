use reacher::input::CheckEmailInput;
use reacher::output::{CheckEmailOutput, Reachable};
use reacher::response::{
    build_task_result_row, plan_single_shot_reply, plan_webhook, SingleShotReply,
};
use reacher::worker::{decide_delivery_action, decide_task_action, CheckEmailTask, TaskAction,
    TaskError, TaskWebhook, Webhook};

fn bulk_task() -> CheckEmailTask {
    CheckEmailTask {
        input: CheckEmailInput {
            to_email: "someone@example.org".to_string(),
            ..CheckEmailInput::default()
        },
        job_id: Some(42),
        webhook: None,
    }
}

fn single_shot_task() -> CheckEmailTask {
    CheckEmailTask { job_id: None, ..bulk_task() }
}

fn output_with(reachable: Reachable) -> CheckEmailOutput {
    CheckEmailOutput {
        input: "someone@example.org".to_string(),
        is_reachable: reachable,
        ..CheckEmailOutput::default()
    }
}

#[test]
fn bulk_unknown_first_delivery_is_requeued() {
    // One reject-with-requeue; no store, no reply.
    let action = decide_task_action(&bulk_task(), false, &Ok(output_with(Reachable::Unknown)));
    assert_eq!(action, TaskAction::Requeue);
}

#[test]
fn failed_pipeline_first_delivery_is_requeued() {
    let action = decide_task_action(
        &bulk_task(),
        false,
        &Err(TaskError::Lapin("connection closed".to_string())),
    );
    assert_eq!(action, TaskAction::Requeue);
}

#[test]
fn redelivered_task_is_never_requeued_again() {
    let unknown: Result<CheckEmailOutput, TaskError> = Ok(output_with(Reachable::Unknown));
    assert_eq!(decide_task_action(&bulk_task(), true, &unknown), TaskAction::AckAndStore);
    assert_eq!(
        decide_task_action(&single_shot_task(), true, &unknown),
        TaskAction::AckAndReply
    );
    let failed: Result<CheckEmailOutput, TaskError> =
        Err(TaskError::Reqwest("timed out".to_string()));
    assert_eq!(decide_task_action(&bulk_task(), true, &failed), TaskAction::AckAndStore);
}

#[test]
fn safe_outcome_is_acked_and_routed() {
    let safe: Result<CheckEmailOutput, TaskError> = Ok(output_with(Reachable::Safe));
    assert_eq!(decide_task_action(&single_shot_task(), false, &safe), TaskAction::AckAndReply);
    assert_eq!(decide_task_action(&bulk_task(), false, &safe), TaskAction::AckAndStore);
}

#[test]
fn poison_body_is_rejected_without_requeue() {
    // A delivery whose body does not parse as a task is dropped, never
    // requeued, on first delivery and on redelivery alike.
    assert_eq!(decide_delivery_action(&None, false), TaskAction::RejectDrop);
    assert_eq!(decide_delivery_action(&None, true), TaskAction::RejectDrop);
    let parsed = Some((single_shot_task(), Ok(output_with(Reachable::Safe))));
    assert_eq!(decide_delivery_action(&parsed, false), TaskAction::AckAndReply);
}

#[test]
fn is_single_shot_follows_job_id() {
    assert!(single_shot_task().is_single_shot());
    assert!(!bulk_task().is_single_shot());
}

#[test]
fn status_codes_follow_error_kind() {
    assert_eq!(TaskError::Throttle(1500).status_code(), 429);
    assert_eq!(TaskError::Lapin("x".to_string()).status_code(), 500);
    assert_eq!(TaskError::Reqwest("x".to_string()).status_code(), 500);
}

#[test]
fn task_error_messages() {
    assert_eq!(
        TaskError::Throttle(1500).to_message(),
        "Worker at full capacity, wait 1500ms"
    );
    assert_eq!(
        TaskError::Lapin("channel gone".to_string()).to_message(),
        "Lapin error: channel gone"
    );
    assert_eq!(
        TaskError::Reqwest("dns failure".to_string()).to_message(),
        "Reqwest error during webhook: dns failure"
    );
}

#[test]
fn single_shot_reply_is_published_iff_properties_present() {
    // The reply is planned iff both reply_to and correlation_id came with
    // the delivery.
    let outcome: Result<CheckEmailOutput, TaskError> = Ok(output_with(Reachable::Safe));
    let plan = plan_single_shot_reply(
        &Some("reply-queue".to_string()),
        &Some("corr-7".to_string()),
        &outcome,
    );
    let publish = plan.unwrap();
    assert_eq!(publish.routing_key, "reply-queue");
    assert_eq!(publish.correlation_id, "corr-7");
    assert_eq!(publish.content_type, "application/json");
    let body = String::from_utf8(publish.payload).unwrap();
    assert!(body.starts_with(r#"{"Ok":["#));

    let missing = plan_single_shot_reply(&None, &Some("corr-7".to_string()), &outcome);
    assert_eq!(missing.unwrap_err(), "Missing reply_to or correlation_id");
    let missing = plan_single_shot_reply(&Some("reply-queue".to_string()), &None, &outcome);
    assert!(missing.is_err());
}

#[test]
fn single_shot_reply_wraps_output_bytes() {
    let out = output_with(Reachable::Safe);
    let expected_json = out.to_json();
    let reply = SingleShotReply::from_worker_output(&Ok(out));
    match reply {
        SingleShotReply::Success(bytes) => {
            assert_eq!(bytes, expected_json.into_bytes());
        },
        SingleShotReply::Failure(_) => panic!("expected the Ok-shaped reply"),
    }
}

#[test]
fn single_shot_reply_error_envelope() {
    let reply =
        SingleShotReply::from_worker_output(&Err(TaskError::Throttle(2000)));
    assert_eq!(
        reply.to_json(),
        r#"{"Err":["Worker at full capacity, wait 2000ms",429]}"#
    );
}

#[test]
fn bulk_task_writes_one_matching_row() {
    // Exactly one row, with the task's job_id and the worker's backend name.
    let task = bulk_task();
    let out = output_with(Reachable::Safe);
    let row = build_task_result_row("backend-test", &task, &Ok(out));
    assert_eq!(row.job_id, 42);
    assert_eq!(row.backend_name, "backend-test");
    assert_eq!(row.payload, task.to_json());
    assert!(row.result.is_some());
    assert!(row.error.is_none());

    let row = build_task_result_row(
        "backend-test",
        &task,
        &Err(TaskError::Lapin("gone".to_string())),
    );
    assert_eq!(row.job_id, 42);
    assert!(row.result.is_none());
    assert_eq!(row.error.unwrap(), "Lapin error: gone");
}

#[test]
fn task_json_shape() {
    let task = bulk_task();
    let json = task.to_json();
    assert!(json.starts_with(r#"{"input":{"to_email":"someone@example.org","#));
    assert!(json.ends_with(r#","job_id":42,"webhook":null}"#));
    assert!(json.contains(r#""smtp_port":25,"smtp_timeout":30000"#));
    assert!(json.contains(r#""retries":1,"smtp_security":"Opportunistic""#));
}

#[test]
fn webhook_fires_iff_configured() {
    let out = output_with(Reachable::Safe);
    assert!(plan_webhook(&bulk_task(), &out).is_none());

    let mut task = bulk_task();
    task.webhook = Some(TaskWebhook { on_each_email: None });
    assert!(plan_webhook(&task, &out).is_none());

    task.webhook = Some(TaskWebhook {
        on_each_email: Some(Webhook {
            url: "https://example.org/hook".to_string(),
            extra: Some(r#"{"team":"qa"}"#.to_string()),
        }),
    });
    let post = plan_webhook(&task, &out).unwrap();
    assert_eq!(post.url, "https://example.org/hook");
    assert!(post.body.starts_with(r#"{"result":{"input":"#));
    assert!(post.body.ends_with(r#","extra":{"team":"qa"}}"#));
}
