use reacher::mx::classify_mx;
use reacher::output::{Category, Code, Detail, MxError, Response, Severity};
use reacher::smtp::{classify_rcpt_reply, should_retry, smtp_details_from_probe, RcptOutcome};

fn reply(severity: Severity, line: &str) -> Response {
    Response::new(
        Code { severity, category: Category::MailSystem, detail: Detail::Zero },
        vec![line.to_string()],
    )
}

#[test]
fn empty_mx_answer_is_no_record_not_empty_success() {
    let r = classify_mx(vec![]);
    assert!(matches!(r, Err(MxError::NoRecord(_))));
}

#[test]
fn mx_answer_comes_out_sorted_by_preference() {
    let answer = vec![
        (20u16, "mx-backup.example.org".to_string()),
        (5u16, "mx-primary.example.org".to_string()),
        (10u16, "mx-secondary.example.org".to_string()),
    ];
    let details = classify_mx(answer).unwrap();
    assert_eq!(
        details.records,
        vec![
            "mx-primary.example.org".to_string(),
            "mx-secondary.example.org".to_string(),
            "mx-backup.example.org".to_string(),
        ]
    );
}

#[test]
fn rcpt_replies_classify_by_code_and_text() {
    assert_eq!(
        classify_rcpt_reply(&reply(Severity::PositiveCompletion, "2.1.5 OK")),
        RcptOutcome::Deliverable
    );
    assert_eq!(
        classify_rcpt_reply(&reply(Severity::TransientNegativeCompletion, "mailbox is full")),
        RcptOutcome::InboxFull
    );
    assert_eq!(
        classify_rcpt_reply(&reply(Severity::TransientNegativeCompletion, "greylisted")),
        RcptOutcome::TransientRetry
    );
    assert_eq!(
        classify_rcpt_reply(&reply(
            Severity::PermanentNegativeCompletion,
            "5.1.1 no such user",
        )),
        RcptOutcome::Disabled
    );
    assert_eq!(
        classify_rcpt_reply(&reply(Severity::PermanentNegativeCompletion, "quota exceeded")),
        RcptOutcome::InboxFull
    );
    assert_eq!(
        classify_rcpt_reply(&reply(Severity::PermanentNegativeCompletion, "relay denied")),
        RcptOutcome::Rejected
    );
}

#[test]
fn rcpt_details_follow_the_outcome() {
    let accepted = reply(Severity::PositiveCompletion, "2.1.5 OK");
    let d = smtp_details_from_probe(&accepted, &None).unwrap();
    assert!(d.is_deliverable && d.can_connect_smtp && !d.is_catch_all);

    // A random local part accepted on the same exchange marks a catch-all.
    let probe = Some(reply(Severity::PositiveCompletion, "2.1.5 OK"));
    let d = smtp_details_from_probe(&accepted, &probe).unwrap();
    assert!(d.is_deliverable && d.is_catch_all);

    let rejected_probe = Some(reply(Severity::PermanentNegativeCompletion, "no"));
    let d = smtp_details_from_probe(&accepted, &rejected_probe).unwrap();
    assert!(d.is_deliverable && !d.is_catch_all);

    let disabled = reply(Severity::PermanentNegativeCompletion, "account disabled");
    let d = smtp_details_from_probe(&disabled, &None).unwrap();
    assert!(d.is_disabled && !d.is_deliverable);

    let transient = reply(Severity::TransientNegativeCompletion, "try again later");
    let e = smtp_details_from_probe(&transient, &None).unwrap_err();
    assert!(matches!(e, reacher::output::SmtpError::SmtpError(_)));
}

#[test]
fn transient_is_retried_up_to_the_budget() {
    assert!(should_retry(&RcptOutcome::TransientRetry, 0, 1));
    assert!(!should_retry(&RcptOutcome::TransientRetry, 1, 1));
    assert!(should_retry(&RcptOutcome::TransientRetry, 1, 2));
    assert!(!should_retry(&RcptOutcome::Rejected, 0, 1));
    assert!(!should_retry(&RcptOutcome::Deliverable, 0, 1));
}
