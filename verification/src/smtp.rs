//! The SMTP reply classifier: how the reply to `RCPT TO` maps onto the
//! detail record — deliverable, inbox-full, disabled, transient or
//! rejected — and when a transient reply earns a retry.

use vstd::prelude::*;

use crate::json::push_str_chars;
use crate::output::{Response, SmtpDetails, SmtpError, Severity, first_line_or_default};
use crate::strutil::{contains_substr, seq_contains_sub};

verus! {

/// What one final `RCPT TO` reply means for the recipient.
#[derive(Debug, Clone, Copy, PartialEq, Eq, Structural)]
pub enum RcptOutcome {
    /// The recipient was accepted.
    Deliverable,
    /// The mailbox exists but reports itself full.
    InboxFull,
    /// The account is disabled.
    Disabled,
    /// A transient refusal: the step may succeed when tried again.
    TransientRetry,
    /// A definitive refusal.
    Rejected,
}

/// A reply text that reports a full mailbox.
pub open spec fn is_full_inbox_text(line: Seq<char>) -> bool {
    seq_contains_sub(line, "full"@) || seq_contains_sub(line, "quota"@) || seq_contains_sub(
        line,
        "insufficient system storage"@,
    )
}

/// A reply text of the 5.1.1 family, or one that reports a disabled
/// account.
pub open spec fn is_disabled_text(line: Seq<char>) -> bool {
    seq_contains_sub(line, "5.1.1"@) || seq_contains_sub(line, "disabled"@) || seq_contains_sub(
        line,
        "suspended"@,
    )
}

/// The classification rule: a 2xx reply accepts the recipient; a 4xx reply
/// is a full inbox when its text says so and transient otherwise; a 5xx
/// reply is a disabled account or a full inbox when its text says so and a
/// definitive rejection otherwise; a 3xx reply is no final answer and
/// counts as transient.
pub open spec fn spec_classify_rcpt(r: Response) -> RcptOutcome {
    match r.code.severity {
        Severity::PositiveCompletion => RcptOutcome::Deliverable,
        Severity::PositiveIntermediate => RcptOutcome::TransientRetry,
        Severity::TransientNegativeCompletion => if is_full_inbox_text(first_line_or_default(r)) {
            RcptOutcome::InboxFull
        } else {
            RcptOutcome::TransientRetry
        },
        Severity::PermanentNegativeCompletion => if is_disabled_text(first_line_or_default(r)) {
            RcptOutcome::Disabled
        } else if is_full_inbox_text(first_line_or_default(r)) {
            RcptOutcome::InboxFull
        } else {
            RcptOutcome::Rejected
        },
    }
}

/// The characters of the reply's first line, or of the fixed fallback.
fn first_line_chars(r: &Response) -> (v: Vec<char>)
    ensures
        v@ == first_line_or_default(*r),
{
    let mut out: Vec<char> = Vec::new();
    if r.message.len() == 0 {
        push_str_chars(&mut out, "undetailed error during SMTP transaction");
    } else {
        push_str_chars(&mut out, r.message[0].as_str());
    }
    out
}

/// Classifies one final `RCPT TO` reply, by the classification rule.
pub fn classify_rcpt_reply(r: &Response) -> (o: RcptOutcome)
    ensures
        o == spec_classify_rcpt(*r),
{
    match r.code.severity {
        Severity::PositiveCompletion => RcptOutcome::Deliverable,
        Severity::PositiveIntermediate => RcptOutcome::TransientRetry,
        Severity::TransientNegativeCompletion => {
            let line = first_line_chars(r);
            if contains_substr(&line, "full") || contains_substr(&line, "quota")
                || contains_substr(&line, "insufficient system storage") {
                RcptOutcome::InboxFull
            } else {
                RcptOutcome::TransientRetry
            }
        },
        Severity::PermanentNegativeCompletion => {
            let line = first_line_chars(r);
            if contains_substr(&line, "5.1.1") || contains_substr(&line, "disabled")
                || contains_substr(&line, "suspended") {
                RcptOutcome::Disabled
            } else if contains_substr(&line, "full") || contains_substr(&line, "quota")
                || contains_substr(&line, "insufficient system storage") {
                RcptOutcome::InboxFull
            } else {
                RcptOutcome::Rejected
            }
        },
    }
}

/// Whether the catch-all probe — `RCPT TO` for a random local part on the
/// same exchange — accepted the recipient.
pub open spec fn probe_accepts(p: Option<Response>) -> bool {
    match p {
        Some(r) => spec_classify_rcpt(r) == RcptOutcome::Deliverable,
        None => false,
    }
}

/// The SMTP detail record earned by the final `RCPT TO` reply and the
/// optional catch-all probe. A transient reply that stands after the
/// retries surfaces as the reply's own error, which grades Unknown; every
/// other reply yields a detail record over an open connection.
pub fn smtp_details_from_probe(rcpt: &Response, random_probe: &Option<Response>) -> (r: Result<
    SmtpDetails,
    SmtpError,
>)
    ensures
        spec_classify_rcpt(*rcpt) == RcptOutcome::Deliverable ==> r == Ok::<SmtpDetails, SmtpError>(
            SmtpDetails {
                can_connect_smtp: true,
                has_full_inbox: false,
                is_catch_all: probe_accepts(*random_probe),
                is_deliverable: true,
                is_disabled: false,
            },
        ),
        spec_classify_rcpt(*rcpt) == RcptOutcome::InboxFull ==> r == Ok::<SmtpDetails, SmtpError>(
            SmtpDetails {
                can_connect_smtp: true,
                has_full_inbox: true,
                is_catch_all: false,
                is_deliverable: true,
                is_disabled: false,
            },
        ),
        spec_classify_rcpt(*rcpt) == RcptOutcome::Disabled ==> r == Ok::<SmtpDetails, SmtpError>(
            SmtpDetails {
                can_connect_smtp: true,
                has_full_inbox: false,
                is_catch_all: false,
                is_deliverable: false,
                is_disabled: true,
            },
        ),
        spec_classify_rcpt(*rcpt) == RcptOutcome::Rejected ==> r == Ok::<SmtpDetails, SmtpError>(
            SmtpDetails {
                can_connect_smtp: true,
                has_full_inbox: false,
                is_catch_all: false,
                is_deliverable: false,
                is_disabled: false,
            },
        ),
        spec_classify_rcpt(*rcpt) == RcptOutcome::TransientRetry ==> (r matches Err(e)
            && e matches SmtpError::SmtpError(resp) && resp.code == rcpt.code && resp.message@
            == rcpt.message@),
{
    match classify_rcpt_reply(rcpt) {
        RcptOutcome::Deliverable => {
            let is_catch_all = match random_probe {
                Some(p) => matches!(classify_rcpt_reply(p), RcptOutcome::Deliverable),
                None => false,
            };
            Ok(
                SmtpDetails {
                    can_connect_smtp: true,
                    has_full_inbox: false,
                    is_catch_all,
                    is_deliverable: true,
                    is_disabled: false,
                },
            )
        },
        RcptOutcome::InboxFull => Ok(
            SmtpDetails {
                can_connect_smtp: true,
                has_full_inbox: true,
                is_catch_all: false,
                is_deliverable: true,
                is_disabled: false,
            },
        ),
        RcptOutcome::Disabled => Ok(
            SmtpDetails {
                can_connect_smtp: true,
                has_full_inbox: false,
                is_catch_all: false,
                is_deliverable: false,
                is_disabled: true,
            },
        ),
        RcptOutcome::Rejected => Ok(
            SmtpDetails {
                can_connect_smtp: true,
                has_full_inbox: false,
                is_catch_all: false,
                is_deliverable: false,
                is_disabled: false,
            },
        ),
        RcptOutcome::TransientRetry => Err(SmtpError::SmtpError(rcpt.duplicate())),
    }
}

/// Whether to repeat the `RCPT TO` step: only a transient outcome is
/// repeated, and at most `retries` additional times beyond the first
/// attempt.
pub fn should_retry(outcome: &RcptOutcome, retries_used: usize, retries: usize) -> (b: bool)
    ensures
        b == (*outcome == RcptOutcome::TransientRetry && retries_used < retries),
{
    matches!(outcome, RcptOutcome::TransientRetry) && retries_used < retries
}

} // verus!
