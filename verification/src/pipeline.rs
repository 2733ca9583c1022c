//! The pipeline driver: assembles the output record from the stage signals
//! and stamps the debug timing. Every failure surface is encoded in the
//! output; nothing is thrown.
//!
//! The network legs (DNS, SMTP, HTTP probes) run outside this library and
//! hand their results in as plain values; the invalid-syntax short circuit
//! takes no network results at all.

use vstd::prelude::*;

use crate::clock::current_time_ms;
use crate::input::CheckEmailInput;
use crate::output::{
    CheckEmailOutput, DebugDetails, MiscDetails, MiscError, MxDetails, MxError, Reachable,
    SmtpDebug, SmtpDetails, SmtpError, SyntaxDetails, VerifMethod,
};
use crate::verdict::{calculate_reachable, spec_reachable};

verus! {

/// Stamps the end of a verification: the wall clock now, clamped so that
/// the end never lies before the start.
fn end_time_after(start_time: u64) -> (t: u64)
    ensures
        t >= start_time,
{
    let now = current_time_ms();
    if now < start_time {
        start_time
    } else {
        now
    }
}

/// Assembles the output record of one verification from the signals of the
/// stages, grades it by the fusion rule, and stamps the debug timing: the
/// input is echoed, the end time never lies before the start time, and the
/// duration is exactly their difference. The grade reads the syntax, MX and
/// SMTP outcomes alone: the auxiliary result is stored, never judged.
pub fn assemble_output(
    input: &CheckEmailInput,
    syntax: SyntaxDetails,
    misc: Result<MiscDetails, MiscError>,
    mx: Result<MxDetails, MxError>,
    smtp: Result<SmtpDetails, SmtpError>,
    backend_name: String,
    verif_method: VerifMethod,
    start_time: u64,
) -> (o: CheckEmailOutput)
    ensures
        o.input@ == input.to_email@,
        o.is_reachable == spec_reachable(syntax, mx, smtp),
        o.syntax == syntax,
        o.misc == misc,
        o.mx == mx,
        o.smtp == smtp,
        o.debug.backend_name == backend_name,
        o.debug.start_time == start_time,
        o.debug.end_time >= o.debug.start_time,
        o.debug.duration == o.debug.end_time - o.debug.start_time,
        o.debug.smtp.verif_method == verif_method,
{
    let is_reachable = calculate_reachable(&syntax, &mx, &smtp);
    let end_time = end_time_after(start_time);
    CheckEmailOutput {
        input: input.to_email.clone(),
        is_reachable,
        misc,
        mx,
        smtp,
        syntax,
        debug: DebugDetails {
            backend_name,
            start_time,
            end_time,
            duration: end_time - start_time,
            smtp: SmtpDebug { verif_method },
        },
    }
}

/// The short circuit of the pipeline: an input whose address fails to
/// parse is graded Invalid at once, with defaulted (empty, Ok-shaped) MX,
/// SMTP and auxiliary fields. It takes no network results: nothing was
/// looked up and nothing was probed.
pub fn invalid_syntax_output(
    input: &CheckEmailInput,
    syntax: SyntaxDetails,
    backend_name: String,
    start_time: u64,
) -> (o: CheckEmailOutput)
    requires
        !syntax.is_valid_syntax,
    ensures
        o.input@ == input.to_email@,
        o.is_reachable == Reachable::Invalid,
        o.syntax == syntax,
        o.misc matches Ok(m) && !m.is_disposable && !m.is_role_account && m.gravatar_url
            is None && m.haveibeenpwned is None,
        o.mx matches Ok(m) && m.records@ == Seq::<String>::empty(),
        o.smtp matches Ok(s) && s == (SmtpDetails {
            can_connect_smtp: false,
            has_full_inbox: false,
            is_catch_all: false,
            is_deliverable: false,
            is_disabled: false,
        }),
        o.debug.backend_name == backend_name,
        o.debug.start_time == start_time,
        o.debug.end_time >= o.debug.start_time,
        o.debug.duration == o.debug.end_time - o.debug.start_time,
{
    let end_time = end_time_after(start_time);
    CheckEmailOutput {
        input: input.to_email.clone(),
        is_reachable: Reachable::Invalid,
        misc: Ok(MiscDetails::default()),
        mx: Ok(MxDetails::default()),
        smtp: Ok(SmtpDetails::default()),
        syntax,
        debug: DebugDetails {
            backend_name,
            start_time,
            end_time,
            duration: end_time - start_time,
            smtp: SmtpDebug { verif_method: VerifMethod::Smtp },
        },
    }
}

} // verus!
