//! The canonical JSON representation of the output record.
//!
//! The top level always holds the keys `input`, `is_reachable`, `misc`,
//! `mx`, `smtp`, `syntax`, `debug`, in that order. Each of `misc`, `mx` and
//! `smtp` serializes its detail record directly on success, and as
//! `{"error":{"type":...,"message":...}}` on failure; for SMTP errors whose
//! text matches the banner dictionary, a `description` tag follows the
//! error object.

use vstd::prelude::*;
use vstd::string::*;

use crate::json::{
    bool_rep, chars_to_string, json_string, json_string_array, push_bool, push_dec_u64,
    push_json_string, push_json_string_array, push_str_chars,
};
use crate::input::{
    CheckEmailInput, CheckEmailInputProxy, GmailVerifMethod, HotmailB2BVerifMethod,
    HotmailB2CVerifMethod, SmtpSecurity, YahooVerifMethod,
};
use crate::output::{
    CheckEmailOutput, DebugDetails, MiscDetails, MiscError, MxDetails, MxError, Reachable,
    SmtpDetails, SmtpError, SmtpErrorDesc, VerifMethod, SyntaxDetails, smtp_error_message,
    spec_description,
};
use crate::worker::{CheckEmailTask, TaskWebhook, Webhook};

verus! {

/// The JSON value of a verdict (lower-case, quoted).
pub open spec fn reachable_json(r: Reachable) -> Seq<char> {
    match r {
        Reachable::Safe => "\"safe\""@,
        Reachable::Risky => "\"risky\""@,
        Reachable::Invalid => "\"invalid\""@,
        Reachable::Unknown => "\"unknown\""@,
    }
}

/// The JSON value of the backend that carried out the SMTP leg.
pub open spec fn verif_method_json(m: VerifMethod) -> Seq<char> {
    match m {
        VerifMethod::Api => "\"Api\""@,
        VerifMethod::Headless => "\"Headless\""@,
        VerifMethod::Smtp => "\"Smtp\""@,
    }
}

/// An optional string: `null` when absent.
pub open spec fn opt_string_json(o: Option<String>) -> Seq<char> {
    match o {
        Some(s) => json_string(s@),
        None => "null"@,
    }
}

/// An optional boolean: `null` when absent.
pub open spec fn opt_bool_json(o: Option<bool>) -> Seq<char> {
    match o {
        Some(b) => bool_rep(b),
        None => "null"@,
    }
}

/// The detail record of the auxiliary signals.
pub open spec fn misc_ok_json(m: MiscDetails) -> Seq<char> {
    "{\"is_disposable\":"@ + bool_rep(m.is_disposable) + ",\"is_role_account\":"@ + bool_rep(
        m.is_role_account,
    ) + ",\"gravatar_url\":"@ + opt_string_json(m.gravatar_url) + ",\"haveibeenpwned\":"@
        + opt_bool_json(m.haveibeenpwned) + "}"@
}

/// The error object of a failed auxiliary probe.
pub open spec fn misc_err_json(e: MiscError) -> Seq<char> {
    match e {
        MiscError::Http(m) => "{\"error\":{\"type\":\"Http\",\"message\":"@ + json_string(m@)
            + "}}"@,
        MiscError::Auth(m) => "{\"error\":{\"type\":\"Auth\",\"message\":"@ + json_string(m@)
            + "}}"@,
    }
}

/// The `misc` field: the details on success, the error object on failure.
pub open spec fn misc_field_json(r: Result<MiscDetails, MiscError>) -> Seq<char> {
    match r {
        Ok(m) => misc_ok_json(m),
        Err(e) => misc_err_json(e),
    }
}

/// The detail record of the MX lookup.
pub open spec fn mx_ok_json(m: MxDetails) -> Seq<char> {
    "{\"accepts_mail\":"@ + bool_rep(m.records.len() > 0) + ",\"records\":"@ + json_string_array(
        m.records.deep_view(),
    ) + "}"@
}

/// The error object of a failed MX lookup.
pub open spec fn mx_err_json(e: MxError) -> Seq<char> {
    match e {
        MxError::NoRecord(m) => "{\"error\":{\"type\":\"NoRecord\",\"message\":"@ + json_string(
            m@,
        ) + "}}"@,
        MxError::LookupTimeout(m) => "{\"error\":{\"type\":\"LookupTimeout\",\"message\":"@
            + json_string(m@) + "}}"@,
        MxError::Transport(m) => "{\"error\":{\"type\":\"Transport\",\"message\":"@ + json_string(
            m@,
        ) + "}}"@,
    }
}

/// The `mx` field: the details on success, the error object on failure.
pub open spec fn mx_field_json(r: Result<MxDetails, MxError>) -> Seq<char> {
    match r {
        Ok(m) => mx_ok_json(m),
        Err(e) => mx_err_json(e),
    }
}

/// The detail record of the SMTP dialog.
pub open spec fn smtp_ok_json(d: SmtpDetails) -> Seq<char> {
    "{\"can_connect_smtp\":"@ + bool_rep(d.can_connect_smtp) + ",\"has_full_inbox\":"@ + bool_rep(
        d.has_full_inbox,
    ) + ",\"is_catch_all\":"@ + bool_rep(d.is_catch_all) + ",\"is_deliverable\":"@ + bool_rep(
        d.is_deliverable,
    ) + ",\"is_disabled\":"@ + bool_rep(d.is_disabled) + "}"@
}

/// The serialized type tag of an SMTP stage failure.
pub open spec fn smtp_error_type_json(e: SmtpError) -> Seq<char> {
    match e {
        SmtpError::SmtpError(_) => "\"SmtpError\""@,
        SmtpError::Connect(_) => "\"Connect\""@,
        SmtpError::Tls(_) => "\"Tls\""@,
        SmtpError::Timeout(_) => "\"Timeout\""@,
    }
}

/// The description tag that follows the error object, when the error text
/// matched the banner dictionary; empty otherwise.
pub open spec fn description_json(d: Option<SmtpErrorDesc>) -> Seq<char> {
    match d {
        Some(SmtpErrorDesc::IpBlacklisted) => ",\"description\":\"IpBlacklisted\""@,
        Some(SmtpErrorDesc::NeedsRDNS) => ",\"description\":\"NeedsRDNS\""@,
        None => Seq::empty(),
    }
}

/// The error object of a failed SMTP dialog, with its optional description
/// tag.
pub open spec fn smtp_err_json(e: SmtpError) -> Seq<char> {
    "{\"error\":{\"type\":"@ + smtp_error_type_json(e) + ",\"message\":"@ + json_string(
        smtp_error_message(e),
    ) + "}"@ + description_json(spec_description(e)) + "}"@
}

/// The `smtp` field: the details on success, the error object on failure.
pub open spec fn smtp_field_json(r: Result<SmtpDetails, SmtpError>) -> Seq<char> {
    match r {
        Ok(d) => smtp_ok_json(d),
        Err(e) => smtp_err_json(e),
    }
}

/// The `syntax` field.
pub open spec fn syntax_json(s: SyntaxDetails) -> Seq<char> {
    "{\"address\":"@ + json_string(s.address@) + ",\"domain\":"@ + json_string(s.domain@)
        + ",\"is_valid_syntax\":"@ + bool_rep(s.is_valid_syntax) + ",\"username\":"@ + json_string(
        s.username@,
    ) + ",\"suggestion\":"@ + opt_string_json(s.suggestion) + "}"@
}

/// The `debug` field.
pub open spec fn debug_json(d: DebugDetails) -> Seq<char> {
    "{\"backend_name\":"@ + json_string(d.backend_name@) + ",\"start_time\":"@ + crate::json::dec_rep(
        d.start_time as int,
    ) + ",\"end_time\":"@ + crate::json::dec_rep(d.end_time as int) + ",\"duration\":"@
        + crate::json::dec_rep(d.duration as int) + ",\"smtp\":{\"verif_method\":"@
        + verif_method_json(d.smtp.verif_method) + "}}"@
}

/// The canonical JSON of a whole output record: the keys `input`,
/// `is_reachable`, `misc`, `mx`, `smtp`, `syntax`, `debug`, in that order.
pub open spec fn json_of_output(o: CheckEmailOutput) -> Seq<char> {
    "{\"input\":"@ + json_string(o.input@) + ",\"is_reachable\":"@ + reachable_json(o.is_reachable)
        + ",\"misc\":"@ + misc_field_json(o.misc) + ",\"mx\":"@ + mx_field_json(o.mx)
        + ",\"smtp\":"@ + smtp_field_json(o.smtp) + ",\"syntax\":"@ + syntax_json(o.syntax)
        + ",\"debug\":"@ + debug_json(o.debug) + "}"@
}

/// Appends the JSON of an optional string.
fn push_opt_string(out: &mut Vec<char>, o: &Option<String>)
    ensures
        final(out)@ == old(out)@ + opt_string_json(*o),
{
    match o {
        Some(s) => push_json_string(out, s.as_str()),
        None => push_str_chars(out, "null"),
    }
}

/// Appends the JSON of an optional boolean.
fn push_opt_bool(out: &mut Vec<char>, o: &Option<bool>)
    ensures
        final(out)@ == old(out)@ + opt_bool_json(*o),
{
    match o {
        Some(b) => push_bool(out, *b),
        None => push_str_chars(out, "null"),
    }
}

/// Appends the `misc` field value.
fn push_misc_field(out: &mut Vec<char>, r: &Result<MiscDetails, MiscError>)
    ensures
        final(out)@ == old(out)@ + misc_field_json(*r),
{
    match r {
        Ok(m) => {
            push_str_chars(out, "{\"is_disposable\":");
            push_bool(out, m.is_disposable);
            push_str_chars(out, ",\"is_role_account\":");
            push_bool(out, m.is_role_account);
            push_str_chars(out, ",\"gravatar_url\":");
            push_opt_string(out, &m.gravatar_url);
            push_str_chars(out, ",\"haveibeenpwned\":");
            push_opt_bool(out, &m.haveibeenpwned);
            push_str_chars(out, "}");
            assert(out@ =~= old(out)@ + misc_field_json(*r));
        },
        Err(e) => {
            match e {
                MiscError::Http(m) => {
                    push_str_chars(out, "{\"error\":{\"type\":\"Http\",\"message\":");
                    push_json_string(out, m.as_str());
                    push_str_chars(out, "}}");
                },
                MiscError::Auth(m) => {
                    push_str_chars(out, "{\"error\":{\"type\":\"Auth\",\"message\":");
                    push_json_string(out, m.as_str());
                    push_str_chars(out, "}}");
                },
            }
            assert(out@ =~= old(out)@ + misc_field_json(*r));
        },
    }
}

/// Appends the `mx` field value.
fn push_mx_field(out: &mut Vec<char>, r: &Result<MxDetails, MxError>)
    ensures
        final(out)@ == old(out)@ + mx_field_json(*r),
{
    match r {
        Ok(m) => {
            push_str_chars(out, "{\"accepts_mail\":");
            push_bool(out, m.records.len() > 0);
            push_str_chars(out, ",\"records\":");
            push_json_string_array(out, &m.records);
            push_str_chars(out, "}");
            assert(out@ =~= old(out)@ + mx_field_json(*r));
        },
        Err(e) => {
            match e {
                MxError::NoRecord(m) => {
                    push_str_chars(out, "{\"error\":{\"type\":\"NoRecord\",\"message\":");
                    push_json_string(out, m.as_str());
                    push_str_chars(out, "}}");
                },
                MxError::LookupTimeout(m) => {
                    push_str_chars(out, "{\"error\":{\"type\":\"LookupTimeout\",\"message\":");
                    push_json_string(out, m.as_str());
                    push_str_chars(out, "}}");
                },
                MxError::Transport(m) => {
                    push_str_chars(out, "{\"error\":{\"type\":\"Transport\",\"message\":");
                    push_json_string(out, m.as_str());
                    push_str_chars(out, "}}");
                },
            }
            assert(out@ =~= old(out)@ + mx_field_json(*r));
        },
    }
}

/// Appends the `smtp` field value.
#[verifier::rlimit(100)]
#[verifier::spinoff_prover]
fn push_smtp_field(out: &mut Vec<char>, r: &Result<SmtpDetails, SmtpError>)
    ensures
        final(out)@ == old(out)@ + smtp_field_json(*r),
{
    match r {
        Ok(d) => {
            push_str_chars(out, "{\"can_connect_smtp\":");
            push_bool(out, d.can_connect_smtp);
            push_str_chars(out, ",\"has_full_inbox\":");
            push_bool(out, d.has_full_inbox);
            push_str_chars(out, ",\"is_catch_all\":");
            push_bool(out, d.is_catch_all);
            push_str_chars(out, ",\"is_deliverable\":");
            push_bool(out, d.is_deliverable);
            push_str_chars(out, ",\"is_disabled\":");
            push_bool(out, d.is_disabled);
            push_str_chars(out, "}");
            assert(out@ =~= old(out)@ + smtp_field_json(*r));
        },
        Err(e) => {
            push_str_chars(out, "{\"error\":{\"type\":");
            match e {
                SmtpError::SmtpError(_) => push_str_chars(out, "\"SmtpError\""),
                SmtpError::Connect(_) => push_str_chars(out, "\"Connect\""),
                SmtpError::Tls(_) => push_str_chars(out, "\"Tls\""),
                SmtpError::Timeout(_) => push_str_chars(out, "\"Timeout\""),
            }
            push_str_chars(out, ",\"message\":");
            let msg = e.message_chars();
            let msg_string = chars_to_string(&msg);
            push_json_string(out, msg_string.as_str());
            push_str_chars(out, "}");
            match e.get_description() {
                Some(SmtpErrorDesc::IpBlacklisted) => {
                    push_str_chars(out, ",\"description\":\"IpBlacklisted\"");
                },
                Some(SmtpErrorDesc::NeedsRDNS) => {
                    push_str_chars(out, ",\"description\":\"NeedsRDNS\"");
                },
                None => {},
            }
            push_str_chars(out, "}");
            assert(out@ =~= old(out)@ + smtp_field_json(*r));
        },
    }
}

/// Appends the `syntax` field value.
fn push_syntax_field(out: &mut Vec<char>, s: &SyntaxDetails)
    ensures
        final(out)@ == old(out)@ + syntax_json(*s),
{
    push_str_chars(out, "{\"address\":");
    push_json_string(out, s.address.as_str());
    push_str_chars(out, ",\"domain\":");
    push_json_string(out, s.domain.as_str());
    push_str_chars(out, ",\"is_valid_syntax\":");
    push_bool(out, s.is_valid_syntax);
    push_str_chars(out, ",\"username\":");
    push_json_string(out, s.username.as_str());
    push_str_chars(out, ",\"suggestion\":");
    push_opt_string(out, &s.suggestion);
    push_str_chars(out, "}");
    assert(out@ =~= old(out)@ + syntax_json(*s));
}

/// Appends the `debug` field value.
fn push_debug_field(out: &mut Vec<char>, d: &DebugDetails)
    ensures
        final(out)@ == old(out)@ + debug_json(*d),
{
    push_str_chars(out, "{\"backend_name\":");
    push_json_string(out, d.backend_name.as_str());
    push_str_chars(out, ",\"start_time\":");
    push_dec_u64(out, d.start_time);
    push_str_chars(out, ",\"end_time\":");
    push_dec_u64(out, d.end_time);
    push_str_chars(out, ",\"duration\":");
    push_dec_u64(out, d.duration);
    push_str_chars(out, ",\"smtp\":{\"verif_method\":");
    match d.smtp.verif_method {
        VerifMethod::Api => push_str_chars(out, "\"Api\""),
        VerifMethod::Headless => push_str_chars(out, "\"Headless\""),
        VerifMethod::Smtp => push_str_chars(out, "\"Smtp\""),
    }
    push_str_chars(out, "}}");
    assert(out@ =~= old(out)@ + debug_json(*d));
}

impl CheckEmailOutput {
    /// Appends the canonical JSON of this record.
    #[verifier::rlimit(100)]
    #[verifier::spinoff_prover]
    pub fn push_json(&self, out: &mut Vec<char>)
        ensures
            final(out)@ == old(out)@ + json_of_output(*self),
    {
        let ghost base = out@;
        push_str_chars(out, "{\"input\":");
        push_json_string(out, self.input.as_str());
        let ghost acc1 = base + "{\"input\":"@ + json_string(self.input@);
        assert(out@ =~= acc1);
        push_str_chars(out, ",\"is_reachable\":");
        match self.is_reachable {
            Reachable::Safe => push_str_chars(out, "\"safe\""),
            Reachable::Risky => push_str_chars(out, "\"risky\""),
            Reachable::Invalid => push_str_chars(out, "\"invalid\""),
            Reachable::Unknown => push_str_chars(out, "\"unknown\""),
        }
        let ghost acc2 = acc1 + ",\"is_reachable\":"@ + reachable_json(self.is_reachable);
        assert(out@ =~= acc2);
        push_str_chars(out, ",\"misc\":");
        push_misc_field(out, &self.misc);
        let ghost acc3 = acc2 + ",\"misc\":"@ + misc_field_json(self.misc);
        assert(out@ =~= acc3);
        push_str_chars(out, ",\"mx\":");
        push_mx_field(out, &self.mx);
        let ghost acc4 = acc3 + ",\"mx\":"@ + mx_field_json(self.mx);
        assert(out@ =~= acc4);
        push_str_chars(out, ",\"smtp\":");
        push_smtp_field(out, &self.smtp);
        let ghost acc5 = acc4 + ",\"smtp\":"@ + smtp_field_json(self.smtp);
        assert(out@ =~= acc5);
        push_str_chars(out, ",\"syntax\":");
        push_syntax_field(out, &self.syntax);
        let ghost acc6 = acc5 + ",\"syntax\":"@ + syntax_json(self.syntax);
        assert(out@ =~= acc6);
        push_str_chars(out, ",\"debug\":");
        push_debug_field(out, &self.debug);
        push_str_chars(out, "}");
        let ghost acc7 = acc6 + ",\"debug\":"@ + debug_json(self.debug) + "}"@;
        assert(out@ =~= acc7);
        assert(out@ =~= old(out)@ + json_of_output(*self));
    }

    /// The canonical JSON of this record.
    pub fn to_json(&self) -> (r: String)
        ensures
            r@ == json_of_output(*self),
    {
        let mut out: Vec<char> = Vec::new();
        self.push_json(&mut out);
        let r = chars_to_string(&out);
        proof {
            assert(r@ =~= json_of_output(*self));
        }
        r
    }
}

/// An optional number of milliseconds: `null` when absent.
pub open spec fn opt_ms_json(o: Option<u64>) -> Seq<char> {
    match o {
        Some(n) => crate::json::dec_rep(n as int),
        None => "null"@,
    }
}

/// The JSON value of a TLS policy (the wire names of the four policies).
pub open spec fn smtp_security_json(s: SmtpSecurity) -> Seq<char> {
    match s {
        SmtpSecurity::NoTls => "\"None\""@,
        SmtpSecurity::Opportunistic => "\"Opportunistic\""@,
        SmtpSecurity::Required => "\"Required\""@,
        SmtpSecurity::Wrapper => "\"Wrapper\""@,
    }
}

/// The JSON value of a Yahoo verification method.
pub open spec fn yahoo_method_json(m: YahooVerifMethod) -> Seq<char> {
    match m {
        YahooVerifMethod::Api => "\"Api\""@,
        YahooVerifMethod::Headless => "\"Headless\""@,
        YahooVerifMethod::Smtp => "\"Smtp\""@,
    }
}

/// The JSON value of a Gmail verification method.
pub open spec fn gmail_method_json(m: GmailVerifMethod) -> Seq<char> {
    match m {
        GmailVerifMethod::Api => "\"Api\""@,
        GmailVerifMethod::Smtp => "\"Smtp\""@,
    }
}

/// The JSON value of a Hotmail B2B verification method.
pub open spec fn hotmailb2b_method_json(m: HotmailB2BVerifMethod) -> Seq<char> {
    match m {
        HotmailB2BVerifMethod::Smtp => "\"Smtp\""@,
    }
}

/// The JSON value of a Hotmail B2C verification method.
pub open spec fn hotmailb2c_method_json(m: HotmailB2CVerifMethod) -> Seq<char> {
    match m {
        HotmailB2CVerifMethod::Headless => "\"Headless\""@,
        HotmailB2CVerifMethod::Smtp => "\"Smtp\""@,
    }
}

/// The JSON of a proxy description.
pub open spec fn proxy_json(p: CheckEmailInputProxy) -> Seq<char> {
    "{\"host\":"@ + json_string(p.host@) + ",\"port\":"@ + crate::json::dec_rep(p.port as int)
        + ",\"username\":"@ + opt_string_json(p.username) + ",\"password\":"@
        + opt_string_json(p.password) + "}"@
}

/// An optional proxy: `null` when absent.
pub open spec fn opt_proxy_json(p: Option<CheckEmailInputProxy>) -> Seq<char> {
    match p {
        Some(p) => proxy_json(p),
        None => "null"@,
    }
}

/// The addressing fields and transport knobs of an input record.
pub open spec fn input_head_json(i: CheckEmailInput) -> Seq<char> {
    "{\"to_email\":"@ + json_string(i.to_email@) + ",\"from_email\":"@ + json_string(
        i.from_email@,
    ) + ",\"hello_name\":"@ + json_string(i.hello_name@) + ",\"proxy\":"@ + opt_proxy_json(
        i.proxy,
    ) + ",\"smtp_port\":"@ + crate::json::dec_rep(i.smtp_port as int) + ",\"smtp_timeout\":"@
        + opt_ms_json(i.smtp_timeout)
}

/// The per-provider methods and remaining knobs of an input record.
pub open spec fn input_tail_json(i: CheckEmailInput) -> Seq<char> {
    ",\"yahoo_verif_method\":"@ + yahoo_method_json(i.yahoo_verif_method)
        + ",\"gmail_verif_method\":"@ + gmail_method_json(i.gmail_verif_method)
        + ",\"hotmailb2b_verif_method\":"@ + hotmailb2b_method_json(i.hotmailb2b_verif_method)
        + ",\"hotmailb2c_verif_method\":"@ + hotmailb2c_method_json(i.hotmailb2c_verif_method)
        + ",\"check_gravatar\":"@ + bool_rep(i.check_gravatar) + ",\"haveibeenpwned_api_key\":"@
        + opt_string_json(i.haveibeenpwned_api_key) + ",\"retries\":"@ + crate::json::dec_rep(
        i.retries as int,
    ) + ",\"smtp_security\":"@ + smtp_security_json(i.smtp_security) + "}"@
}

/// The canonical JSON of an input record, fields in declaration order.
pub open spec fn json_of_input(i: CheckEmailInput) -> Seq<char> {
    input_head_json(i) + input_tail_json(i)
}

/// The JSON of a webhook: its URL and the opaque `extra` document.
pub open spec fn webhook_json(w: Webhook) -> Seq<char> {
    "{\"url\":"@ + json_string(w.url@) + ",\"extra\":"@ + (match w.extra {
        Some(e) => e@,
        None => "null"@,
    }) + "}"@
}

/// The `webhook` field of a task: `null` when absent.
pub open spec fn task_webhook_json(w: Option<TaskWebhook>) -> Seq<char> {
    match w {
        Some(tw) => "{\"on_each_email\":"@ + (match tw.on_each_email {
            Some(wh) => webhook_json(wh),
            None => "null"@,
        }) + "}"@,
        None => "null"@,
    }
}

/// The `job_id` field of a task: `null` for a single-shot task.
pub open spec fn job_id_json(j: Option<i32>) -> Seq<char> {
    match j {
        Some(n) => crate::json::dec_rep_signed(n as int),
        None => "null"@,
    }
}

/// The canonical JSON of a whole task record: the keys `input`, `job_id`,
/// `webhook`, in that order.
pub open spec fn json_of_task(t: CheckEmailTask) -> Seq<char> {
    "{\"input\":"@ + json_of_input(t.input) + ",\"job_id\":"@ + job_id_json(t.job_id)
        + ",\"webhook\":"@ + task_webhook_json(t.webhook) + "}"@
}

/// Appends an optional number of milliseconds.
fn push_opt_ms(out: &mut Vec<char>, o: &Option<u64>)
    ensures
        final(out)@ == old(out)@ + opt_ms_json(*o),
{
    match o {
        Some(n) => push_dec_u64(out, *n),
        None => push_str_chars(out, "null"),
    }
}

/// Appends the JSON of an optional proxy description.
fn push_opt_proxy(out: &mut Vec<char>, p: &Option<CheckEmailInputProxy>)
    ensures
        final(out)@ == old(out)@ + opt_proxy_json(*p),
{
    match p {
        Some(pr) => {
            push_str_chars(out, "{\"host\":");
            push_json_string(out, pr.host.as_str());
            push_str_chars(out, ",\"port\":");
            push_dec_u64(out, pr.port as u64);
            push_str_chars(out, ",\"username\":");
            push_opt_string(out, &pr.username);
            push_str_chars(out, ",\"password\":");
            push_opt_string(out, &pr.password);
            push_str_chars(out, "}");
            assert(out@ =~= old(out)@ + proxy_json(*pr));
        },
        None => push_str_chars(out, "null"),
    }
}

/// Appends the JSON value of a Yahoo verification method.
fn push_yahoo_method(out: &mut Vec<char>, m: YahooVerifMethod)
    ensures
        final(out)@ == old(out)@ + yahoo_method_json(m),
{
    match m {
        YahooVerifMethod::Api => push_str_chars(out, "\"Api\""),
        YahooVerifMethod::Headless => push_str_chars(out, "\"Headless\""),
        YahooVerifMethod::Smtp => push_str_chars(out, "\"Smtp\""),
    }
}

/// Appends the JSON value of a Gmail verification method.
fn push_gmail_method(out: &mut Vec<char>, m: GmailVerifMethod)
    ensures
        final(out)@ == old(out)@ + gmail_method_json(m),
{
    match m {
        GmailVerifMethod::Api => push_str_chars(out, "\"Api\""),
        GmailVerifMethod::Smtp => push_str_chars(out, "\"Smtp\""),
    }
}

/// Appends the JSON value of a Hotmail B2B verification method.
fn push_hotmailb2b_method(out: &mut Vec<char>, m: HotmailB2BVerifMethod)
    ensures
        final(out)@ == old(out)@ + hotmailb2b_method_json(m),
{
    match m {
        HotmailB2BVerifMethod::Smtp => push_str_chars(out, "\"Smtp\""),
    }
}

/// Appends the JSON value of a Hotmail B2C verification method.
fn push_hotmailb2c_method(out: &mut Vec<char>, m: HotmailB2CVerifMethod)
    ensures
        final(out)@ == old(out)@ + hotmailb2c_method_json(m),
{
    match m {
        HotmailB2CVerifMethod::Headless => push_str_chars(out, "\"Headless\""),
        HotmailB2CVerifMethod::Smtp => push_str_chars(out, "\"Smtp\""),
    }
}

/// Appends the JSON value of a TLS policy.
fn push_smtp_security(out: &mut Vec<char>, m: SmtpSecurity)
    ensures
        final(out)@ == old(out)@ + smtp_security_json(m),
{
    match m {
        SmtpSecurity::NoTls => push_str_chars(out, "\"None\""),
        SmtpSecurity::Opportunistic => push_str_chars(out, "\"Opportunistic\""),
        SmtpSecurity::Required => push_str_chars(out, "\"Required\""),
        SmtpSecurity::Wrapper => push_str_chars(out, "\"Wrapper\""),
    }
}

impl CheckEmailInput {
    /// Appends the addressing fields and transport knobs.
    #[verifier::rlimit(100)]
    #[verifier::spinoff_prover]
    fn push_head_json(&self, out: &mut Vec<char>)
        ensures
            final(out)@ == old(out)@ + input_head_json(*self),
    {
        let ghost base = out@;
        push_str_chars(out, "{\"to_email\":");
        push_json_string(out, self.to_email.as_str());
        push_str_chars(out, ",\"from_email\":");
        push_json_string(out, self.from_email.as_str());
        let ghost acc1 = base + "{\"to_email\":"@ + json_string(self.to_email@)
            + ",\"from_email\":"@ + json_string(self.from_email@);
        assert(out@ =~= acc1);
        push_str_chars(out, ",\"hello_name\":");
        push_json_string(out, self.hello_name.as_str());
        push_str_chars(out, ",\"proxy\":");
        push_opt_proxy(out, &self.proxy);
        let ghost acc2 = acc1 + ",\"hello_name\":"@ + json_string(self.hello_name@)
            + ",\"proxy\":"@ + opt_proxy_json(self.proxy);
        assert(out@ =~= acc2);
        push_str_chars(out, ",\"smtp_port\":");
        push_dec_u64(out, self.smtp_port as u64);
        push_str_chars(out, ",\"smtp_timeout\":");
        push_opt_ms(out, &self.smtp_timeout);
        assert(out@ =~= acc2 + ",\"smtp_port\":"@ + crate::json::dec_rep(self.smtp_port as int)
            + ",\"smtp_timeout\":"@ + opt_ms_json(self.smtp_timeout));
        assert(out@ =~= old(out)@ + input_head_json(*self));
    }

    /// Appends the per-provider methods and remaining knobs.
    #[verifier::rlimit(100)]
    #[verifier::spinoff_prover]
    fn push_tail_json(&self, out: &mut Vec<char>)
        ensures
            final(out)@ == old(out)@ + input_tail_json(*self),
    {
        let ghost base = out@;
        push_str_chars(out, ",\"yahoo_verif_method\":");
        push_yahoo_method(out, self.yahoo_verif_method);
        push_str_chars(out, ",\"gmail_verif_method\":");
        push_gmail_method(out, self.gmail_verif_method);
        let ghost acc1 = base + ",\"yahoo_verif_method\":"@ + yahoo_method_json(
            self.yahoo_verif_method,
        ) + ",\"gmail_verif_method\":"@ + gmail_method_json(self.gmail_verif_method);
        assert(out@ =~= acc1);
        push_str_chars(out, ",\"hotmailb2b_verif_method\":");
        push_hotmailb2b_method(out, self.hotmailb2b_verif_method);
        push_str_chars(out, ",\"hotmailb2c_verif_method\":");
        push_hotmailb2c_method(out, self.hotmailb2c_verif_method);
        let ghost acc2 = acc1 + ",\"hotmailb2b_verif_method\":"@ + hotmailb2b_method_json(
            self.hotmailb2b_verif_method,
        ) + ",\"hotmailb2c_verif_method\":"@ + hotmailb2c_method_json(
            self.hotmailb2c_verif_method,
        );
        assert(out@ =~= acc2);
        push_str_chars(out, ",\"check_gravatar\":");
        push_bool(out, self.check_gravatar);
        push_str_chars(out, ",\"haveibeenpwned_api_key\":");
        push_opt_string(out, &self.haveibeenpwned_api_key);
        let ghost acc3 = acc2 + ",\"check_gravatar\":"@ + bool_rep(self.check_gravatar)
            + ",\"haveibeenpwned_api_key\":"@ + opt_string_json(self.haveibeenpwned_api_key);
        assert(out@ =~= acc3);
        push_str_chars(out, ",\"retries\":");
        push_dec_u64(out, self.retries as u64);
        push_str_chars(out, ",\"smtp_security\":");
        push_smtp_security(out, self.smtp_security);
        push_str_chars(out, "}");
        assert(out@ =~= acc3 + ",\"retries\":"@ + crate::json::dec_rep(self.retries as int)
            + ",\"smtp_security\":"@ + smtp_security_json(self.smtp_security) + "}"@);
        assert(out@ =~= old(out)@ + input_tail_json(*self));
    }

    /// Appends the canonical JSON of this record.
    pub fn push_json(&self, out: &mut Vec<char>)
        ensures
            final(out)@ == old(out)@ + json_of_input(*self),
    {
        self.push_head_json(out);
        self.push_tail_json(out);
        assert(out@ =~= old(out)@ + json_of_input(*self));
    }
}

impl CheckEmailTask {
    /// Appends the canonical JSON of this record.
    #[verifier::rlimit(100)]
    #[verifier::spinoff_prover]
    pub fn push_json(&self, out: &mut Vec<char>)
        ensures
            final(out)@ == old(out)@ + json_of_task(*self),
    {
        let ghost base = out@;
        push_str_chars(out, "{\"input\":");
        self.input.push_json(out);
        push_str_chars(out, ",\"job_id\":");
        match &self.job_id {
            Some(n) => crate::json::push_dec_i64(out, *n as i64),
            None => push_str_chars(out, "null"),
        }
        let ghost acc1 = base + "{\"input\":"@ + json_of_input(self.input) + ",\"job_id\":"@
            + job_id_json(self.job_id);
        assert(out@ =~= acc1);
        push_str_chars(out, ",\"webhook\":");
        match &self.webhook {
            Some(tw) => {
                push_str_chars(out, "{\"on_each_email\":");
                match &tw.on_each_email {
                    Some(wh) => {
                        push_str_chars(out, "{\"url\":");
                        push_json_string(out, wh.url.as_str());
                        push_str_chars(out, ",\"extra\":");
                        match &wh.extra {
                            Some(e) => push_str_chars(out, e.as_str()),
                            None => push_str_chars(out, "null"),
                        }
                        push_str_chars(out, "}");
                    },
                    None => push_str_chars(out, "null"),
                }
                push_str_chars(out, "}");
            },
            None => push_str_chars(out, "null"),
        }
        push_str_chars(out, "}");
        assert(out@ =~= acc1 + ",\"webhook\":"@ + task_webhook_json(self.webhook) + "}"@);
        assert(out@ =~= old(out)@ + json_of_task(*self));
    }

    /// The canonical JSON of this record.
    pub fn to_json(&self) -> (r: String)
        ensures
            r@ == json_of_task(*self),
    {
        let mut out: Vec<char> = Vec::new();
        self.push_json(&mut out);
        let r = chars_to_string(&out);
        proof {
            assert(r@ =~= json_of_task(*self));
        }
        r
    }
}

} // verus!
