//! The result record of an email verification, and the typed errors of each
//! stage.

use vstd::prelude::*;
use vstd::string::*;

use crate::json::push_str_chars;
use crate::strutil::{contains_substr, seq_contains_sub};

verus! {

/// An enum to describe how confident we are that the recipient address is
/// real.
#[derive(Debug, Clone, Copy, PartialEq, Eq, Structural)]
pub enum Reachable {
    /// The email is safe to send.
    Safe,
    /// The email address appears to exist, but has quality issues (catch-all
    /// domain, disposable provider, role-based account, or a full inbox)
    /// that may result in low engagement or a bounce.
    Risky,
    /// Emails that don't exist or are syntactically incorrect.
    Invalid,
    /// We're unable to get a valid response from the recipient's email
    /// server.
    Unknown,
}

/// The first digit of an SMTP reply code.
#[derive(Debug, Clone, Copy, PartialEq, Eq, Structural)]
pub enum Severity {
    /// 2xx: the requested action was completed.
    PositiveCompletion,
    /// 3xx: the command was accepted, more input is expected.
    PositiveIntermediate,
    /// 4xx: the action was not taken, but may succeed when tried again.
    TransientNegativeCompletion,
    /// 5xx: the action was not taken and must not be repeated as sent.
    PermanentNegativeCompletion,
}

/// The second digit of an SMTP reply code.
#[derive(Debug, Clone, Copy, PartialEq, Eq, Structural)]
pub enum Category {
    /// x0x: syntax.
    Syntax,
    /// x1x: information.
    Information,
    /// x2x: connections.
    Connections,
    /// x3x: unspecified.
    Unspecified3,
    /// x4x: unspecified.
    Unspecified4,
    /// x5x: mail system.
    MailSystem,
}

/// The third digit of an SMTP reply code.
#[derive(Debug, Clone, Copy, PartialEq, Eq, Structural)]
pub enum Detail {
    Zero,
    One,
    Two,
    Three,
    Four,
    Five,
    Six,
    Seven,
    Eight,
    Nine,
}

/// A three-digit SMTP reply code.
#[derive(Debug, Clone, Copy, PartialEq, Eq, Structural)]
pub struct Code {
    pub severity: Severity,
    pub category: Category,
    pub detail: Detail,
}

/// An SMTP reply: a code and the message lines that came with it.
#[derive(Debug, Clone)]
pub struct Response {
    pub code: Code,
    pub message: Vec<String>,
}

impl Response {
    pub fn new(code: Code, message: Vec<String>) -> (r: Response)
        ensures
            r.code == code,
            r.message == message,
    {
        Response { code, message }
    }

    /// A field-for-field copy of this reply.
    pub fn duplicate(&self) -> (r: Self)
        ensures
            r.code == self.code,
            r.message@ == self.message@,
    {
        let mut message: Vec<String> = Vec::new();
        let n = self.message.len();
        let mut i: usize = 0;
        while i < n
            invariant
                n == self.message@.len(),
                0 <= i <= n,
                message@.len() == i,
                forall|k: int| 0 <= k < i ==> message@[k] == self.message@[k],
            decreases n - i,
        {
            message.push(self.message[i].clone());
            i += 1;
        }
        proof {
            assert(message@ =~= self.message@);
        }
        Response { code: self.code, message }
    }
}

/// Structured parse of the address under verification.
#[derive(Debug, Clone)]
pub struct SyntaxDetails {
    /// The normalized address, empty when the parse failed.
    pub address: String,
    /// The part after the `@` sign, empty when the parse failed.
    pub domain: String,
    /// Whether the address parses.
    pub is_valid_syntax: bool,
    /// The part before the `@` sign, empty when the parse failed.
    pub username: String,
    /// A suggested correction of the address, when one is known.
    pub suggestion: Option<String>,
}

impl Default for SyntaxDetails {
    fn default() -> (r: Self)
        ensures
            r.address@ == Seq::<char>::empty(),
            r.domain@ == Seq::<char>::empty(),
            !r.is_valid_syntax,
            r.username@ == Seq::<char>::empty(),
            r.suggestion is None,
    {
        SyntaxDetails {
            address: String::new(),
            domain: String::new(),
            is_valid_syntax: false,
            username: String::new(),
            suggestion: None,
        }
    }
}

/// Details of the MX lookup: the exchanges of the domain, sorted by
/// preference.
#[derive(Debug, Clone)]
pub struct MxDetails {
    pub records: Vec<String>,
}

impl Default for MxDetails {
    fn default() -> (r: Self)
        ensures
            r.records@ == Seq::<String>::empty(),
    {
        MxDetails { records: Vec::new() }
    }
}

/// The kinds of MX lookup failure.
#[derive(Debug, Clone)]
pub enum MxError {
    /// The domain has no MX record.
    NoRecord(String),
    /// The DNS query did not answer within its budget.
    LookupTimeout(String),
    /// The DNS transport failed.
    Transport(String),
}

/// Details of the SMTP dialog with the best exchange.
#[derive(Debug, Clone, Copy, PartialEq, Eq, Structural)]
pub struct SmtpDetails {
    /// Whether a connection to the exchange could be opened.
    pub can_connect_smtp: bool,
    /// Whether the mailbox reported itself full.
    pub has_full_inbox: bool,
    /// Whether the domain accepts mail for any local part.
    pub is_catch_all: bool,
    /// Whether `RCPT TO` was accepted for the address.
    pub is_deliverable: bool,
    /// Whether the account is disabled.
    pub is_disabled: bool,
}

impl Default for SmtpDetails {
    fn default() -> (r: Self)
        ensures
            r == (SmtpDetails {
                can_connect_smtp: false,
                has_full_inbox: false,
                is_catch_all: false,
                is_deliverable: false,
                is_disabled: false,
            }),
    {
        SmtpDetails {
            can_connect_smtp: false,
            has_full_inbox: false,
            is_catch_all: false,
            is_deliverable: false,
            is_disabled: false,
        }
    }
}

/// The kinds of SMTP stage failure.
#[derive(Debug, Clone)]
pub enum SmtpError {
    /// An error reply from the SMTP server.
    SmtpError(Response),
    /// The TCP connection (direct or through the proxy) could not be
    /// established.
    Connect(String),
    /// The TLS layer failed.
    Tls(String),
    /// The SMTP dialog exceeded its time budget.
    Timeout(String),
}

/// An enumerated annotation derived from matching the SMTP error text
/// against a fixed dictionary of server banners.
#[derive(Debug, Clone, Copy, PartialEq, Eq, Structural)]
pub enum SmtpErrorDesc {
    /// The sending IP sits on a blacklist.
    IpBlacklisted,
    /// The server requires a reverse DNS entry for the sending host.
    NeedsRDNS,
}

/// The first message line of an SMTP reply, or a fixed fallback when the
/// reply carried none.
pub open spec fn first_line_or_default(r: Response) -> Seq<char> {
    if r.message.len() == 0 {
        "undetailed error during SMTP transaction"@
    } else {
        r.message[0]@
    }
}

/// The human-readable message of an SMTP stage failure: error replies are
/// prefixed by their severity, and replies whose code is not an error are
/// reported as a client-side fault.
pub open spec fn smtp_error_message(e: SmtpError) -> Seq<char> {
    match e {
        SmtpError::SmtpError(r) => match r.code.severity {
            Severity::TransientNegativeCompletion => "transient: "@ + first_line_or_default(r),
            Severity::PermanentNegativeCompletion => "permanent: "@ + first_line_or_default(r),
            _ => "client: Unknown error code"@,
        },
        SmtpError::Connect(m) => m@,
        SmtpError::Tls(m) => m@,
        SmtpError::Timeout(m) => m@,
    }
}

/// The description tag of an SMTP error: the first entry of the dictionary
/// whose banner substring occurs in the error message, if any.
pub open spec fn spec_description(e: SmtpError) -> Option<SmtpErrorDesc> {
    if seq_contains_sub(smtp_error_message(e), "blacklist"@) {
        Some(SmtpErrorDesc::IpBlacklisted)
    } else if seq_contains_sub(smtp_error_message(e), "cannot find your reverse hostname"@) {
        Some(SmtpErrorDesc::NeedsRDNS)
    } else {
        None
    }
}

impl SmtpError {
    /// The characters of this error's human-readable message.
    pub fn message_chars(&self) -> (v: Vec<char>)
        ensures
            v@ == smtp_error_message(*self),
    {
        let mut out: Vec<char> = Vec::new();
        match self {
            SmtpError::SmtpError(r) => match r.code.severity {
                Severity::TransientNegativeCompletion => {
                    push_str_chars(&mut out, "transient: ");
                    if r.message.len() == 0 {
                        push_str_chars(&mut out, "undetailed error during SMTP transaction");
                    } else {
                        push_str_chars(&mut out, r.message[0].as_str());
                    }
                },
                Severity::PermanentNegativeCompletion => {
                    push_str_chars(&mut out, "permanent: ");
                    if r.message.len() == 0 {
                        push_str_chars(&mut out, "undetailed error during SMTP transaction");
                    } else {
                        push_str_chars(&mut out, r.message[0].as_str());
                    }
                },
                _ => {
                    push_str_chars(&mut out, "client: Unknown error code");
                },
            },
            SmtpError::Connect(m) => {
                push_str_chars(&mut out, m.as_str());
            },
            SmtpError::Tls(m) => {
                push_str_chars(&mut out, m.as_str());
            },
            SmtpError::Timeout(m) => {
                push_str_chars(&mut out, m.as_str());
            },
        }
        out
    }

    /// The description tag matched against the fixed dictionary of server
    /// banners, when one matches.
    pub fn get_description(&self) -> (d: Option<SmtpErrorDesc>)
        ensures
            d == spec_description(*self),
    {
        let msg = self.message_chars();
        if contains_substr(&msg, "blacklist") {
            Some(SmtpErrorDesc::IpBlacklisted)
        } else if contains_substr(&msg, "cannot find your reverse hostname") {
            Some(SmtpErrorDesc::NeedsRDNS)
        } else {
            None
        }
    }
}

/// The kinds of auxiliary-probe failure.
#[derive(Debug, Clone)]
pub enum MiscError {
    /// An HTTP call of the gravatar or breach probe failed.
    Http(String),
    /// The breach API rejected the configured credentials.
    Auth(String),
}

/// Auxiliary signals about the address.
#[derive(Debug, Clone)]
pub struct MiscDetails {
    /// Whether the domain belongs to a disposable-address provider.
    pub is_disposable: bool,
    /// Whether the local part is a role-based prefix.
    pub is_role_account: bool,
    /// The gravatar image URL of the address, when one exists.
    pub gravatar_url: Option<String>,
    /// Whether the address appears in the HaveIBeenPwned corpus, when the
    /// probe ran.
    pub haveibeenpwned: Option<bool>,
}

impl Default for MiscDetails {
    fn default() -> (r: Self)
        ensures
            !r.is_disposable,
            !r.is_role_account,
            r.gravatar_url is None,
            r.haveibeenpwned is None,
    {
        MiscDetails {
            is_disposable: false,
            is_role_account: false,
            gravatar_url: None,
            haveibeenpwned: None,
        }
    }
}

/// Which backend carried out the SMTP leg of the verification.
#[derive(Debug, Clone, Copy, PartialEq, Eq, Structural)]
pub enum VerifMethod {
    /// A provider-specific HTTP API.
    Api,
    /// A WebDriver-driven password-recovery flow.
    Headless,
    /// The SMTP dialog itself.
    Smtp,
}

/// Details about the email verification, used for debugging.
#[derive(Debug, Clone, Copy, PartialEq, Eq, Structural)]
pub struct SmtpDebug {
    /// The backend that carried out the SMTP leg.
    pub verif_method: VerifMethod,
}

impl Default for SmtpDebug {
    fn default() -> (r: Self)
        ensures
            r.verif_method == VerifMethod::Smtp,
    {
        SmtpDebug { verif_method: VerifMethod::Smtp }
    }
}

/// Details about the email verification, used for debugging.
#[derive(Debug, Clone)]
pub struct DebugDetails {
    /// Identifier for the service that ran the verification.
    pub backend_name: String,
    /// When the verification started, in whole milliseconds since the Unix
    /// epoch.
    pub start_time: u64,
    /// When the verification ended, in whole milliseconds since the Unix
    /// epoch.
    pub end_time: u64,
    /// How long the verification took, in whole milliseconds.
    pub duration: u64,
    /// Details about the SMTP leg.
    pub smtp: SmtpDebug,
}

impl Default for DebugDetails {
    fn default() -> (r: Self)
        ensures
            r.backend_name@ == "backend-dev"@,
            r.start_time == r.end_time,
            r.duration == 0,
            r.smtp.verif_method == VerifMethod::Smtp,
    {
        let now = crate::clock::current_time_ms();
        DebugDetails {
            backend_name: String::from_str("backend-dev"),
            start_time: now,
            end_time: now,
            duration: 0,
            smtp: SmtpDebug::default(),
        }
    }
}

/// The assembled result of one email verification.
#[derive(Debug)]
pub struct CheckEmailOutput {
    /// The address exactly as the caller gave it.
    pub input: String,
    pub is_reachable: Reachable,
    /// Auxiliary signals about the address.
    pub misc: Result<MiscDetails, MiscError>,
    /// Details about the MX hosts of the domain.
    pub mx: Result<MxDetails, MxError>,
    /// Details about the SMTP dialog.
    pub smtp: Result<SmtpDetails, SmtpError>,
    /// Details about the address itself.
    pub syntax: SyntaxDetails,
    /// Details used for debugging.
    pub debug: DebugDetails,
}

impl Default for CheckEmailOutput {
    fn default() -> (r: Self)
        ensures
            r.input@ == Seq::<char>::empty(),
            r.is_reachable == Reachable::Unknown,
            r.misc matches Ok(m) && !m.is_disposable && !m.is_role_account && m.gravatar_url
                is None && m.haveibeenpwned is None,
            r.syntax.address@ == Seq::<char>::empty(),
            r.syntax.domain@ == Seq::<char>::empty(),
            r.syntax.username@ == Seq::<char>::empty(),
            r.syntax.suggestion is None,
            r.debug.backend_name@ == "backend-dev"@,
            r.debug.start_time == r.debug.end_time,
            r.debug.smtp.verif_method == VerifMethod::Smtp,
            r.mx matches Ok(m) && m.records@ == Seq::<String>::empty(),
            r.smtp matches Ok(s) && s == (SmtpDetails {
                can_connect_smtp: false,
                has_full_inbox: false,
                is_catch_all: false,
                is_deliverable: false,
                is_disabled: false,
            }),
            !r.syntax.is_valid_syntax,
            r.debug.duration == 0,
    {
        CheckEmailOutput {
            input: String::default(),
            is_reachable: Reachable::Unknown,
            misc: Ok(MiscDetails::default()),
            mx: Ok(MxDetails::default()),
            smtp: Ok(SmtpDetails::default()),
            syntax: SyntaxDetails::default(),
            debug: DebugDetails::default(),
        }
    }
}

} // verus!
