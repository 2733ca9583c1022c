//! The `POST /v0/check_email` request: its body, and how it combines with
//! the service configuration into an input record.

use vstd::prelude::*;
use vstd::string::*;

use crate::input::{
    CheckEmailInput, CheckEmailInputProxy, GmailVerifMethod, HotmailB2BVerifMethod,
    HotmailB2CVerifMethod, SmtpSecurity, YahooVerifMethod,
};

verus! {

/// The per-provider verification methods configured for the service.
#[derive(Debug, Clone, Copy, PartialEq, Eq, Structural)]
pub struct VerifMethodConfig {
    pub gmail: GmailVerifMethod,
    pub hotmailb2b: HotmailB2BVerifMethod,
    pub hotmailb2c: HotmailB2CVerifMethod,
    pub yahoo: YahooVerifMethod,
}

/// The slice of the service configuration that the request mapping reads.
#[derive(Debug, Clone)]
pub struct BackendConfig {
    /// Identifier for the service currently running.
    pub backend_name: String,
    /// Default envelope sender.
    pub from_email: String,
    /// Default `EHLO` name.
    pub hello_name: String,
    /// The per-provider verification methods.
    pub verif_method: VerifMethodConfig,
    /// Default proxy, when the service routes SMTP through one.
    pub proxy: Option<CheckEmailInputProxy>,
}

/// The request body for the `POST /v0/check_email` endpoint.
#[derive(Debug, Clone)]
pub struct CheckEmailRequest {
    pub to_email: String,
    pub from_email: Option<String>,
    pub hello_name: Option<String>,
    pub gmail_verif_method: Option<GmailVerifMethod>,
    pub hotmailb2b_verif_method: Option<String>,
    pub hotmailb2c_verif_method: Option<String>,
    pub yahoo_verif_method: Option<String>,
    pub proxy: Option<CheckEmailInputProxy>,
}

impl CheckEmailRequest {
    /// Combines this request with the service configuration into an input
    /// record: the request's address, sender, hello name and proxy where
    /// given, the configuration's defaults where not; the per-provider
    /// methods always come from the configuration; every other knob keeps
    /// its default.
    pub fn to_check_email_input(&self, config: &BackendConfig) -> (i: CheckEmailInput)
        ensures
            i.to_email == self.to_email,
            i.from_email == (match self.from_email {
                Some(f) => f,
                None => config.from_email,
            }),
            i.hello_name == (match self.hello_name {
                Some(h) => h,
                None => config.hello_name,
            }),
            i.gmail_verif_method == config.verif_method.gmail,
            i.hotmailb2b_verif_method == config.verif_method.hotmailb2b,
            i.hotmailb2c_verif_method == config.verif_method.hotmailb2c,
            i.yahoo_verif_method == config.verif_method.yahoo,
            i.proxy == (match self.proxy {
                Some(p) => Some(p),
                None => config.proxy,
            }),
            i.smtp_port == 25,
            i.smtp_timeout == Some(30000u64),
            !i.check_gravatar,
            i.haveibeenpwned_api_key is None,
            i.retries == 1,
            i.smtp_security == SmtpSecurity::Opportunistic,
    {
        let base = CheckEmailInput::default();
        CheckEmailInput {
            to_email: self.to_email.clone(),
            from_email: match &self.from_email {
                Some(f) => f.clone(),
                None => config.from_email.clone(),
            },
            hello_name: match &self.hello_name {
                Some(h) => h.clone(),
                None => config.hello_name.clone(),
            },
            gmail_verif_method: config.verif_method.gmail,
            hotmailb2b_verif_method: config.verif_method.hotmailb2b,
            hotmailb2c_verif_method: config.verif_method.hotmailb2c,
            yahoo_verif_method: config.verif_method.yahoo,
            proxy: match &self.proxy {
                Some(p) => Some(p.duplicate()),
                None => match &config.proxy {
                    Some(p) => Some(p.duplicate()),
                    None => None,
                },
            },
            ..base
        }
    }
}

/// An HTTP-level rejection of a request.
#[derive(Debug)]
pub struct HttpError {
    /// The status code of the response.
    pub code: u16,
    /// The body of the response.
    pub message: String,
}

/// Screens a `POST /v0/check_email` request: one without a `to_email` is
/// rejected with status 400 and nothing runs; any other request maps to
/// the input record that the pipeline will verify.
pub fn handle_check_email_request(req: &CheckEmailRequest, config: &BackendConfig) -> (r:
    Result<CheckEmailInput, HttpError>)
    ensures
        req.to_email@.len() == 0 ==> (r matches Err(e) && e.code == 400 && e.message@
            == "to_email field is required."@),
        req.to_email@.len() > 0 ==> (r matches Ok(i) && i.to_email == req.to_email
            && i.from_email == (match req.from_email {
            Some(f) => f,
            None => config.from_email,
        }) && i.hello_name == (match req.hello_name {
            Some(h) => h,
            None => config.hello_name,
        }) && i.gmail_verif_method == config.verif_method.gmail && i.hotmailb2b_verif_method
            == config.verif_method.hotmailb2b && i.hotmailb2c_verif_method
            == config.verif_method.hotmailb2c && i.yahoo_verif_method == config.verif_method.yahoo
            && i.proxy == (match req.proxy {
            Some(p) => Some(p),
            None => config.proxy,
        }) && i.smtp_port == 25 && i.smtp_timeout == Some(30000u64) && !i.check_gravatar
            && i.haveibeenpwned_api_key is None && i.retries == 1 && i.smtp_security
            == SmtpSecurity::Opportunistic),
{
    if req.to_email.as_str().unicode_len() == 0 {
        Err(
            HttpError {
                code: 400,
                message: String::from_str("to_email field is required."),
            },
        )
    } else {
        Ok(req.to_check_email_input(config))
    }
}

} // verus!
