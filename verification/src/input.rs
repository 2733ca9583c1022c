//! The input record of an email verification: the target address and every
//! knob of the pipeline, frozen after construction.

use vstd::prelude::*;
use vstd::string::*;

verus! {

broadcast use vstd::string::group_string_axioms;

/// Perform the email verification via a specified SOCKS5 proxy. The usage of
/// a proxy is optional.
#[derive(Debug, Clone)]
pub struct CheckEmailInputProxy {
    /// Use the specified SOCKS5 proxy host to perform email verification.
    pub host: String,
    /// Use the specified SOCKS5 proxy port to perform email verification.
    pub port: u16,
    /// Username to pass to proxy authentication.
    pub username: Option<String>,
    /// Password to pass to proxy authentication.
    pub password: Option<String>,
}

impl CheckEmailInputProxy {
    /// A field-for-field copy of this proxy description.
    pub fn duplicate(&self) -> (r: Self)
        ensures
            r == *self,
    {
        CheckEmailInputProxy {
            host: self.host.clone(),
            port: self.port,
            username: match &self.username {
                Some(u) => Some(u.clone()),
                None => None,
            },
            password: match &self.password {
                Some(p) => Some(p.clone()),
                None => None,
            },
        }
    }
}

impl Default for CheckEmailInputProxy {
    fn default() -> (r: Self)
        ensures
            r.host@ == Seq::<char>::empty(),
            r.port == 0,
            r.username is None,
            r.password is None,
    {
        CheckEmailInputProxy {
            host: String::new(),
            port: 0,
            username: None,
            password: None,
        }
    }
}

/// Define how to apply TLS to an SMTP client connection.
#[derive(Debug, Clone, Copy, PartialEq, Eq, Structural)]
pub enum SmtpSecurity {
    /// Insecure connection only, never TLS (for testing purposes).
    NoTls,
    /// Start with insecure connection and use `STARTTLS` when available.
    Opportunistic,
    /// Start with insecure connection and require `STARTTLS`.
    Required,
    /// Use TLS wrapped connection.
    Wrapper,
}

impl Default for SmtpSecurity {
    fn default() -> (r: Self)
        ensures
            r == SmtpSecurity::Opportunistic,
    {
        Self::Opportunistic
    }
}

/// Select how to verify Yahoo emails.
#[derive(Debug, Clone, Copy, PartialEq, Eq, Structural)]
pub enum YahooVerifMethod {
    /// Use Yahoo's API to check if an email exists.
    Api,
    /// Use Yahoo's password recovery page, driven over a WebDriver-compatible
    /// endpoint, to check if an email exists.
    Headless,
    /// Use Yahoo's SMTP servers to check if an email exists.
    Smtp,
}

impl Default for YahooVerifMethod {
    fn default() -> (r: Self)
        ensures
            r == YahooVerifMethod::Headless,
    {
        Self::Headless
    }
}

impl YahooVerifMethod {
    /// Parses the lower-case name of a method.
    pub fn from_str(s: &str) -> (r: Result<Self, String>)
        ensures
            s@ == "api"@ ==> r == Ok::<Self, String>(YahooVerifMethod::Api),
            s@ == "headless"@ ==> r == Ok::<Self, String>(YahooVerifMethod::Headless),
            s@ == "smtp"@ ==> r == Ok::<Self, String>(YahooVerifMethod::Smtp),
            s@ != "api"@ && s@ != "headless"@ && s@ != "smtp"@ ==> (r matches Err(e)
                && e@ == "Unknown yahoo verify method: "@ + s@),
    {
        proof {
            reveal_strlit("api");
            reveal_strlit("headless");
            reveal_strlit("smtp");
            assert("api"@.len() == 3);
            assert("headless"@.len() == 8);
            assert("smtp"@.len() == 4);
        }
        if crate::strutil::str_eq(s, "api") {
            Ok(Self::Api)
        } else if crate::strutil::str_eq(s, "headless") {
            Ok(Self::Headless)
        } else if crate::strutil::str_eq(s, "smtp") {
            Ok(Self::Smtp)
        } else {
            let mut e = String::from_str("Unknown yahoo verify method: ");
            e.append(s);
            Err(e)
        }
    }
}

/// Select how to verify Gmail emails.
#[derive(Debug, Clone, Copy, PartialEq, Eq, Structural)]
pub enum GmailVerifMethod {
    /// Use Gmail's API to check if an email exists.
    Api,
    /// Use Gmail's SMTP servers to check if an email exists.
    Smtp,
}

impl Default for GmailVerifMethod {
    fn default() -> (r: Self)
        ensures
            r == GmailVerifMethod::Smtp,
    {
        Self::Smtp
    }
}

impl GmailVerifMethod {
    /// Parses the lower-case name of a method.
    pub fn from_str(s: &str) -> (r: Result<Self, String>)
        ensures
            s@ == "api"@ ==> r == Ok::<Self, String>(GmailVerifMethod::Api),
            s@ == "smtp"@ ==> r == Ok::<Self, String>(GmailVerifMethod::Smtp),
            s@ != "api"@ && s@ != "smtp"@ ==> (r matches Err(e) && e@
                == "Unknown gmail verify method: "@ + s@),
    {
        proof {
            reveal_strlit("api");
            reveal_strlit("smtp");
            assert("api"@.len() == 3);
            assert("smtp"@.len() == 4);
        }
        if crate::strutil::str_eq(s, "api") {
            Ok(Self::Api)
        } else if crate::strutil::str_eq(s, "smtp") {
            Ok(Self::Smtp)
        } else {
            let mut e = String::from_str("Unknown gmail verify method: ");
            e.append(s);
            Err(e)
        }
    }
}

/// Select how to verify Hotmail B2B emails.
#[derive(Debug, Clone, Copy, PartialEq, Eq, Structural)]
pub enum HotmailB2BVerifMethod {
    /// Use Hotmail's SMTP servers to check if an email exists.
    Smtp,
}

impl Default for HotmailB2BVerifMethod {
    fn default() -> (r: Self)
        ensures
            r == HotmailB2BVerifMethod::Smtp,
    {
        Self::Smtp
    }
}

impl HotmailB2BVerifMethod {
    /// Parses the lower-case name of a method.
    pub fn from_str(s: &str) -> (r: Result<Self, String>)
        ensures
            s@ == "smtp"@ ==> r == Ok::<Self, String>(HotmailB2BVerifMethod::Smtp),
            s@ != "smtp"@ ==> (r matches Err(e) && e@ == "Unknown hotmailb2b verify method: "@
                + s@),
    {
        if crate::strutil::str_eq(s, "smtp") {
            Ok(Self::Smtp)
        } else {
            let mut e = String::from_str("Unknown hotmailb2b verify method: ");
            e.append(s);
            Err(e)
        }
    }
}

/// Select how to verify Hotmail B2C emails.
#[derive(Debug, Clone, Copy, PartialEq, Eq, Structural)]
pub enum HotmailB2CVerifMethod {
    /// Use Hotmail's password recovery page, driven over a
    /// WebDriver-compatible endpoint, to check if an email exists.
    Headless,
    /// Use Hotmail's SMTP servers to check if an email exists.
    Smtp,
}

impl Default for HotmailB2CVerifMethod {
    fn default() -> (r: Self)
        ensures
            r == HotmailB2CVerifMethod::Headless,
    {
        Self::Headless
    }
}

impl HotmailB2CVerifMethod {
    /// Parses the lower-case name of a method.
    pub fn from_str(s: &str) -> (r: Result<Self, String>)
        ensures
            s@ == "headless"@ ==> r == Ok::<Self, String>(HotmailB2CVerifMethod::Headless),
            s@ == "smtp"@ ==> r == Ok::<Self, String>(HotmailB2CVerifMethod::Smtp),
            s@ != "headless"@ && s@ != "smtp"@ ==> (r matches Err(e) && e@
                == "Unknown hotmailb2c verify method: "@ + s@),
    {
        proof {
            reveal_strlit("headless");
            reveal_strlit("smtp");
            assert("headless"@.len() == 8);
            assert("smtp"@.len() == 4);
        }
        if crate::strutil::str_eq(s, "headless") {
            Ok(Self::Headless)
        } else if crate::strutil::str_eq(s, "smtp") {
            Ok(Self::Smtp)
        } else {
            let mut e = String::from_str("Unknown hotmailb2c verify method: ");
            e.append(s);
            Err(e)
        }
    }
}

/// The input argument into the main email-verification entry point.
#[derive(Debug, Clone)]
pub struct CheckEmailInput {
    /// The email to validate.
    pub to_email: String,
    /// Email to use in the `MAIL FROM:` SMTP command.
    ///
    /// Defaults to a stable sentinel address that is unused but owned.
    pub from_email: String,
    /// Name to use in the `EHLO:` SMTP command.
    ///
    /// Defaults to a stable FQDN (note: "localhost" is not a FQDN).
    pub hello_name: String,
    /// Perform the email verification via the specified SOCKS5 proxy. The
    /// usage of a proxy is optional.
    pub proxy: Option<CheckEmailInputProxy>,
    /// SMTP port to use for email validation. Generally, ports 25, 465, 587
    /// and 2525 are used.
    ///
    /// Defaults to 25.
    pub smtp_port: u16,
    /// Timeout for the SMTP verification step, in whole milliseconds. Set to
    /// None if you don't want to use a timeout.
    ///
    /// Defaults to 30s.
    pub smtp_timeout: Option<u64>,
    /// Select how to verify Yahoo emails.
    ///
    /// Defaults to Headless.
    pub yahoo_verif_method: YahooVerifMethod,
    /// Select how to verify Gmail addresses.
    ///
    /// Defaults to Smtp.
    pub gmail_verif_method: GmailVerifMethod,
    /// Select how to verify Hotmail/Outlook/Microsoft B2B addresses.
    ///
    /// Defaults to Smtp.
    pub hotmailb2b_verif_method: HotmailB2BVerifMethod,
    /// Select how to verify Hotmail/Outlook/Microsoft B2C addresses.
    ///
    /// Defaults to Headless.
    pub hotmailb2c_verif_method: HotmailB2CVerifMethod,
    /// Whether to check if a gravatar image exists for the given email.
    /// Adds a bit of latency to the verification process.
    ///
    /// Defaults to false.
    pub check_gravatar: bool,
    /// Check if the email address is present in the HaveIBeenPwned API.
    /// If the api_key is filled, the HaveIBeenPwned API is checked.
    pub haveibeenpwned_api_key: Option<String>,
    /// Number of retries of SMTP connections to do. Setting to 2 might
    /// bypass greylisting on some servers, but takes more time.
    ///
    /// Defaults to 1.
    pub retries: usize,
    /// How to apply TLS to an SMTP client connection.
    ///
    /// Defaults to Opportunistic.
    pub smtp_security: SmtpSecurity,
}

impl Default for CheckEmailInput {
    fn default() -> (r: Self)
        ensures
            r.to_email@ == Seq::<char>::empty(),
            r.from_email@ == "reacher.email@gmail.com"@,
            r.hello_name@ == "gmail.com"@,
            r.proxy is None,
            r.smtp_port == 25,
            r.smtp_timeout == Some(30000u64),
            r.yahoo_verif_method == YahooVerifMethod::Headless,
            r.gmail_verif_method == GmailVerifMethod::Smtp,
            r.hotmailb2b_verif_method == HotmailB2BVerifMethod::Smtp,
            r.hotmailb2c_verif_method == HotmailB2CVerifMethod::Headless,
            !r.check_gravatar,
            r.haveibeenpwned_api_key is None,
            r.retries == 1,
            r.smtp_security == SmtpSecurity::Opportunistic,
    {
        CheckEmailInput {
            to_email: String::new(),
            from_email: String::from_str("reacher.email@gmail.com"),
            hello_name: String::from_str("gmail.com"),
            proxy: None,
            smtp_port: 25,
            smtp_timeout: Some(30000),
            yahoo_verif_method: YahooVerifMethod::default(),
            gmail_verif_method: GmailVerifMethod::default(),
            hotmailb2b_verif_method: HotmailB2BVerifMethod::default(),
            hotmailb2c_verif_method: HotmailB2CVerifMethod::default(),
            check_gravatar: false,
            haveibeenpwned_api_key: None,
            retries: 1,
            smtp_security: SmtpSecurity::default(),
        }
    }
}

} // verus!
