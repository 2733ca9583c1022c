//! The provider dispatcher: derives the domain family of an address and
//! selects the verification backend for it. Selection is a pure function of
//! the family and the configured per-provider methods.

use vstd::prelude::*;

use crate::input::{
    CheckEmailInput, GmailVerifMethod, HotmailB2BVerifMethod, HotmailB2CVerifMethod,
    YahooVerifMethod,
};
use crate::output::VerifMethod;
use crate::strutil::{contains_substr, seq_contains_sub, str_eq};

verus! {

/// The domain families with a provider-specific backend.
#[derive(Debug, Clone, Copy, PartialEq, Eq, Structural)]
pub enum EmailProvider {
    Gmail,
    Yahoo,
    /// A Microsoft-hosted business domain.
    HotmailB2B,
    /// A Microsoft consumer domain.
    HotmailB2C,
    /// Every domain without a provider-specific backend.
    EverythingElse,
}

/// A Microsoft consumer domain.
pub open spec fn spec_is_microsoft_consumer(domain: Seq<char>) -> bool {
    domain == "hotmail.com"@ || domain == "outlook.com"@ || domain == "live.com"@ || domain
        == "msn.com"@
}

/// The family of a domain, given the best MX host of the domain: a mail
/// exchange under Microsoft's protection infrastructure marks the Microsoft
/// families, split into consumer and business by the domain itself; Gmail
/// and Yahoo are recognized by their domains.
pub open spec fn spec_provider_of(domain: Seq<char>, mx_host: Seq<char>) -> EmailProvider {
    if seq_contains_sub(mx_host, "protection.outlook.com"@) {
        if spec_is_microsoft_consumer(domain) {
            EmailProvider::HotmailB2C
        } else {
            EmailProvider::HotmailB2B
        }
    } else if domain == "gmail.com"@ || domain == "googlemail.com"@ {
        EmailProvider::Gmail
    } else if domain == "yahoo.com"@ || domain == "ymail.com"@ || domain == "rocketmail.com"@ {
        EmailProvider::Yahoo
    } else {
        EmailProvider::EverythingElse
    }
}

/// Derives the domain family from the domain and the best MX host.
pub fn provider_of(domain: &str, mx_host: &str) -> (p: EmailProvider)
    ensures
        p == spec_provider_of(domain@, mx_host@),
{
    let mut host_chars: Vec<char> = Vec::new();
    crate::json::push_str_chars(&mut host_chars, mx_host);
    if contains_substr(&host_chars, "protection.outlook.com") {
        if str_eq(domain, "hotmail.com") || str_eq(domain, "outlook.com") || str_eq(
            domain,
            "live.com",
        ) || str_eq(domain, "msn.com") {
            EmailProvider::HotmailB2C
        } else {
            EmailProvider::HotmailB2B
        }
    } else if str_eq(domain, "gmail.com") || str_eq(domain, "googlemail.com") {
        EmailProvider::Gmail
    } else if str_eq(domain, "yahoo.com") || str_eq(domain, "ymail.com") || str_eq(
        domain,
        "rocketmail.com",
    ) {
        EmailProvider::Yahoo
    } else {
        EmailProvider::EverythingElse
    }
}

/// The backend that a family and an input's configured methods select:
/// Gmail by its configured method, Yahoo by its, Hotmail B2B always over
/// SMTP, Hotmail B2C by its configured method, and every other domain over
/// SMTP.
pub open spec fn spec_chosen_method(p: EmailProvider, i: CheckEmailInput) -> VerifMethod {
    match p {
        EmailProvider::Gmail => match i.gmail_verif_method {
            GmailVerifMethod::Api => VerifMethod::Api,
            GmailVerifMethod::Smtp => VerifMethod::Smtp,
        },
        EmailProvider::Yahoo => match i.yahoo_verif_method {
            YahooVerifMethod::Api => VerifMethod::Api,
            YahooVerifMethod::Headless => VerifMethod::Headless,
            YahooVerifMethod::Smtp => VerifMethod::Smtp,
        },
        EmailProvider::HotmailB2B => match i.hotmailb2b_verif_method {
            HotmailB2BVerifMethod::Smtp => VerifMethod::Smtp,
        },
        EmailProvider::HotmailB2C => match i.hotmailb2c_verif_method {
            HotmailB2CVerifMethod::Headless => VerifMethod::Headless,
            HotmailB2CVerifMethod::Smtp => VerifMethod::Smtp,
        },
        EmailProvider::EverythingElse => VerifMethod::Smtp,
    }
}

/// Selects the verification backend for one input, by the family of its
/// domain. There is no silent fallback: when the chosen backend is
/// unavailable, its failure surfaces as an `smtp` error and the verdict
/// stays Unknown.
pub fn choose_verif_method(p: EmailProvider, input: &CheckEmailInput) -> (m: VerifMethod)
    ensures
        m == spec_chosen_method(p, *input),
{
    match p {
        EmailProvider::Gmail => match input.gmail_verif_method {
            GmailVerifMethod::Api => VerifMethod::Api,
            GmailVerifMethod::Smtp => VerifMethod::Smtp,
        },
        EmailProvider::Yahoo => match input.yahoo_verif_method {
            YahooVerifMethod::Api => VerifMethod::Api,
            YahooVerifMethod::Headless => VerifMethod::Headless,
            YahooVerifMethod::Smtp => VerifMethod::Smtp,
        },
        EmailProvider::HotmailB2B => match input.hotmailb2b_verif_method {
            HotmailB2BVerifMethod::Smtp => VerifMethod::Smtp,
        },
        EmailProvider::HotmailB2C => match input.hotmailb2c_verif_method {
            HotmailB2CVerifMethod::Headless => VerifMethod::Headless,
            HotmailB2CVerifMethod::Smtp => VerifMethod::Smtp,
        },
        EmailProvider::EverythingElse => VerifMethod::Smtp,
    }
}

} // verus!
