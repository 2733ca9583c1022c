use reacher::http::{handle_check_email_request, BackendConfig, CheckEmailRequest,
    VerifMethodConfig};
use reacher::input::{
    CheckEmailInput, CheckEmailInputProxy, GmailVerifMethod, HotmailB2BVerifMethod,
    HotmailB2CVerifMethod, SmtpSecurity, YahooVerifMethod,
};
use reacher::output::{MxDetails, MxError, Reachable, SmtpDetails, SyntaxDetails, VerifMethod};
use reacher::pipeline::{assemble_output, invalid_syntax_output};
use reacher::syntax::{build_misc_details, check_syntax, is_disposable_domain, is_role_username};
use reacher::verdict::calculate_reachable;

fn valid_syntax(address: &str, username: &str, domain: &str) -> SyntaxDetails {
    SyntaxDetails {
        address: address.to_string(),
        domain: domain.to_string(),
        is_valid_syntax: true,
        username: username.to_string(),
        suggestion: None,
    }
}

fn deliverable() -> SmtpDetails {
    SmtpDetails {
        can_connect_smtp: true,
        has_full_inbox: false,
        is_catch_all: false,
        is_deliverable: true,
        is_disabled: false,
    }
}

fn one_exchange() -> MxDetails {
    MxDetails { records: vec!["mx.example.org".to_string()] }
}

fn misc_plain() -> reacher::output::MiscDetails {
    reacher::output::MiscDetails::default()
}

#[test]
fn invalid_syntax_input_gives_invalid_and_no_probes() {
    // The short circuit needs no network results at all.
    let input = CheckEmailInput {
        to_email: "not-an-email".to_string(),
        ..CheckEmailInput::default()
    };
    let syntax = check_syntax("not-an-email");
    assert!(!syntax.is_valid_syntax);
    let out = invalid_syntax_output(&input, syntax, "backend-dev".to_string(), 1000);
    assert_eq!(out.is_reachable, Reachable::Invalid);
    assert_eq!(out.input, "not-an-email");
    assert!(!out.syntax.is_valid_syntax);
    assert!(out.mx.unwrap().records.is_empty());
    assert_eq!(out.smtp.unwrap(), SmtpDetails::default());
    assert!(out.debug.end_time >= out.debug.start_time);
}

#[test]
fn no_mx_record_gives_invalid() {
    let input = CheckEmailInput {
        to_email: "a@no-such-domain.invalid".to_string(),
        ..CheckEmailInput::default()
    };
    let syntax = valid_syntax("a@no-such-domain.invalid", "a", "no-such-domain.invalid");
    let out = assemble_output(
        &input,
        syntax,
        Ok(misc_plain()),
        Err(MxError::NoRecord("no records found".to_string())),
        Ok(SmtpDetails::default()),
        "backend-dev".to_string(),
        VerifMethod::Smtp,
        5,
    );
    assert_eq!(out.is_reachable, Reachable::Invalid);
    assert!(matches!(out.mx, Err(MxError::NoRecord(_))));
}

#[test]
fn deliverable_non_catch_all_is_safe() {
    let input = CheckEmailInput {
        to_email: "a@example.org".to_string(),
        ..CheckEmailInput::default()
    };
    let out = assemble_output(
        &input,
        valid_syntax("a@example.org", "a", "example.org"),
        Ok(misc_plain()),
        Ok(one_exchange()),
        Ok(deliverable()),
        "backend-dev".to_string(),
        VerifMethod::Smtp,
        77,
    );
    assert_eq!(out.is_reachable, Reachable::Safe);
    assert_eq!(out.input, "a@example.org");
    assert_eq!(out.debug.start_time, 77);
    assert!(out.debug.end_time >= out.debug.start_time);
    assert_eq!(out.debug.duration, out.debug.end_time - out.debug.start_time);
}

#[test]
fn catch_all_is_risky() {
    let smtp = SmtpDetails { is_catch_all: true, ..deliverable() };
    let r = calculate_reachable(
        &valid_syntax("a@example.org", "a", "example.org"),
        &Ok(one_exchange()),
        &Ok(smtp),
    );
    assert_eq!(r, Reachable::Risky);
}

#[test]
fn full_inbox_role_and_disposable_are_risky() {
    let full = SmtpDetails { has_full_inbox: true, ..deliverable() };
    let r = calculate_reachable(
        &valid_syntax("a@example.org", "a", "example.org"),
        &Ok(one_exchange()),
        &Ok(full),
    );
    assert_eq!(r, Reachable::Risky);

    let role = valid_syntax("admin@example.org", "admin", "example.org");
    let r = calculate_reachable(&role, &Ok(one_exchange()), &Ok(deliverable()));
    assert_eq!(r, Reachable::Risky);

    let disposable = valid_syntax("a@mailinator.com", "a", "mailinator.com");
    let r = calculate_reachable(&disposable, &Ok(one_exchange()), &Ok(deliverable()));
    assert_eq!(r, Reachable::Risky);
}

#[test]
fn disabled_or_rejected_is_invalid_and_connect_failure_unknown() {
    let syntax = valid_syntax("a@example.org", "a", "example.org");
    let disabled = SmtpDetails { is_disabled: true, ..deliverable() };
    let r = calculate_reachable(&syntax, &Ok(one_exchange()), &Ok(disabled));
    assert_eq!(r, Reachable::Invalid);

    let rejected = SmtpDetails { is_deliverable: false, ..deliverable() };
    let r = calculate_reachable(&syntax, &Ok(one_exchange()), &Ok(rejected));
    assert_eq!(r, Reachable::Invalid);

    let r = calculate_reachable(
        &syntax,
        &Ok(one_exchange()),
        &Err(reacher::output::SmtpError::Connect("refused".to_string())),
    );
    assert_eq!(r, Reachable::Unknown);

    let r = calculate_reachable(&syntax, &Ok(MxDetails { records: vec![] }), &Ok(deliverable()));
    assert_eq!(r, Reachable::Invalid);
}

#[test]
fn misc_outcome_never_changes_the_verdict() {
    // Two runs with the same syntax, MX and SMTP signals grade alike,
    // whether the auxiliary probes succeeded or failed.
    let input = CheckEmailInput {
        to_email: "a@example.org".to_string(),
        ..CheckEmailInput::default()
    };
    let with_misc = assemble_output(
        &input,
        valid_syntax("a@example.org", "a", "example.org"),
        Ok(reacher::output::MiscDetails { is_disposable: true, ..misc_plain() }),
        Ok(one_exchange()),
        Ok(deliverable()),
        "backend-dev".to_string(),
        VerifMethod::Smtp,
        1,
    );
    let with_misc_error = assemble_output(
        &input,
        valid_syntax("a@example.org", "a", "example.org"),
        Err(reacher::output::MiscError::Http("connection reset".to_string())),
        Ok(one_exchange()),
        Ok(deliverable()),
        "backend-dev".to_string(),
        VerifMethod::Smtp,
        1,
    );
    assert_eq!(with_misc.is_reachable, with_misc_error.is_reachable);
    assert_eq!(with_misc.is_reachable, Reachable::Safe);
}

#[test]
fn check_syntax_splits_at_last_at_sign() {
    let s = check_syntax("some.one@example.org");
    assert!(s.is_valid_syntax);
    assert_eq!(s.address, "some.one@example.org");
    assert_eq!(s.username, "some.one");
    assert_eq!(s.domain, "example.org");
    assert_eq!(s.suggestion, None);
}

#[test]
fn check_syntax_rejects_malformed_addresses() {
    assert!(!check_syntax("not-an-email").is_valid_syntax);
    assert!(!check_syntax("").is_valid_syntax);
    assert!(!check_syntax("@example.org").is_valid_syntax);
    assert!(!check_syntax("a@").is_valid_syntax);
    assert!(!check_syntax("a@nodot").is_valid_syntax);
    assert!(!check_syntax("a..b@example.org").is_valid_syntax);
    assert!(!check_syntax(".a@example.org").is_valid_syntax);
    assert!(!check_syntax("a@-example.org").is_valid_syntax);
    assert!(!check_syntax("a@exa mple.org").is_valid_syntax);
    assert!(check_syntax("a+tag@sub.example.org").is_valid_syntax);
}

#[test]
fn role_and_disposable_flags() {
    assert!(is_role_username("admin"));
    assert!(is_role_username("postmaster"));
    assert!(!is_role_username("alice"));
    assert!(is_disposable_domain("mailinator.com"));
    assert!(!is_disposable_domain("example.org"));

    let syntax = valid_syntax("admin@mailinator.com", "admin", "mailinator.com");
    let misc = build_misc_details(&syntax, Some("https://g".to_string()), Some(true));
    assert!(misc.is_role_account);
    assert!(misc.is_disposable);
    assert_eq!(misc.gravatar_url, Some("https://g".to_string()));
    assert_eq!(misc.haveibeenpwned, Some(true));
}

#[test]
fn input_defaults_match_documentation() {
    let input = CheckEmailInput::default();
    assert_eq!(input.to_email, "");
    assert_eq!(input.from_email, "reacher.email@gmail.com");
    assert_eq!(input.hello_name, "gmail.com");
    assert!(input.proxy.is_none());
    assert_eq!(input.smtp_port, 25);
    assert_eq!(input.smtp_timeout, Some(30000));
    assert_eq!(input.yahoo_verif_method, YahooVerifMethod::Headless);
    assert!(matches!(input.gmail_verif_method, GmailVerifMethod::Smtp));
    assert_eq!(input.hotmailb2b_verif_method, HotmailB2BVerifMethod::Smtp);
    assert_eq!(input.hotmailb2c_verif_method, HotmailB2CVerifMethod::Headless);
    assert!(!input.check_gravatar);
    assert!(input.haveibeenpwned_api_key.is_none());
    assert_eq!(input.retries, 1);
    assert!(matches!(input.smtp_security, SmtpSecurity::Opportunistic));
}

#[test]
fn verif_method_from_str_accepts_known_names() {
    assert_eq!(YahooVerifMethod::from_str("api"), Ok(YahooVerifMethod::Api));
    assert_eq!(YahooVerifMethod::from_str("headless"), Ok(YahooVerifMethod::Headless));
    assert_eq!(YahooVerifMethod::from_str("smtp"), Ok(YahooVerifMethod::Smtp));
    assert_eq!(
        YahooVerifMethod::from_str("carrier-pigeon"),
        Err("Unknown yahoo verify method: carrier-pigeon".to_string())
    );
    assert!(matches!(GmailVerifMethod::from_str("api"), Ok(GmailVerifMethod::Api)));
    assert!(matches!(GmailVerifMethod::from_str("smtp"), Ok(GmailVerifMethod::Smtp)));
    assert_eq!(
        GmailVerifMethod::from_str("headless"),
        Err("Unknown gmail verify method: headless".to_string())
    );
    assert_eq!(HotmailB2BVerifMethod::from_str("smtp"), Ok(HotmailB2BVerifMethod::Smtp));
    assert_eq!(
        HotmailB2BVerifMethod::from_str("api"),
        Err("Unknown hotmailb2b verify method: api".to_string())
    );
    assert_eq!(
        HotmailB2CVerifMethod::from_str("headless"),
        Ok(HotmailB2CVerifMethod::Headless)
    );
    assert_eq!(HotmailB2CVerifMethod::from_str("smtp"), Ok(HotmailB2CVerifMethod::Smtp));
    assert_eq!(
        HotmailB2CVerifMethod::from_str("pigeon"),
        Err("Unknown hotmailb2c verify method: pigeon".to_string())
    );
}

fn test_config() -> BackendConfig {
    BackendConfig {
        backend_name: "backend-test".to_string(),
        from_email: "sender@config.example".to_string(),
        hello_name: "config.example".to_string(),
        verif_method: VerifMethodConfig {
            gmail: GmailVerifMethod::Api,
            hotmailb2b: HotmailB2BVerifMethod::Smtp,
            hotmailb2c: HotmailB2CVerifMethod::Smtp,
            yahoo: YahooVerifMethod::Api,
        },
        proxy: Some(CheckEmailInputProxy {
            host: "proxy.config.example".to_string(),
            port: 1080,
            username: None,
            password: None,
        }),
    }
}

#[test]
fn request_maps_to_input_with_config_defaults() {
    let req = CheckEmailRequest {
        to_email: "who@example.org".to_string(),
        from_email: None,
        hello_name: Some("hello.example".to_string()),
        gmail_verif_method: None,
        hotmailb2b_verif_method: None,
        hotmailb2c_verif_method: None,
        yahoo_verif_method: None,
        proxy: None,
    };
    let input = req.to_check_email_input(&test_config());
    assert_eq!(input.to_email, "who@example.org");
    assert_eq!(input.from_email, "sender@config.example");
    assert_eq!(input.hello_name, "hello.example");
    assert!(matches!(input.gmail_verif_method, GmailVerifMethod::Api));
    assert_eq!(input.yahoo_verif_method, YahooVerifMethod::Api);
    assert_eq!(input.proxy.unwrap().host, "proxy.config.example");
    assert_eq!(input.smtp_port, 25);
    assert_eq!(input.retries, 1);
}

#[test]
fn empty_to_email_is_rejected_with_400() {
    let req = CheckEmailRequest {
        to_email: "".to_string(),
        from_email: None,
        hello_name: None,
        gmail_verif_method: None,
        hotmailb2b_verif_method: None,
        hotmailb2c_verif_method: None,
        yahoo_verif_method: None,
        proxy: None,
    };
    let r = handle_check_email_request(&req, &test_config());
    let err = r.err().unwrap();
    assert_eq!(err.code, 400);
    assert_eq!(err.message, "to_email field is required.");

    let req = CheckEmailRequest { to_email: "x@example.org".to_string(), ..req };
    let input = handle_check_email_request(&req, &test_config()).unwrap();
    assert_eq!(input.to_email, "x@example.org");
}
