use reacher::output::{
    Category, CheckEmailOutput, Code, DebugDetails, Detail, MiscDetails, MiscError, MxDetails,
    MxError, Reachable, Response, Severity, SmtpDebug, SmtpDetails, SmtpError, SmtpErrorDesc,
    SyntaxDetails, VerifMethod,
};

fn dummy_response_with_message(m: &str) -> CheckEmailOutput {
    let r = Response::new(
        Code {
            severity: Severity::TransientNegativeCompletion,
            category: Category::MailSystem,
            detail: Detail::Zero,
        },
        vec![m.to_string(), "8BITMIME".to_string(), "SIZE 42".to_string()],
    );

    CheckEmailOutput {
        input: "foo".to_string(),
        is_reachable: Reachable::Unknown,
        misc: Ok(MiscDetails::default()),
        mx: Ok(MxDetails::default()),
        syntax: SyntaxDetails::default(),
        smtp: Err(SmtpError::SmtpError(r)),
        debug: DebugDetails::default(),
    }
}

#[test]
fn should_serialize_correctly() {
    let res = dummy_response_with_message("blacklist");
    let actual = res.to_json();
    // Make sure the `description` is present with IpBlacklisted.
    let expected = r#""smtp":{"error":{"type":"SmtpError","message":"transient: blacklist"},"description":"IpBlacklisted"}"#;
    assert!(actual.contains(expected));

    let res =
        dummy_response_with_message("Client host rejected: cannot find your reverse hostname");
    let actual = res.to_json();
    // Make sure the `description` is present with NeedsRDNS.
    let expected = r#"smtp":{"error":{"type":"SmtpError","message":"transient: Client host rejected: cannot find your reverse hostname"},"description":"NeedsRDNS"}"#;
    assert!(actual.contains(expected));

    let res = dummy_response_with_message("foobar");
    let actual = res.to_json();
    // Make sure the `description` is NOT present.
    let expected = r#""smtp":{"error":{"type":"SmtpError","message":"transient: foobar"}}"#;
    assert!(actual.contains(expected));
}

#[test]
fn serializes_whole_record_with_keys_in_order() {
    let out = CheckEmailOutput {
        input: "a@b.co".to_string(),
        is_reachable: Reachable::Safe,
        misc: Ok(MiscDetails::default()),
        mx: Ok(MxDetails {
            records: vec!["mx1.b.co".to_string(), "mx2.b.co".to_string()],
        }),
        smtp: Ok(SmtpDetails {
            can_connect_smtp: true,
            has_full_inbox: false,
            is_catch_all: false,
            is_deliverable: true,
            is_disabled: false,
        }),
        syntax: SyntaxDetails {
            address: "a@b.co".to_string(),
            domain: "b.co".to_string(),
            is_valid_syntax: true,
            username: "a".to_string(),
            suggestion: None,
        },
        debug: DebugDetails {
            backend_name: "backend-dev".to_string(),
            start_time: 100,
            end_time: 250,
            duration: 150,
            smtp: SmtpDebug { verif_method: VerifMethod::Smtp },
        },
    };
    let mut expected = String::new();
    expected.push_str(r#"{"input":"a@b.co","is_reachable":"safe","#);
    expected.push_str(r#""misc":{"is_disposable":false,"is_role_account":false,"gravatar_url":null,"haveibeenpwned":null},"#);
    expected.push_str(r#""mx":{"accepts_mail":true,"records":["mx1.b.co","mx2.b.co"]},"#);
    expected.push_str(r#""smtp":{"can_connect_smtp":true,"has_full_inbox":false,"is_catch_all":false,"is_deliverable":true,"is_disabled":false},"#);
    expected.push_str(r#""syntax":{"address":"a@b.co","domain":"b.co","is_valid_syntax":true,"username":"a","suggestion":null},"#);
    expected.push_str(r#""debug":{"backend_name":"backend-dev","start_time":100,"end_time":250,"duration":150,"smtp":{"verif_method":"Smtp"}}}"#);
    assert_eq!(out.to_json(), expected);
}

#[test]
fn serializes_mx_and_misc_errors() {
    let mut out = dummy_response_with_message("foobar");
    out.mx = Err(MxError::NoRecord("no MX records".to_string()));
    out.misc = Err(MiscError::Http("connection reset".to_string()));
    let actual = out.to_json();
    assert!(actual.contains(r#""mx":{"error":{"type":"NoRecord","message":"no MX records"}}"#));
    assert!(
        actual.contains(r#""misc":{"error":{"type":"Http","message":"connection reset"}}"#)
    );
}

#[test]
fn escapes_json_strings() {
    let mut out = dummy_response_with_message("foobar");
    out.input = "a\"b\\c\nd\te\u{1}".to_string();
    let actual = out.to_json();
    assert!(actual.starts_with(r#"{"input":"a\"b\\c\nd\te\u0001","#));
}

#[test]
fn smtp_error_message_falls_back_when_undetailed() {
    let r = Response::new(
        Code {
            severity: Severity::PermanentNegativeCompletion,
            category: Category::MailSystem,
            detail: Detail::One,
        },
        vec![],
    );
    let e = SmtpError::SmtpError(r);
    let out = CheckEmailOutput {
        smtp: Err(e),
        ..dummy_response_with_message("x")
    };
    assert!(out.to_json().contains(
        r#""message":"permanent: undetailed error during SMTP transaction""#
    ));
}

#[test]
fn get_description_matches_dictionary() {
    let e = SmtpError::Connect("ip on blacklist at example".to_string());
    assert_eq!(e.get_description(), Some(SmtpErrorDesc::IpBlacklisted));
    let e = SmtpError::Connect("cannot find your reverse hostname".to_string());
    assert_eq!(e.get_description(), Some(SmtpErrorDesc::NeedsRDNS));
    let e = SmtpError::Connect("greylisted, try again later".to_string());
    assert_eq!(e.get_description(), None);
    // The dictionary is checked in order: blacklist wins over the rDNS entry.
    let e = SmtpError::Tls("blacklist and cannot find your reverse hostname".to_string());
    assert_eq!(e.get_description(), Some(SmtpErrorDesc::IpBlacklisted));
}

#[test]
fn positive_code_serializes_as_client_error() {
    let r = Response::new(
        Code {
            severity: Severity::PositiveCompletion,
            category: Category::MailSystem,
            detail: Detail::Zero,
        },
        vec!["250 OK".to_string()],
    );
    let out = CheckEmailOutput {
        smtp: Err(SmtpError::SmtpError(r)),
        ..dummy_response_with_message("x")
    };
    assert!(out.to_json().contains(r#""message":"client: Unknown error code""#));
}
