use reacher::input::{CheckEmailInput, GmailVerifMethod, HotmailB2CVerifMethod,
    YahooVerifMethod};
use reacher::output::VerifMethod;
use reacher::provider::{choose_verif_method, provider_of, EmailProvider};

#[test]
fn provider_is_derived_from_domain_and_mx() {
    assert_eq!(provider_of("gmail.com", "gmail-smtp-in.l.google.com"), EmailProvider::Gmail);
    assert_eq!(provider_of("googlemail.com", "x"), EmailProvider::Gmail);
    assert_eq!(provider_of("yahoo.com", "mta5.am0.yahoodns.net"), EmailProvider::Yahoo);
    assert_eq!(
        provider_of("outlook.com", "outlook-com.olc.protection.outlook.com"),
        EmailProvider::HotmailB2C
    );
    assert_eq!(
        provider_of("contoso.org", "contoso-org.mail.protection.outlook.com"),
        EmailProvider::HotmailB2B
    );
    assert_eq!(provider_of("example.org", "mx.example.org"), EmailProvider::EverythingElse);
}

#[test]
fn method_selection_follows_the_family_table() {
    let input = CheckEmailInput::default();
    // Defaults: Gmail over SMTP, Yahoo headless, Hotmail B2B over SMTP,
    // Hotmail B2C headless, everything else over SMTP.
    assert_eq!(choose_verif_method(EmailProvider::Gmail, &input), VerifMethod::Smtp);
    assert_eq!(choose_verif_method(EmailProvider::Yahoo, &input), VerifMethod::Headless);
    assert_eq!(choose_verif_method(EmailProvider::HotmailB2B, &input), VerifMethod::Smtp);
    assert_eq!(choose_verif_method(EmailProvider::HotmailB2C, &input), VerifMethod::Headless);
    assert_eq!(
        choose_verif_method(EmailProvider::EverythingElse, &input),
        VerifMethod::Smtp
    );

    let input = CheckEmailInput {
        gmail_verif_method: GmailVerifMethod::Api,
        yahoo_verif_method: YahooVerifMethod::Smtp,
        hotmailb2c_verif_method: HotmailB2CVerifMethod::Smtp,
        ..input
    };
    assert_eq!(choose_verif_method(EmailProvider::Gmail, &input), VerifMethod::Api);
    assert_eq!(choose_verif_method(EmailProvider::Yahoo, &input), VerifMethod::Smtp);
    assert_eq!(choose_verif_method(EmailProvider::HotmailB2C, &input), VerifMethod::Smtp);
    // B2B has no other method to configure.
    assert_eq!(choose_verif_method(EmailProvider::HotmailB2B, &input), VerifMethod::Smtp);
}
