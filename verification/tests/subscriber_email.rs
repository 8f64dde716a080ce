use zero2prod::domain::subscriber_email::has_email_shape;
use zero2prod::domain::Field;
use zero2prod::domain::SubscriberEmail;
use zero2prod::domain::ValidationError;

#[test]
fn valid_emails_are_parsed_successfully() {
    for raw in [
        "felixo@gmail.com",
        "ursula_le_guin@gmail.com",
        "a@b.c",
        "first.last+tag@mail.example.co.uk",
        "ünï@exämple.de",
    ] {
        let email = SubscriberEmail::parse(raw.to_string()).unwrap();
        assert_eq!(email.as_ref(), raw);
        assert_eq!(email.clone().as_ref(), raw);
    }
}

#[test]
fn empty_email_is_rejected() {
    let rejection = SubscriberEmail::parse("".to_string()).unwrap_err();
    assert_eq!(rejection.reason, ValidationError::Empty);
    assert_eq!(rejection.field, Field::Email);
    assert_eq!(rejection.input, "");
    let rejection = SubscriberEmail::parse(" \t".to_string()).unwrap_err();
    assert_eq!(rejection.reason, ValidationError::Empty);
}

#[test]
fn email_missing_at_symbol_is_rejected() {
    for raw in ["ursuladomain.com", "definitely-not-an-email", "a.b.c"] {
        let rejection = SubscriberEmail::parse(raw.to_string()).unwrap_err();
        assert_eq!(rejection.reason, ValidationError::MalformedAddress);
        assert_eq!(rejection.input, raw);
    }
}

#[test]
fn email_missing_subject_is_rejected() {
    let rejection = SubscriberEmail::parse("@domain.com".to_string()).unwrap_err();
    assert_eq!(rejection.reason, ValidationError::MalformedAddress);
}

#[test]
fn email_missing_domain_is_rejected() {
    for raw in ["ursula@", "@", "a@b@"] {
        let rejection = SubscriberEmail::parse(raw.to_string()).unwrap_err();
        assert_eq!(rejection.reason, ValidationError::MalformedAddress);
    }
}

#[test]
fn email_with_two_at_symbols_is_rejected() {
    for raw in ["a@b@c.d", "a@@b.c", "@a@b.c", "a@b.c@"] {
        assert!(SubscriberEmail::parse(raw.to_string()).is_err(), "{:?}", raw);
    }
}

#[test]
fn email_domain_needs_a_dot_and_full_labels() {
    for raw in ["a@localhost", "a@.com", "a@com.", "a@b..c", "a@.", "a@..", "a.b@c"] {
        assert!(!has_email_shape(raw), "{:?}", raw);
    }
    for raw in ["a@b.c", "a..b@c.d", ".a@b.c", "a.@b.c", "a@b.c.d.e"] {
        assert!(has_email_shape(raw), "{:?}", raw);
    }
}

#[test]
fn an_email_rejection_has_a_message() {
    let rejection = SubscriberEmail::parse("nobody".to_string()).unwrap_err();
    assert_eq!(rejection.message(), "nobody is not a valid subscriber email.");
}
