use zero2prod::domain::Field;
use zero2prod::domain::FormData;
use zero2prod::domain::NewSubscriber;
use zero2prod::domain::ValidationError;

fn form(name: &str, email: &str) -> FormData {
    FormData { name: name.to_string(), email: email.to_string() }
}

#[test]
fn a_valid_form_becomes_a_subscriber() {
    let subscriber = NewSubscriber::parse(form("zasha felixo", "felixo@gmail.com")).unwrap();
    assert_eq!(subscriber.name.as_ref(), "zasha felixo");
    assert_eq!(subscriber.email.as_ref(), "felixo@gmail.com");
}

#[test]
fn a_form_with_an_empty_name_is_rejected() {
    let rejection = NewSubscriber::parse(form("", "felixo@gmail.com")).unwrap_err();
    assert_eq!(rejection.field, Field::Name);
    assert_eq!(rejection.reason, ValidationError::Empty);
}

#[test]
fn a_form_with_an_empty_email_is_rejected() {
    let rejection = NewSubscriber::parse(form("zasha felixo", "")).unwrap_err();
    assert_eq!(rejection.field, Field::Email);
    assert_eq!(rejection.reason, ValidationError::Empty);
}

#[test]
fn a_form_with_an_invalid_email_is_rejected() {
    let rejection =
        NewSubscriber::parse(form("zasha felixo", "definitely-not-an-email")).unwrap_err();
    assert_eq!(rejection.field, Field::Email);
    assert_eq!(rejection.reason, ValidationError::MalformedAddress);
    assert_eq!(rejection.input, "definitely-not-an-email");
}

#[test]
fn the_name_is_judged_before_the_email() {
    let rejection = NewSubscriber::parse(form("<zasha>", "nobody")).unwrap_err();
    assert_eq!(rejection.field, Field::Name);
    assert_eq!(rejection.reason, ValidationError::ForbiddenCharacter);
    assert_eq!(rejection.input, "<zasha>");
}
