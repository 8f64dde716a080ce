use zero2prod::secret::Secret;

#[test]
fn a_secret_exposes_the_exact_value() {
    for value in ["", "hunter2", "pässwörd \"with\" \\ and \n newline", "[REDACTED]"] {
        let secret = Secret::new(value.to_string());
        assert_eq!(secret.expose_secret(), value);
    }
}

#[test]
fn a_secret_is_redacted_when_rendered() {
    let secret = Secret::new("my-very-secret-token-3141592".to_string());
    let rendered = format!("{:?}", secret);
    assert!(!rendered.contains("my-very-secret-token-3141592"));
    assert!(!rendered.contains("3141592"));
    assert!(rendered.contains("REDACTED"));
}

#[test]
fn two_secrets_render_alike() {
    let one = format!("{:?}", Secret::new("first".to_string()));
    let other = format!("{:?}", Secret::new("second, and longer".to_string()));
    assert_eq!(one, other);
}
