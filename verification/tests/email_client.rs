use zero2prod::domain::SubscriberEmail;
use zero2prod::email_client::Delivery;
use zero2prod::email_client::DispatchError;
use zero2prod::email_client::EmailClient;
use zero2prod::email_client::EmailMessage;
use zero2prod::email_client::CONTENT_TYPE;
use zero2prod::email_client::CONTENT_TYPE_HEADER;
use zero2prod::email_client::METHOD;
use zero2prod::email_client::PATH;
use zero2prod::email_client::TOKEN_HEADER;
use zero2prod::secret::Secret;
use zero2prod::timeout::Timeout;

fn email(raw: &str) -> SubscriberEmail {
    SubscriberEmail::parse(raw.to_string()).unwrap()
}

fn email_client(base_url: &str) -> EmailClient {
    EmailClient::new(
        base_url.to_string(),
        email("newsletter@example.com"),
        Secret::new("my-secret-token".to_string()),
        Timeout::from_millis(200),
    )
}

#[test]
fn the_request_has_the_expected_shape() {
    let client = email_client("http://127.0.0.1:8025");
    let request = client.request(
        email("felixo@gmail.com"),
        "Welcome!",
        "<p>Hello \"friend\"</p>",
        "Hello \"friend\"\nSee you soon.",
    );

    assert_eq!(METHOD, "POST");
    assert_eq!(PATH, "/email");
    assert_eq!(TOKEN_HEADER, "X-Postmark-Server-Token");
    assert_eq!(CONTENT_TYPE_HEADER, "Content-Type");
    assert_eq!(CONTENT_TYPE, "application/json");
    assert_eq!(request.method, "POST");
    assert_eq!(request.token_header, "X-Postmark-Server-Token");
    assert_eq!(request.content_type_header, "Content-Type");
    assert_eq!(request.content_type, "application/json");
    assert_eq!(request.url, "http://127.0.0.1:8025/email");
    assert_eq!(request.authorization_token.expose_secret(), "my-secret-token");
    assert_eq!(request.timeout, Timeout::from_millis(200));

    let body: serde_json::Value = serde_json::from_str(&request.body).unwrap();
    let members = body.as_object().unwrap();
    assert_eq!(members.len(), 5);
    assert_eq!(body.get("From").unwrap().as_str(), Some("newsletter@example.com"));
    assert_eq!(body.get("To").unwrap().as_str(), Some("felixo@gmail.com"));
    assert_eq!(body.get("Subject").unwrap().as_str(), Some("Welcome!"));
    assert_eq!(body.get("HtmlBody").unwrap().as_str(), Some("<p>Hello \"friend\"</p>"));
    assert_eq!(
        body.get("TextBody").unwrap().as_str(),
        Some("Hello \"friend\"\nSee you soon.")
    );
}

#[test]
fn the_body_is_written_exactly() {
    let message = EmailMessage::new(
        email("a@b.c"),
        email("d@e.f"),
        "S".to_string(),
        "<b>H</b>".to_string(),
        "T\\".to_string(),
    );
    assert_eq!(
        message.to_json(),
        r#"{"From":"a@b.c","To":"d@e.f","Subject":"S","HtmlBody":"<b>H</b>","TextBody":"T\\"}"#
    );
}

#[test]
fn a_message_keeps_its_fields() {
    let client = email_client("https://api.postmarkapp.com");
    let message = client.compose(email("felixo@gmail.com"), "Subject", "<p>html</p>", "text");
    assert_eq!(message.from().as_ref(), "newsletter@example.com");
    assert_eq!(message.to().as_ref(), "felixo@gmail.com");
    assert_eq!(message.subject(), "Subject");
    assert_eq!(message.html_body(), "<p>html</p>");
    assert_eq!(message.text_body(), "text");
    assert_eq!(message.clone().to_json(), message.to_json());
}

#[test]
fn the_client_keeps_what_it_was_set_up_with() {
    let client = email_client("https://api.postmarkapp.com");
    assert_eq!(client.endpoint(), "https://api.postmarkapp.com/email");
    assert_eq!(client.sender().as_ref(), "newsletter@example.com");
    assert_eq!(client.timeout().as_millis(), 200);
}

#[test]
fn the_credential_stays_out_of_renderings() {
    let client = email_client("https://api.postmarkapp.com");
    assert!(!format!("{:?}", client).contains("my-secret-token"));
    let request = client.request(email("felixo@gmail.com"), "s", "h", "t");
    assert!(!format!("{:?}", request).contains("my-secret-token"));
    assert!(!request.body.contains("my-secret-token"));
}

#[test]
fn a_200_response_is_a_success() {
    assert_eq!(Delivery::Responded { status: 200 }.outcome(), Ok(()));
}

#[test]
fn every_2xx_response_is_a_success_and_no_other() {
    for status in 0..=u16::MAX {
        let outcome = Delivery::Responded { status }.outcome();
        if (200..=299).contains(&status) {
            assert_eq!(outcome, Ok(()));
        } else {
            assert_eq!(outcome, Err(DispatchError::ServerRejected(status)));
        }
    }
}

#[test]
fn a_500_response_is_a_rejection() {
    assert_eq!(
        Delivery::Responded { status: 500 }.outcome(),
        Err(DispatchError::ServerRejected(500))
    );
    assert_eq!(
        Delivery::Responded { status: 404 }.outcome(),
        Err(DispatchError::ServerRejected(404))
    );
    assert_eq!(
        Delivery::Responded { status: 304 }.outcome(),
        Err(DispatchError::ServerRejected(304))
    );
}

#[test]
fn no_response_in_time_is_a_timeout() {
    assert_eq!(Delivery::TimedOut.outcome(), Err(DispatchError::Timeout));
}

#[test]
fn a_failed_transport_is_a_transport_failure() {
    assert_eq!(Delivery::Failed.outcome(), Err(DispatchError::TransportFailure));
}
