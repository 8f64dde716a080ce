//! The outbound email client: what it sends, and how it reads the answer.

use crate::domain::subscriber_email::SubscriberEmail;
use crate::json::lemma_literal_reads_back;
use crate::json::literal_value;
use crate::json::member;
use crate::json::members;
use crate::json::object;
use crate::json::string_literal;
use crate::json::write_object;
use crate::secret::Secret;
use crate::timeout::Timeout;
use vstd::prelude::*;
use vstd::string::StringExecFns;

verus! {

/// The method of the one request that a send makes.
pub const METHOD: &'static str = "POST";

/// The path of that request, below the base URL.
pub const PATH: &'static str = "/email";

/// The header that carries the credential.
pub const TOKEN_HEADER: &'static str = "X-Postmark-Server-Token";

/// The header that names the body's format.
pub const CONTENT_TYPE_HEADER: &'static str = "Content-Type";

/// The body's format.
pub const CONTENT_TYPE: &'static str = "application/json";

/// The text of an email message, field by field.
pub struct MessageView {
    pub from: Seq<char>,
    pub to: Seq<char>,
    pub subject: Seq<char>,
    pub html_body: Seq<char>,
    pub text_body: Seq<char>,
}

/// The body that carries `message`: one JSON object with these five
/// members, under these keys, in this order.
pub open spec fn message_json(message: MessageView) -> Seq<char> {
    object(
        seq![
            ("From"@, message.from),
            ("To"@, message.to),
            ("Subject"@, message.subject),
            ("HtmlBody"@, message.html_body),
            ("TextBody"@, message.text_body),
        ],
    )
}

/// One outbound email, complete. Its fields are set when it is made and
/// never change.
#[derive(Debug, Clone)]
pub struct EmailMessage {
    from: SubscriberEmail,
    to: SubscriberEmail,
    subject: String,
    html_body: String,
    text_body: String,
}

impl View for EmailMessage {
    type V = MessageView;

    closed spec fn view(&self) -> MessageView {
        MessageView {
            from: self.from@,
            to: self.to@,
            subject: self.subject@,
            html_body: self.html_body@,
            text_body: self.text_body@,
        }
    }
}

impl EmailMessage {
    /// A message from `from` to `to`.
    pub fn new(
        from: SubscriberEmail,
        to: SubscriberEmail,
        subject: String,
        html_body: String,
        text_body: String,
    ) -> (message: EmailMessage)
        ensures
            message@ == (MessageView {
                from: from@,
                to: to@,
                subject: subject@,
                html_body: html_body@,
                text_body: text_body@,
            }),
    {
        EmailMessage { from, to, subject, html_body, text_body }
    }

    /// The sender.
    pub fn from(&self) -> (from: &SubscriberEmail)
        ensures
            from@ == self@.from,
    {
        &self.from
    }

    /// The recipient.
    pub fn to(&self) -> (to: &SubscriberEmail)
        ensures
            to@ == self@.to,
    {
        &self.to
    }

    /// The subject line.
    pub fn subject(&self) -> (subject: &str)
        ensures
            subject@ == self@.subject,
    {
        self.subject.as_str()
    }

    /// The body as HTML.
    pub fn html_body(&self) -> (body: &str)
        ensures
            body@ == self@.html_body,
    {
        self.html_body.as_str()
    }

    /// The body as plain text.
    pub fn text_body(&self) -> (body: &str)
        ensures
            body@ == self@.text_body,
    {
        self.text_body.as_str()
    }

    /// The request body that carries this message.
    pub fn to_json(&self) -> (body: String)
        ensures
            body@ == message_json(self@),
    {
        let mut pairs: Vec<(&str, &str)> = Vec::new();
        pairs.push(("From", self.from.as_ref()));
        pairs.push(("To", self.to.as_ref()));
        pairs.push(("Subject", self.subject.as_str()));
        pairs.push(("HtmlBody", self.html_body.as_str()));
        pairs.push(("TextBody", self.text_body.as_str()));
        let body = write_object(&pairs);
        assert(crate::json::pair_views(pairs@) =~= seq![
            ("From"@, self@.from),
            ("To"@, self@.to),
            ("Subject"@, self@.subject),
            ("HtmlBody"@, self@.html_body),
            ("TextBody"@, self@.text_body),
        ]);
        body
    }
}

/// Why a send did not succeed.
#[derive(Debug, Clone, Copy, PartialEq, Eq, Structural)]
pub enum DispatchError {
    /// No response came within the client's timeout.
    Timeout,
    /// The server answered with this status, which is not a success.
    ServerRejected(u16),
    /// The request could not be carried out: no connection, or no usable body.
    TransportFailure,
}

/// What the transport reports of one request.
#[derive(Debug, Clone, Copy, PartialEq, Eq, Structural)]
pub enum Delivery {
    /// A response came, with this status.
    Responded { status: u16 },
    /// The timeout passed without a response.
    TimedOut,
    /// The transport failed before any response.
    Failed,
}

/// The statuses that mean success: 200 to 299.
pub open spec fn is_success(status: u16) -> bool {
    200 <= status <= 299
}

/// How a send ends, given what the transport reports.
pub open spec fn outcome_of(delivery: Delivery) -> Result<(), DispatchError> {
    match delivery {
        Delivery::Responded { status } => if is_success(status) {
            Ok(())
        } else {
            Err(DispatchError::ServerRejected(status))
        },
        Delivery::TimedOut => Err(DispatchError::Timeout),
        Delivery::Failed => Err(DispatchError::TransportFailure),
    }
}

impl Delivery {
    /// Classifies the report: success on a status from 200 to 299, and one
    /// error for each other way a request can end.
    pub fn outcome(self) -> (outcome: Result<(), DispatchError>)
        ensures
            outcome == outcome_of(self),
    {
        match self {
            Delivery::Responded { status } => {
                if 200 <= status && status <= 299 {
                    Ok(())
                } else {
                    Err(DispatchError::ServerRejected(status))
                }
            },
            Delivery::TimedOut => Err(DispatchError::Timeout),
            Delivery::Failed => Err(DispatchError::TransportFailure),
        }
    }
}

/// One request, ready for the transport: a method, a URL, two headers and
/// a body.
#[derive(Debug)]
pub struct EmailRequest<'a> {
    /// The HTTP method.
    pub method: &'static str,
    /// Where the request goes.
    pub url: String,
    /// The name of the header that carries the credential.
    pub token_header: &'static str,
    /// The credential, still wrapped.
    pub authorization_token: &'a Secret,
    /// The name of the header that names the body's format.
    pub content_type_header: &'static str,
    /// The body's format.
    pub content_type: &'static str,
    /// The body, as JSON.
    pub body: String,
    /// How long to wait for the response.
    pub timeout: Timeout,
}

/// What a client was set up with.
pub struct ClientView {
    pub base_url: Seq<char>,
    pub sender: Seq<char>,
    pub authorization_token: Seq<char>,
    pub timeout: Timeout,
}

/// The sender of all outbound email, set up once and then only read.
#[derive(Debug)]
pub struct EmailClient {
    base_url: String,
    sender: SubscriberEmail,
    authorization_token: Secret,
    timeout: Timeout,
}

impl View for EmailClient {
    type V = ClientView;

    closed spec fn view(&self) -> ClientView {
        ClientView {
            base_url: self.base_url@,
            sender: self.sender@,
            authorization_token: self.authorization_token@,
            timeout: self.timeout,
        }
    }
}

impl EmailClient {
    /// Sets a client up. Nothing is sent.
    pub fn new(
        base_url: String,
        sender: SubscriberEmail,
        authorization_token: Secret,
        timeout: Timeout,
    ) -> (client: EmailClient)
        ensures
            client@ == (ClientView {
                base_url: base_url@,
                sender: sender@,
                authorization_token: authorization_token@,
                timeout,
            }),
    {
        EmailClient { base_url, sender, authorization_token, timeout }
    }

    /// How long each request may take.
    pub fn timeout(&self) -> (timeout: Timeout)
        ensures
            timeout == self@.timeout,
    {
        self.timeout
    }

    /// The address that mail is sent from.
    pub fn sender(&self) -> (sender: &SubscriberEmail)
        ensures
            sender@ == self@.sender,
    {
        &self.sender
    }

    /// Where requests go: the base URL, then `/email`.
    pub fn endpoint(&self) -> (url: String)
        ensures
            url@ == self@.base_url + "/email"@,
    {
        self.base_url.clone().concat(PATH)
    }

    /// The message that a send to `recipient` carries: from the client's
    /// sender, with the texts as they are given.
    pub fn compose(
        &self,
        recipient: SubscriberEmail,
        subject: &str,
        html_content: &str,
        text_content: &str,
    ) -> (message: EmailMessage)
        ensures
            message@ == (MessageView {
                from: self@.sender,
                to: recipient@,
                subject: subject@,
                html_body: html_content@,
                text_body: text_content@,
            }),
    {
        EmailMessage::new(
            self.sender.clone(),
            recipient,
            String::from_str(subject),
            String::from_str(html_content),
            String::from_str(text_content),
        )
    }

    /// The one request of a send to `recipient`.
    pub fn request(
        &self,
        recipient: SubscriberEmail,
        subject: &str,
        html_content: &str,
        text_content: &str,
    ) -> (request: EmailRequest<'_>)
        ensures
            request.method@ == "POST"@,
            request.url@ == self@.base_url + "/email"@,
            request.token_header@ == "X-Postmark-Server-Token"@,
            request.authorization_token@ == self@.authorization_token,
            request.content_type_header@ == "Content-Type"@,
            request.content_type@ == "application/json"@,
            request.timeout == self@.timeout,
            request.body@ == message_json(
                MessageView {
                    from: self@.sender,
                    to: recipient@,
                    subject: subject@,
                    html_body: html_content@,
                    text_body: text_content@,
                },
            ),
    {
        let message = self.compose(recipient, subject, html_content, text_content);
        EmailRequest {
            method: METHOD,
            url: self.endpoint(),
            token_header: TOKEN_HEADER,
            authorization_token: &self.authorization_token,
            content_type_header: CONTENT_TYPE_HEADER,
            content_type: CONTENT_TYPE,
            body: message.to_json(),
            timeout: self.timeout,
        }
    }
}

/// A send succeeds on a response with a status from 200 to 299 and on
/// nothing else; a response with any other status is a rejection that
/// carries the status.
pub proof fn lemma_outcome(delivery: Delivery)
    ensures
        match delivery {
            Delivery::Responded { status } => if 200 <= status <= 299 {
                outcome_of(delivery) is Ok
            } else {
                outcome_of(delivery) == Err::<(), DispatchError>(
                    DispatchError::ServerRejected(status),
                )
            },
            _ => outcome_of(delivery) is Err,
        },
        delivery is TimedOut <==> outcome_of(delivery) == Err::<(), DispatchError>(
            DispatchError::Timeout,
        ),
        delivery is Failed <==> outcome_of(delivery) == Err::<(), DispatchError>(
            DispatchError::TransportFailure,
        ),
{
}

/// The body of a message, written out: five members under fixed keys, each
/// value a literal that stands for the field as it was given.
pub proof fn lemma_message_json_layout(message: MessageView)
    ensures
        message_json(message) == seq!['{'] + member("From"@, message.from) + seq![','] + member(
            "To"@,
            message.to,
        ) + seq![','] + member("Subject"@, message.subject) + seq![','] + member(
            "HtmlBody"@,
            message.html_body,
        ) + seq![','] + member("TextBody"@, message.text_body) + seq!['}'],
        literal_value(string_literal(message.from)) == Some(message.from),
        literal_value(string_literal(message.to)) == Some(message.to),
        literal_value(string_literal(message.subject)) == Some(message.subject),
        literal_value(string_literal(message.html_body)) == Some(message.html_body),
        literal_value(string_literal(message.text_body)) == Some(message.text_body),
{
    let pairs = seq![
        ("From"@, message.from),
        ("To"@, message.to),
        ("Subject"@, message.subject),
        ("HtmlBody"@, message.html_body),
        ("TextBody"@, message.text_body),
    ];
    let four = pairs.drop_last();
    let three = four.drop_last();
    let two = three.drop_last();
    let one = two.drop_last();
    assert(members(one) == member("From"@, message.from));
    assert(members(two) == members(one) + seq![','] + member("To"@, message.to));
    assert(members(three) == members(two) + seq![','] + member("Subject"@, message.subject));
    assert(members(four) == members(three) + seq![','] + member("HtmlBody"@, message.html_body));
    assert(members(pairs) == members(four) + seq![','] + member("TextBody"@, message.text_body));
    lemma_literal_reads_back(message.from);
    lemma_literal_reads_back(message.to);
    lemma_literal_reads_back(message.subject);
    lemma_literal_reads_back(message.html_body);
    lemma_literal_reads_back(message.text_body);
}

} // verus!
