//! A sign-up: raw as it arrives, and validated.

use crate::domain::rejection::Field;
use crate::domain::rejection::Rejection;
use crate::domain::subscriber_email::email_rejection;
use crate::domain::subscriber_email::is_valid_email;
use crate::domain::subscriber_email::SubscriberEmail;
use crate::domain::subscriber_name::grapheme_count;
use crate::domain::subscriber_name::is_valid_name;
use crate::domain::subscriber_name::name_rejection;
use crate::domain::subscriber_name::SubscriberName;
use vstd::prelude::*;

verus! {

/// The two fields of a sign-up form, as the subscriber typed them.
#[derive(Debug, Clone)]
pub struct FormData {
    pub name: String,
    pub email: String,
}

/// A sign-up whose name and address have both passed validation.
#[derive(Debug)]
pub struct NewSubscriber {
    pub email: SubscriberEmail,
    pub name: SubscriberName,
}

impl NewSubscriber {
    /// Validates both fields of a form. The name is judged first: where both
    /// fields are refused, the rejection is the name's.
    pub fn parse(form: FormData) -> (parsed: Result<NewSubscriber, Rejection>)
        ensures
            parsed is Ok <==> is_valid_name(form.name@) && is_valid_email(form.email@),
            match parsed {
                Ok(subscriber) => {
                    &&& subscriber.name@ == form.name@
                    &&& subscriber.email@ == form.email@
                },
                Err(rejection) => if is_valid_name(form.name@) {
                    &&& rejection.field == Field::Email
                    &&& Some(rejection.reason) == email_rejection(form.email@)
                    &&& rejection.input@ == form.email@
                } else {
                    &&& rejection.field == Field::Name
                    &&& Some(rejection.reason) == name_rejection(
                        form.name@,
                        grapheme_count(form.name@),
                    )
                    &&& rejection.input@ == form.name@
                },
            },
    {
        let name = match SubscriberName::parse(form.name) {
            Ok(name) => name,
            Err(rejection) => {
                return Err(rejection);
            },
        };
        match SubscriberEmail::parse(form.email) {
            Ok(email) => Ok(NewSubscriber { email, name }),
            Err(rejection) => Err(rejection),
        }
    }
}

} // verus!
