//! Subscriber identities that exist only once they have passed validation.

pub mod new_subscriber;
pub mod rejection;
pub mod subscriber_email;
pub mod subscriber_name;

pub use new_subscriber::FormData;
pub use new_subscriber::NewSubscriber;
pub use rejection::Field;
pub use rejection::Rejection;
pub use rejection::ValidationError;
pub use subscriber_email::SubscriberEmail;
pub use subscriber_name::SubscriberName;
