use crate::domain::email::Email;
use vstd::prelude::*;

verus! {

/// A message could not be handed over for delivery.
#[derive(Debug, Clone, Copy, PartialEq, Eq, Structural)]
pub enum EmailClientError {
    DeliveryFailed,
}

/// Sends a message to an identity out of band. Whether it arrives is the
/// collaborator's affair: nothing is promised of the answer here.
pub trait EmailClient {
    fn send_email(&self, recipient: &Email, subject: &str, content: &str) -> Result<
        (),
        EmailClientError,
    >;
}

} // verus!
