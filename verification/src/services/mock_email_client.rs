use crate::domain::email::Email;
use crate::domain::email_client::{EmailClient, EmailClientError};
use vstd::prelude::*;

verus! {

/// A stand-in that takes every message and sends none.
#[derive(Debug, Clone, Copy)]
pub struct MockEmailClient;

impl EmailClient for MockEmailClient {
    fn send_email(&self, recipient: &Email, subject: &str, content: &str) -> (outcome: Result<
        (),
        EmailClientError,
    >)
        ensures
            outcome is Ok,
    {
        Ok(())
    }
}

} // verus!
