//! A notification channel that delivers nothing.

use vstd::prelude::*;
use crate::domain::email::Email;
use crate::domain::email_client::EmailClient;

verus! {

/// An email client for tests and local runs: every message counts as sent
/// and none leaves the process.
pub struct MockEmailClient;

impl EmailClient for MockEmailClient {
    fn send_email(&self, recipient: &Email, subject: &str, content: &str) -> (r: Result<
        (),
        String,
    >)
        ensures
            r is Ok,
    {
        Ok(())
    }
}

} // verus!
