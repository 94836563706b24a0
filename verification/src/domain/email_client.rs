//! The channel that carries two-factor codes to their owners.

use vstd::prelude::*;
use crate::domain::email::Email;

verus! {

/// Something that can deliver a message to an email address. Delivery
/// happens outside the library, so nothing is promised of the answer.
pub trait EmailClient {
    fn send_email(&self, recipient: &Email, subject: &str, content: &str) -> Result<(), String>;
}

} // verus!
