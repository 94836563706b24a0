//! Email addresses, the identity key of every store.

use vstd::prelude::*;
use vstd::std_specs::cmp::PartialEqSpecImpl;
use vstd::string::StringExecFns;

verus! {

/// Whether `validator::validate_email` accepts the text `s`.
pub uninterp spec fn is_email_address(s: Seq<char>) -> bool;

/// Calls `validator::validate_email`, which checks a string against the
/// HTML5 shape of an email address. The answer depends on the text alone and
/// is what [`is_email_address`] names.
#[verifier::external_body]
fn validate_email(s: &str) -> (ok: bool)
    ensures
        ok == is_email_address(s@),
{
    validator::validate_email(s)
}

/// The message that rejects the text `s`.
pub open spec fn invalid_email_message(s: Seq<char>) -> Seq<char> {
    s + " is not a valid email"@
}

/// A string that has the shape of an email address.
#[derive(Debug, Eq, Hash)]
pub struct Email(String);

impl View for Email {
    type V = Seq<char>;

    closed spec fn view(&self) -> Seq<char> {
        self.0@
    }
}

impl Email {
    #[verifier::type_invariant]
    spec fn well_formed(self) -> bool {
        is_email_address(self.0@)
    }

    /// Accepts `s` exactly when it has the shape of an email address.
    pub fn parse(s: String) -> (r: Result<Email, String>)
        ensures
            match r {
                Ok(email) => is_email_address(s@) && email@ == s@,
                Err(message) => !is_email_address(s@) && message@ == invalid_email_message(s@),
            },
    {
        if validate_email(s.as_str()) {
            Ok(Email(s))
        } else {
            Err(s.concat(" is not a valid email"))
        }
    }
}

impl AsRef<str> for Email {
    /// The address as text, which has the shape of an email address.
    fn as_ref(&self) -> (s: &str)
        ensures
            s@ == self@,
            is_email_address(self@),
    {
        proof {
            use_type_invariant(self);
        }
        self.0.as_str()
    }
}

impl Clone for Email {
    fn clone(&self) -> (r: Self)
        ensures
            r@ == self@,
    {
        proof {
            use_type_invariant(self);
        }
        Email(self.0.clone())
    }
}

impl PartialEq for Email {
    fn eq(&self, other: &Self) -> (r: bool) {
        self.0 == other.0
    }
}

impl PartialEqSpecImpl for Email {
    open spec fn obeys_eq_spec() -> bool {
        true
    }

    open spec fn eq_spec(&self, other: &Self) -> bool {
        self@ == other@
    }
}

} // verus!
