//! Raw passwords, validated for length when they are constructed.

use vstd::prelude::*;
use vstd::std_specs::cmp::PartialEqSpecImpl;
use vstd::string::StrSliceExecFns;

verus! {

/// The least number of characters a password may have.
pub const MIN_PASSWORD_LENGTH: usize = 8;

/// What a password's text must satisfy.
pub open spec fn is_valid_password(s: Seq<char>) -> bool {
    s.len() >= MIN_PASSWORD_LENGTH
}

/// The message that rejects a password which is too short.
pub open spec fn password_too_short_message() -> Seq<char> {
    "Password must be at least 8 characters long"@
}

/// A password of at least [`MIN_PASSWORD_LENGTH`] characters.
#[derive(Debug)]
pub struct Password(String);

impl View for Password {
    type V = Seq<char>;

    closed spec fn view(&self) -> Seq<char> {
        self.0@
    }
}

impl Password {
    #[verifier::type_invariant]
    spec fn well_formed(self) -> bool {
        is_valid_password(self.0@)
    }

    /// Accepts `s` exactly when it has at least eight characters.
    pub fn parse(s: String) -> (r: Result<Password, String>)
        ensures
            match r {
                Ok(p) => is_valid_password(s@) && p@ == s@,
                Err(m) => !is_valid_password(s@) && m@ == password_too_short_message(),
            },
    {
        if s.as_str().unicode_len() >= MIN_PASSWORD_LENGTH {
            Ok(Password(s))
        } else {
            Err("Password must be at least 8 characters long".to_owned())
        }
    }

}

impl AsRef<str> for Password {
    /// The password's text, which has at least eight characters.
    fn as_ref(&self) -> (s: &str)
        ensures
            s@ == self@,
            is_valid_password(self@),
    {
        proof {
            use_type_invariant(self);
        }
        self.0.as_str()
    }
}

impl Clone for Password {
    fn clone(&self) -> (r: Self)
        ensures
            r@ == self@,
    {
        proof {
            use_type_invariant(self);
        }
        Password(self.0.clone())
    }
}

impl PartialEq for Password {
    fn eq(&self, other: &Self) -> (r: bool) {
        self.0 == other.0
    }
}

impl PartialEqSpecImpl for Password {
    open spec fn obeys_eq_spec() -> bool {
        true
    }

    open spec fn eq_spec(&self, other: &Self) -> bool {
        self@ == other@
    }
}

} // verus!
