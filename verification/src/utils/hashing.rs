//! Salted, memory-hard password hashes in PHC string form.
//!
//! A hash of this library is the text
//! `$argon2id$v=19$m=15000,t=2,p=1$<salt>$<hash>`: algorithm, version and
//! cost parameters stand in front, so that checking a password needs the
//! string alone.

use vstd::prelude::*;
use crate::utils::text::{chars_of, decimal_text, is_digit};

verus! {

/// Memory cost of a new hash, in KiB.
pub const ARGON2_MEMORY_KIB: u32 = 15000;

/// Number of passes of a new hash.
pub const ARGON2_PASSES: u32 = 2;

/// Degree of parallelism of a new hash.
pub const ARGON2_LANES: u32 = 1;

/// The number of characters from which on a password is too long to hash.
pub const PASSWORD_CHARS_LIMIT: usize = 0x4000_0000;

/// What checking the password `candidate` against the PHC string `hash`
/// gives: `Some(true)` where it matches, `Some(false)` where the verifier
/// reports a mismatch, `None` where the string cannot be parsed or its
/// parameters are refused.
pub uninterp spec fn password_check(hash: Seq<char>, candidate: Seq<char>) -> Option<bool>;

/// What a PHC string of Argon2id, version 19, begins with under the cost
/// parameters `m_cost`, `t_cost` and `p_cost`.
pub open spec fn phc_header(m_cost: u32, t_cost: u32, p_cost: u32) -> Seq<char> {
    "$argon2id$v=19$m="@ + decimal_text(m_cost as nat) + ",t="@ + decimal_text(t_cost as nat)
        + ",p="@ + decimal_text(p_cost as nat) + "$"@
}

/// What every hash of this library begins with.
pub open spec fn standard_header() -> Seq<char> {
    "$argon2id$v=19$m=15000,t=2,p=1$"@
}

/// Whether `text` begins with `prefix`.
pub open spec fn begins_with(text: Seq<char>, prefix: Seq<char>) -> bool {
    prefix.len() <= text.len() && text.take(prefix.len() as int) == prefix
}

/// Whether the hasher accepts these cost parameters: at least eight KiB of
/// memory and eight per lane, at least one pass, and between one lane and
/// 2^24 - 1.
pub open spec fn costs_accepted(m_cost: u32, t_cost: u32, p_cost: u32) -> bool {
    &&& m_cost >= 8
    &&& m_cost >= 8 * p_cost
    &&& t_cost >= 1
    &&& 1 <= p_cost <= 0xFF_FFFF
}

/// The number of dollar signs in `s`.
pub open spec fn dollars(s: Seq<char>) -> nat
    decreases s.len(),
{
    if s.len() == 0 {
        0
    } else {
        dollars(s.drop_last()) + if s.last() == '$' {
            1nat
        } else {
            0nat
        }
    }
}

/// Whether `text` holds, from place `i` and before its fourth dollar sign,
/// the letters `p=` and nine digits.
pub open spec fn oversized_lanes_at(text: Seq<char>, i: int) -> bool {
    &&& 0 <= i && i + 11 <= text.len()
    &&& dollars(text.take(i)) < 4
    &&& text[i] == 'p' && text[i + 1] == '='
    &&& forall|k: int| 0 <= k < 9 ==> is_digit(#[trigger] text[i + 2 + k])
}

/// Whether `text` can be handed to the verifier. The verifier reads the cost
/// parameters from the part of a PHC string that stands before the fourth
/// dollar sign, where a parameter is a name, `=` and a decimal number
/// without leading zeros, and it multiplies the degree of parallelism, `p`,
/// by eight before it holds it against its limit of 2^24 - 1. A text that
/// writes no `p=` with nine digits or more there keeps that product small.
/// A text that does is no hash that the verifier would accept.
pub open spec fn lanes_safe(text: Seq<char>) -> bool {
    forall|i: int| !#[trigger] oversized_lanes_at(text, i)
}

/// What checking `candidate` against `hash` gives in this library: what the
/// verifier gives, where the text can be handed to it, and `None`
/// otherwise.
pub open spec fn hash_check(hash: Seq<char>, candidate: Seq<char>) -> Option<bool> {
    if lanes_safe(hash) {
        password_check(hash, candidate)
    } else {
        None
    }
}

/// Hashes `password` with the algorithm Argon2id, version 0x13, under a
/// fresh random salt: `SaltString::generate`, `Params::new`, `Argon2::new`
/// and `PasswordHasher::hash_password` of the `argon2` crate, the result
/// written as a PHC string. `Params::new` multiplies `p_cost` by eight and
/// refuses the costs that [`costs_accepted`] leaves out; the hasher refuses
/// a password of more than 2^32 - 1 bytes and nothing else. The string
/// begins with algorithm, version and the three costs in decimal, and it
/// verifies against the password it was made from, as the crate's
/// documentation shows. Of salt and hash, which follow, nothing is said.
#[verifier::external_body]
fn argon2id_hash(password: &str, m_cost: u32, t_cost: u32, p_cost: u32) -> (r: Option<String>)
    requires
        p_cost < 0x2000_0000,
    ensures
        match r {
            Some(hash) => password_check(hash@, password@) == Some(true) && begins_with(
                hash@,
                phc_header(m_cost, t_cost, p_cost),
            ),
            None => true,
        },
        costs_accepted(m_cost, t_cost, p_cost) && password@.len() < PASSWORD_CHARS_LIMIT ==> r
            is Some,
{
    let salt = argon2::password_hash::SaltString::generate(&mut rand::thread_rng());
    let params = argon2::Params::new(m_cost, t_cost, p_cost, None).ok()?;
    let hasher = argon2::Argon2::new(argon2::Algorithm::Argon2id, argon2::Version::V0x13, params);
    let hash = argon2::PasswordHasher::hash_password(&hasher, password.as_bytes(), &salt).ok()?;
    Some(hash.to_string())
}

/// Parses `hash` with `PasswordHash::new` and checks `candidate` against it
/// with `PasswordVerifier::verify_password` of the `argon2` crate, which
/// takes algorithm, parameters and salt from the string itself. The error
/// `Error::Password` is the mismatch; every other error is `None`. The
/// verifier multiplies the degree of parallelism that the string writes by
/// eight, in thirty-two bits: the texts that [`lanes_safe`] leaves out are
/// not handed to it.
#[verifier::external_body]
fn argon2_verify(hash: &str, candidate: &str) -> (r: Option<bool>)
    requires
        lanes_safe(hash@),
    ensures
        r == password_check(hash@, candidate@),
{
    let parsed = argon2::PasswordHash::new(hash).ok()?;
    let verifier = argon2::Argon2::default();
    match argon2::PasswordVerifier::verify_password(&verifier, candidate.as_bytes(), &parsed) {
        Ok(()) => Some(true),
        Err(argon2::password_hash::Error::Password) => Some(false),
        Err(_) => None,
    }
}

/// Why a password could not be hashed or checked.
#[derive(Debug, Clone, Copy, PartialEq, Eq, Structural)]
pub enum PasswordHashError {
    /// The hasher refused its input.
    HashingFailed,
    /// The stored string is no hash that can be checked.
    MalformedHash,
}

/// A text holds at least as many dollar signs as any of its prefixes.
pub proof fn lemma_dollars_grow(s: Seq<char>, i: int, j: int)
    requires
        0 <= i <= j <= s.len(),
    ensures
        dollars(s.take(i)) <= dollars(s.take(j)),
    decreases j - i,
{
    if i < j {
        lemma_dollars_grow(s, i, j - 1);
        assert(s.take(j).drop_last() =~= s.take(j - 1));
    }
}

/// The header of this library's hashes is the header of Argon2id under the
/// library's three costs.
pub proof fn lemma_standard_header()
    ensures
        standard_header() == phc_header(ARGON2_MEMORY_KIB, ARGON2_PASSES, ARGON2_LANES),
        standard_header().len() == 31,
        costs_accepted(ARGON2_MEMORY_KIB, ARGON2_PASSES, ARGON2_LANES),
{
    reveal_strlit("$argon2id$v=19$m=15000,t=2,p=1$");
    reveal_strlit("$argon2id$v=19$m=");
    reveal_strlit(",t=");
    reveal_strlit(",p=");
    reveal_strlit("$");
    reveal_with_fuel(decimal_text, 6);
    assert(decimal_text(1) =~= seq!['1']);
    assert(decimal_text(2) =~= seq!['2']);
    assert(decimal_text(15) =~= seq!['1', '5']);
    assert(decimal_text(150) =~= seq!['1', '5', '0']);
    assert(decimal_text(1500) =~= seq!['1', '5', '0', '0']);
    assert(decimal_text(15000) =~= seq!['1', '5', '0', '0', '0']);
    assert(standard_header() =~= phc_header(ARGON2_MEMORY_KIB, ARGON2_PASSES, ARGON2_LANES));
}

/// A text that begins with the header of this library's hashes can be
/// handed to the verifier and has more than eight characters.
pub proof fn lemma_standard_hash_safe(text: Seq<char>)
    requires
        begins_with(text, standard_header()),
    ensures
        lanes_safe(text),
        text.len() >= 31,
{
    let header = standard_header();
    reveal_strlit("$argon2id$v=19$m=15000,t=2,p=1$");
    assert(dollars(header) == 4) by {
        lemma_dollars_of_header();
    }
    assert forall|i: int| !#[trigger] oversized_lanes_at(text, i) by {
        if oversized_lanes_at(text, i) {
            if i >= 31 {
                lemma_dollars_grow(text, 31, i);
            } else {
                assert(forall|k: int| 0 <= k < 31 ==> text[k] == #[trigger] text.take(31)[k]);
                assert(text[i] == header[i]);
                if i < 30 {
                    assert(text[i + 1] == header[i + 1]);
                }
                assert(i == 27);
                assert(text[30] == header[30]);
                assert(is_digit(text[i + 2 + 1]));
            }
        }
    }
}

/// The header of this library's hashes holds four dollar signs.
proof fn lemma_dollars_of_header()
    ensures
        dollars(standard_header()) == 4,
{
    let header = standard_header();
    reveal_strlit("$argon2id$v=19$m=15000,t=2,p=1$");
    assert(header.take(31) =~= header);
    lemma_dollars_counted(header, 31);
    reveal_with_fuel(dollars_counted, 32);
}

/// The dollar signs among the first `n` characters of `s`, counted from
/// the left.
spec fn dollars_counted(s: Seq<char>, n: int) -> nat
    decreases n,
{
    if n <= 0 {
        0
    } else {
        dollars_counted(s, n - 1) + if s[n - 1] == '$' {
            1nat
        } else {
            0nat
        }
    }
}

/// Counting from the left gives the number of dollar signs of a prefix.
proof fn lemma_dollars_counted(s: Seq<char>, n: int)
    requires
        0 <= n <= s.len(),
    ensures
        dollars(s.take(n)) == dollars_counted(s, n),
    decreases n,
{
    if n > 0 {
        lemma_dollars_counted(s, n - 1);
        assert(s.take(n).drop_last() =~= s.take(n - 1));
    }
}

/// Whether the nine characters of `chars` from place `from` on are digits.
fn nine_digits(chars: &Vec<char>, from: usize) -> (r: bool)
    requires
        from + 9 <= chars.len(),
    ensures
        r == forall|k: int| 0 <= k < 9 ==> is_digit(#[trigger] chars@[from + k]),
{
    let mut k: usize = 0;
    while k < 9
        invariant
            k <= 9,
            from + 9 <= chars.len(),
            forall|j: int| 0 <= j < k ==> is_digit(#[trigger] chars@[from + j]),
        decreases 9 - k,
    {
        let c = chars[from + k];
        if !('0' <= c && c <= '9') {
            assert(!is_digit(chars@[from + k]));
            return false;
        }
        k = k + 1;
    }
    true
}

/// Whether `hash` can be handed to the verifier.
pub fn lanes_in_range(hash: &str) -> (r: bool)
    ensures
        r == lanes_safe(hash@),
{
    let chars = chars_of(hash);
    let n = chars.len();
    let mut i: usize = 0;
    let mut seen: usize = 0;
    assert(chars@.take(0) =~= Seq::<char>::empty());
    while i < n && seen < 4
        invariant
            i <= n,
            n == chars.len(),
            chars@ == hash@,
            seen <= 4,
            seen == dollars(chars@.take(i as int)),
            forall|j: int| 0 <= j < i ==> !#[trigger] oversized_lanes_at(chars@, j),
        decreases n - i,
    {
        if chars[i] == 'p' && n - i >= 11 && chars[i + 1] == '=' && nine_digits(&chars, i + 2) {
            proof {
                assert forall|k: int| 0 <= k < 9 implies is_digit(
                    #[trigger] chars@[i as int + 2 + k],
                ) by {
                    assert(chars@[(i + 2) as int + k] == chars@[i as int + 2 + k]);
                }
                assert(oversized_lanes_at(chars@, i as int));
            }
            return false;
        }
        proof {
            assert(chars@.take(i + 1).drop_last() =~= chars@.take(i as int));
            if oversized_lanes_at(chars@, i as int) {
                assert forall|k: int| 0 <= k < 9 implies is_digit(
                    #[trigger] chars@[(i + 2) as int + k],
                ) by {
                    assert(chars@[i as int + 2 + k] == chars@[(i + 2) as int + k]);
                }
            }
        }
        if chars[i] == '$' {
            seen = seen + 1;
        }
        i = i + 1;
    }
    proof {
        assert forall|j: int| !#[trigger] oversized_lanes_at(chars@, j) by {
            if j >= i && j + 11 <= n {
                lemma_dollars_grow(chars@, i as int, j);
            }
        }
    }
    true
}

/// Hashes `password` under a fresh salt, with Argon2id, version 19, and the
/// costs of this library. A password of less than 2^30 characters is
/// hashed. Whatever string comes back begins with algorithm, version and
/// costs, and verifies against `password`.
pub fn compute_password_hash(password: &str) -> (r: Result<String, PasswordHashError>)
    ensures
        match r {
            Ok(hash) => begins_with(hash@, standard_header()) && hash_check(hash@, password@)
                == Some(true),
            Err(e) => e == PasswordHashError::HashingFailed,
        },
        password@.len() < PASSWORD_CHARS_LIMIT ==> r is Ok,
{
    proof {
        lemma_standard_header();
    }
    match argon2id_hash(password, ARGON2_MEMORY_KIB, ARGON2_PASSES, ARGON2_LANES) {
        Some(hash) => {
            proof {
                lemma_standard_hash_safe(hash@);
            }
            Ok(hash)
        },
        None => Err(PasswordHashError::HashingFailed),
    }
}

/// Checks `candidate` against the stored `expected_hash`: `Ok(true)` on a
/// match, `Ok(false)` on a mismatch, and an error where the stored string
/// cannot be checked at all.
pub fn verify_password_hash(expected_hash: &str, candidate: &str) -> (r: Result<
    bool,
    PasswordHashError,
>)
    ensures
        r == verify_outcome(hash_check(expected_hash@, candidate@)),
{
    if !lanes_in_range(expected_hash) {
        return Err(PasswordHashError::MalformedHash);
    }
    match argon2_verify(expected_hash, candidate) {
        Some(matches) => Ok(matches),
        None => Err(PasswordHashError::MalformedHash),
    }
}

/// What [`verify_password_hash`] returns for each result of the check.
pub open spec fn verify_outcome(check: Option<bool>) -> Result<bool, PasswordHashError> {
    match check {
        Some(matches) => Ok(matches),
        None => Err(PasswordHashError::MalformedHash),
    }
}

} // verus!
