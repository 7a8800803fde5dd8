//! The signing secret that a new project's settings start with.
use rand::Rng;
use vstd::prelude::*;

verus! {

/// Length of a signing secret, in characters.
pub const JWT_SECRET_LEN: usize = 32;

/// Whether `c` is an ASCII letter or digit.
pub open spec fn is_ascii_alphanumeric(c: char) -> bool {
    ('a' <= c && c <= 'z') || ('A' <= c && c <= 'Z') || ('0' <= c && c <= '9')
}

/// Whether `s` is `len` ASCII letters and digits.
pub open spec fn is_alphanumeric_text(s: Seq<char>, len: nat) -> bool {
    &&& s.len() == len
    &&& forall|i: int| 0 <= i < s.len() ==> is_ascii_alphanumeric(#[trigger] s[i])
}

/// Whether `s` has the shape of a signing secret: thirty-two ASCII letters and digits.
pub open spec fn is_jwt_secret(s: Seq<char>) -> bool {
    is_alphanumeric_text(s, JWT_SECRET_LEN as nat)
}

/// Draws `len` letters and digits from the thread's random generator.
///
/// Trusted: the body samples `rand::distributions::Alphanumeric` `len` times through
/// `rand::Rng::sample_iter`. Each sample is one byte out of `A-Z`, `a-z`, `0-9`, so the
/// contract claims the length and the alphabet, and nothing about which characters come.
/// The generator seeds itself from the operating system when a thread first uses it, and
/// panics if the system has no randomness to give; no argument can rule that out.
#[verifier::external_body]
fn random_alphanumeric(len: usize) -> (text: String)
    ensures
        is_alphanumeric_text(text@, len as nat),
{
    rand::thread_rng().sample_iter(&rand::distributions::Alphanumeric).take(len).map(char::from).collect()
}

/// Draws a signing secret. Two calls give different secrets, but for chance.
pub fn generate_jwt_secret() -> (secret: String)
    ensures
        is_jwt_secret(secret@),
{
    random_alphanumeric(JWT_SECRET_LEN)
}

} // verus!
