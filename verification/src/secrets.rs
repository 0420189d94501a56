//! Digests and random tokens: SHA-512 fingerprints (stored passwords and
//! upload file names) and random alphanumeric strings (signatures,
//! generated passwords, aliases).

use vstd::prelude::*;
use crypto::digest::Digest;
use rand::Rng;
use crate::text::push_char;

verus! {

/// The lowercase hexadecimal SHA-512 digest of the UTF-8 bytes of a text.
pub uninterp spec fn sha512_hex_spec(s: Seq<char>) -> Seq<char>;

pub open spec fn is_lower_hex(c: char) -> bool {
    ('0' <= c && c <= '9') || ('a' <= c && c <= 'f')
}

pub open spec fn is_ascii_alphanumeric(c: char) -> bool {
    ('0' <= c && c <= '9') || ('a' <= c && c <= 'z') || ('A' <= c && c <= 'Z')
}

/// rust-crypto's `Sha512` fed with `input_str(s)`, read with `result_str()`.
/// The result is named by `sha512_hex_spec`; the source also shows it has
/// 128 characters (512 bits, two per byte) drawn from `0123456789abcdef`.
#[verifier::external_body]
pub(crate) fn sha512_hex(s: &str) -> (res: String)
    ensures
        res@ == sha512_hex_spec(s@),
        res@.len() == 128,
        forall|i: int| 0 <= i < res@.len() ==> is_lower_hex(#[trigger] res@[i]),
{
    let mut hasher = crypto::sha2::Sha512::new();
    hasher.input_str(s);
    hasher.result_str()
}

/// One character drawn by rand's `thread_rng` from the `Alphanumeric`
/// distribution, which the source draws from `A-Z`, `a-z` and `0-9`. Which
/// character comes out is left open: it depends on the random generator.
#[verifier::external_body]
fn random_alphanumeric_char() -> (c: char)
    ensures
        is_ascii_alphanumeric(c),
{
    rand::thread_rng().sample(rand::distributions::Alphanumeric)
}

/// `len` random letters and digits.
pub(crate) fn random_alphanumeric(len: usize) -> (res: String)
    ensures
        res@.len() == len,
        forall|i: int| 0 <= i < res@.len() ==> is_ascii_alphanumeric(#[trigger] res@[i]),
{
    let mut res = String::new();
    let mut k: usize = 0;
    while k < len
        invariant
            k <= len,
            res@.len() == k,
            forall|i: int| 0 <= i < res@.len() ==> is_ascii_alphanumeric(#[trigger] res@[i]),
        decreases len - k,
    {
        let c = random_alphanumeric_char();
        push_char(&mut res, c);
        k = k + 1;
    }
    res
}

/// A fresh signature for a chat transaction: 64 random alphanumeric characters.
pub fn sign_hash() -> (res: String)
    ensures
        res@.len() == 64,
        forall|i: int| 0 <= i < res@.len() ==> is_ascii_alphanumeric(#[trigger] res@[i]),
{
    random_alphanumeric(64)
}

/// The signature that marks a transaction as settled by the system.
pub fn sys_sign() -> (res: String)
    ensures
        res@ == "SignedAsSystem"@,
{
    String::from_str("SignedAsSystem")
}

} // verus!
