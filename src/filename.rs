//! Report file names derived from URLs by content hashing.
//!
//! A name is `{prefix}_{hash}.html`, where `hash` is the first twelve
//! lowercase hexadecimal digits of the SHA-256 digest of the URL's UTF-8
//! bytes. Equal URLs give equal names, in every run.

use crate::digest::{sha256, sha256_of};
use crate::text::{is_lower_hex_char, lemma_lower_hex, lower_hex, push_char, push_hex};
use vstd::prelude::*;
use vstd::utf8::encode_utf8;

verus! {

/// Number of digest bytes kept in a name: twelve hexadecimal digits.
pub const HASH_BYTES: usize = 6;

/// The extension every report name ends with.
pub open spec fn html_suffix() -> Seq<char> {
    seq!['.', 'h', 't', 'm', 'l']
}

/// The hash part of a name: the first `HASH_BYTES` digest bytes in hex.
pub open spec fn short_hash(digest: Seq<u8>) -> Seq<char> {
    lower_hex(digest.take(HASH_BYTES as int))
}

/// The name built from a prefix and a digest.
pub open spec fn name_for_digest(prefix: Seq<char>, digest: Seq<u8>) -> Seq<char> {
    prefix.push('_') + short_hash(digest) + html_suffix()
}

/// The name of the report for `url`.
pub open spec fn name_for_url(url: Seq<char>, prefix: Seq<char>) -> Seq<char> {
    name_for_digest(prefix, sha256_of(encode_utf8(url)))
}

/// `n` is `prefix`, an underscore, twelve lowercase hex digits and `.html`.
pub open spec fn name_shaped(n: Seq<char>, prefix: Seq<char>) -> bool {
    let p = prefix.len() as int + 1;
    &&& n.len() == p + 2 * HASH_BYTES + 5
    &&& n.take(p) == prefix.push('_')
    &&& n.skip(n.len() - 5) == html_suffix()
    &&& forall|i: int| p <= i < p + 2 * HASH_BYTES ==> is_lower_hex_char(#[trigger] n[i])
}

/// Builds `{prefix}_{hash}.html` from an already computed digest.
pub fn filename_from_digest(digest: &[u8], prefix: &str) -> (r: String)
    requires
        digest@.len() >= HASH_BYTES,
    ensures
        r@ == name_for_digest(prefix@, digest@),
{
    let mut s = prefix.to_owned();
    push_char(&mut s, '_');
    push_hex(&mut s, digest, HASH_BYTES);
    push_char(&mut s, '.');
    push_char(&mut s, 'h');
    push_char(&mut s, 't');
    push_char(&mut s, 'm');
    push_char(&mut s, 'l');
    assert(s@ =~= name_for_digest(prefix@, digest@));
    s
}

/// Converts a URL into a safe report file name: the prefix, an underscore,
/// twelve hex digits of the URL's SHA-256 digest, and `.html`.
pub fn url_to_filename(url: &str, prefix: &str) -> (r: String)
    ensures
        r@ == name_for_url(url@, prefix@),
        name_shaped(r@, prefix@),
{
    let digest = sha256(url.as_bytes());
    proof {
        lemma_name_shape(digest@, prefix@);
    }
    filename_from_digest(digest.as_slice(), prefix)
}

/// Every name built from a full digest starts with the prefix and an
/// underscore, ends with `.html`, and holds exactly twelve lowercase
/// hexadecimal digits between the two.
pub proof fn lemma_name_shape(digest: Seq<u8>, prefix: Seq<char>)
    requires
        digest.len() == 32,
    ensures
        name_shaped(name_for_digest(prefix, digest), prefix),
{
    lemma_lower_hex(digest.take(HASH_BYTES as int));
    let n = name_for_digest(prefix, digest);
    let p = prefix.len() as int + 1;
    assert(n.take(p) =~= prefix.push('_'));
    assert(n.skip(n.len() - 5) =~= html_suffix());
    assert forall|i: int| p <= i < p + 2 * HASH_BYTES implies is_lower_hex_char(#[trigger] n[i]) by {
        assert(n[i] == short_hash(digest)[i - p]);
    }
}

/// Equal URLs under one prefix always get the same name.
pub proof fn lemma_name_deterministic(u1: Seq<char>, u2: Seq<char>, prefix: Seq<char>)
    requires
        u1 == u2,
    ensures
        name_for_url(u1, prefix) == name_for_url(u2, prefix),
{
}

} // verus!
