//! The identity of an action: a checksum of where it is exported.

use sha1::Digest;
use vstd::prelude::*;
use vstd::utf8::encode_utf8;

verus! {

/// The SHA-1 digest of a byte string.
pub uninterp spec fn sha1_digest(data: Seq<u8>) -> Seq<u8>;

/// The hexadecimal digit of a number below sixteen, in lower case.
pub open spec fn hex_digit(d: int) -> char {
    if d < 10 {
        (48 + d) as char
    } else {
        (87 + d) as char
    }
}

/// Bytes in hexadecimal notation: for each byte the digit of its upper half,
/// then the digit of its lower half.
pub open spec fn hex_text(data: Seq<u8>) -> Seq<char> {
    Seq::new(
        2 * data.len(),
        |i: int|
            if i % 2 == 0 {
                hex_digit(data[i / 2] as int / 16)
            } else {
                hex_digit(data[i / 2] as int % 16)
            },
    )
}

/// The identity of the action that a file exports under a name: the SHA-1
/// digest of the file name, a colon and the export name, in hexadecimal.
pub open spec fn action_id(file_name: Seq<char>, export_name: Seq<char>) -> Seq<char> {
    hex_text(sha1_digest(action_location(file_name, export_name)))
}

/// What the identity of an action is the digest of.
pub open spec fn action_location(file_name: Seq<char>, export_name: Seq<char>) -> Seq<u8> {
    encode_utf8(file_name) + seq![58u8] + encode_utf8(export_name)
}

/// Calls `sha1::Sha1::digest`. Claimed of it: the result is a function of the
/// bytes alone, and it is twenty bytes long.
#[verifier::external_body]
fn sha1_of(data: &[u8]) -> (digest: Vec<u8>)
    ensures
        digest@ == sha1_digest(data@),
        digest@.len() == 20,
{
    sha1::Sha1::digest(data).to_vec()
}

/// Calls `hex::encode`. Claimed of it: the result writes each byte as two
/// hexadecimal digits in lower case, the upper half first. The bound keeps the
/// length of the result within what a string can hold.
#[verifier::external_body]
fn hex_of(data: &[u8]) -> (text: String)
    requires
        2 * data@.len() <= isize::MAX,
    ensures
        text@ == hex_text(data@),
{
    hex::encode(data)
}

/// A digest as text.
pub fn digest_text(digest: &Vec<u8>) -> (text: String)
    requires
        2 * digest@.len() <= isize::MAX,
    ensures
        text@ == hex_text(digest@),
{
    hex_of(digest.as_slice())
}

/// The bytes that the identity of an action is the digest of.
pub fn location_bytes(file_name: &str, export_name: &str) -> (bytes: Vec<u8>)
    ensures
        bytes@ == action_location(file_name@, export_name@),
{
    let mut bytes: Vec<u8> = Vec::new();
    bytes.extend_from_slice(file_name.as_bytes());
    bytes.push(58u8);
    bytes.extend_from_slice(export_name.as_bytes());
    assert(bytes@ =~= action_location(file_name@, export_name@));
    bytes
}

/// The identity of the action that a file exports under a name.
pub fn compute_action_id(file_name: &str, export_name: &str) -> (id: String)
    ensures
        id@ == action_id(file_name@, export_name@),
        id@.len() == 40,
{
    let bytes = location_bytes(file_name, export_name);
    let digest = sha1_of(bytes.as_slice());
    digest_text(&digest)
}

} // verus!
