//! The text form of a preview frame handed to the desktop front end.

use vstd::prelude::*;
use base64::Engine;

verus! {

/// The standard, padded base64 text of `b`.
pub uninterp spec fn base64_of(b: Seq<u8>) -> Seq<char>;

/// Relies on base64's `STANDARD.encode`: padded base64 of the bytes, four
/// characters for every started group of three. It panics only when that
/// length overflows `usize`.
#[verifier::external_body]
fn encode_standard(b: &Vec<u8>) -> (r: String)
    requires
        b@.len() <= usize::MAX / 2,
    ensures
        r@ == base64_of(b@),
        r@.len() == 4 * ((b@.len() + 2) / 3),
{
    base64::engine::general_purpose::STANDARD.encode(b)
}

/// The payload of a preview event for one frame: the frame in padded base64.
pub fn preview_payload(frame: &Vec<u8>) -> (r: String)
    requires
        frame@.len() <= usize::MAX / 2,
    ensures
        r@ == base64_of(frame@),
        r@.len() == 4 * ((frame@.len() + 2) / 3),
{
    encode_standard(frame)
}

} // verus!
