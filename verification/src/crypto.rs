//! The framing of stored keys: the CBOR self-description tag and the
//! URL-safe base64 text that carries it.

use base64ct::{Base64UrlUnpadded, Encoding};
use vstd::prelude::*;
use vstd::slice::slice_subrange;

use crate::bytes::push_all;
use crate::error::Error;

verus! {

/// The three bytes that mark self-described CBOR.
pub const CBOR_TAG: [u8; 3] = [0xd9, 0xd9, 0xf7];

/// The data with the tag in front.
pub open spec fn spec_wrap_cbor_tag(data: Seq<u8>) -> Seq<u8> {
    CBOR_TAG@ + data
}

/// Whether the data is longer than the tag and begins with it.
pub open spec fn has_cbor_tag(data: Seq<u8>) -> bool {
    data.len() > 3 && data.subrange(0, 3) == CBOR_TAG@
}

/// The data without the tag in front, or the data itself where it does
/// not begin with the tag or holds nothing after it.
pub open spec fn spec_unwrap_cbor_tag(data: Seq<u8>) -> Seq<u8> {
    if has_cbor_tag(data) {
        data.subrange(3, data.len() as int)
    } else {
        data
    }
}

/// Puts the tag in front of the data.
pub fn wrap_cbor_tag(data: &[u8]) -> (r: Vec<u8>)
    ensures
        r@ == spec_wrap_cbor_tag(data@),
{
    let mut buf: Vec<u8> = Vec::new();
    push_all(&mut buf, &CBOR_TAG);
    push_all(&mut buf, data);
    buf
}

/// Takes the tag off the front of the data, if it is there and something
/// follows it.
pub fn unwrap_cbor_tag(data: &[u8]) -> (r: &[u8])
    ensures
        r@ == spec_unwrap_cbor_tag(data@),
{
    if data.len() > 3 && data[0] == CBOR_TAG[0] && data[1] == CBOR_TAG[1] && data[2]
        == CBOR_TAG[2] {
        assert(data@.subrange(0, 3) =~= CBOR_TAG@);
        slice_subrange(data, 3, data.len())
    } else {
        assert(!has_cbor_tag(data@)) by {
            if data@.len() > 3 {
                assert(data@.subrange(0, 3)[0] == data@[0]);
                assert(data@.subrange(0, 3)[1] == data@[1]);
                assert(data@.subrange(0, 3)[2] == data@[2]);
            }
        }
        data
    }
}

/// What was wrapped comes out again, unless it was empty: the tag alone is
/// not taken for tagged data.
pub proof fn law_unwrap_wrap(data: Seq<u8>)
    requires
        data.len() > 0,
    ensures
        spec_unwrap_cbor_tag(spec_wrap_cbor_tag(data)) == data,
{
    let w = spec_wrap_cbor_tag(data);
    assert(w.subrange(0, 3) =~= CBOR_TAG@);
    assert(w.subrange(3, w.len() as int) =~= data);
}

/// The unpadded URL-safe base64 text of some bytes.
pub uninterp spec fn base64url_text(data: Seq<u8>) -> Seq<char>;

/// The bytes that an unpadded URL-safe base64 text stands for, if it is
/// such a text.
pub uninterp spec fn base64url_bytes(text: Seq<char>) -> Option<Seq<u8>>;

/// `Base64UrlUnpadded::encode_string` of the crate `base64ct`: the text of
/// the bytes in the URL-safe alphabet without padding. It stops the
/// process on an input of more than a quarter of the greatest length.
#[verifier::external_body]
fn encode_base64url(data: &[u8]) -> (r: String)
    requires
        data@.len() <= usize::MAX / 4,
    ensures
        r@ == base64url_text(data@),
{
    Base64UrlUnpadded::encode_string(data)
}

/// `Base64UrlUnpadded::decode_vec` of the crate `base64ct`: the bytes of a
/// text in the URL-safe alphabet without padding, or nothing where the
/// crate reports an error because the text is none.
#[verifier::external_body]
fn decode_base64url(text: &str) -> (r: Option<Vec<u8>>)
    ensures
        match base64url_bytes(text@) {
            Some(b) => r is Some && r->0@ == b,
            None => r is None,
        },
{
    Base64UrlUnpadded::decode_vec(text).ok()
}

/// The bytes as unpadded URL-safe base64 text.
pub fn base64url_encode(data: &[u8]) -> (r: String)
    requires
        data@.len() <= usize::MAX / 4,
    ensures
        r@ == base64url_text(data@),
{
    encode_base64url(data)
}

/// The bytes of an unpadded URL-safe base64 text; any other text is
/// refused.
pub fn base64url_decode(text: &str) -> (r: Result<Vec<u8>, Error>)
    ensures
        match base64url_bytes(text@) {
            Some(b) => r is Ok && r->Ok_0@ == b,
            None => r == Err::<Vec<u8>, Error>(Error::InvalidArgument),
        },
{
    match decode_base64url(text) {
        Some(bytes) => Ok(bytes),
        None => Err(Error::InvalidArgument),
    }
}

} // verus!
