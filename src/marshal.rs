use vstd::prelude::*;
use vstd::string::*;
use vstd::utf8::*;

use crate::error::BridgeError;

verus! {

broadcast use encode_utf8_decode_utf8, encode_utf8_valid_utf8;

/// The null-terminated form of `text`: its UTF-8 bytes then a zero byte, or
/// `None` when a zero byte within the text would cut it short.
pub open spec fn null_terminated(text: Seq<char>) -> Option<Seq<u8>> {
    if encode_utf8(text).contains(0u8) {
        None
    } else {
        Some(encode_utf8(text).push(0u8))
    }
}

/// Relies on std::str::from_utf8: it accepts exactly the valid UTF-8 byte
/// sequences, and the text it gives back has those same bytes.
#[verifier::external_body]
fn utf8_text(bytes: &[u8]) -> (r: Option<String>)
    ensures
        r is Some <==> valid_utf8(bytes@),
        r matches Some(s) ==> encode_utf8(s@) == bytes@,
{
    match std::str::from_utf8(bytes) {
        Ok(s) => Some(s.to_owned()),
        Err(_) => None,
    }
}

/// Reads the caller's props document: the bytes before its terminating zero,
/// taken as UTF-8. The bytes are only borrowed.
pub fn decode_input(raw: &[u8]) -> (r: Result<String, BridgeError>)
    ensures
        r is Ok <==> valid_utf8(raw@),
        r matches Ok(s) ==> s@ == decode_utf8(raw@),
        r is Err ==> r == Err::<String, BridgeError>(BridgeError::InvalidInputEncoding),
{
    match utf8_text(raw) {
        Some(s) => {
            proof {
                assert(decode_utf8(encode_utf8(s@)) == s@);
            }
            Ok(s)
        },
        None => Err(BridgeError::InvalidInputEncoding),
    }
}

/// Writes rendered text for the caller: a new buffer holding its UTF-8 bytes
/// and a terminating zero. Text that holds a zero byte has no such form.
pub fn encode_output(value: &str) -> (r: Result<Vec<u8>, BridgeError>)
    ensures
        null_terminated(value@) matches Some(b) ==> r matches Ok(v) && v@ == b,
        null_terminated(value@) is None ==> r == Err::<Vec<u8>, BridgeError>(
            BridgeError::EncodingError,
        ),
{
    let bytes = value.as_bytes();
    let mut out: Vec<u8> = Vec::new();
    let mut i: usize = 0;
    while i < bytes.len()
        invariant
            bytes@ == encode_utf8(value@),
            i <= bytes@.len(),
            out@ == bytes@.subrange(0, i as int),
            forall|j: int| 0 <= j < i ==> bytes@[j] != 0u8,
        decreases bytes@.len() - i,
    {
        if bytes[i] == 0u8 {
            proof {
                assert(bytes@[i as int] == 0u8);
                assert(encode_utf8(value@).contains(0u8));
            }
            return Err(BridgeError::EncodingError);
        }
        out.push(bytes[i]);
        i = i + 1;
        proof {
            assert(out@ == bytes@.subrange(0, i as int));
        }
    }
    proof {
        assert(out@ == bytes@);
        assert(!encode_utf8(value@).contains(0u8));
    }
    out.push(0u8);
    Ok(out)
}

/// Text crosses the boundary unchanged: when rendered text holds no zero
/// byte, its null-terminated form exists, and the bytes before the zero read
/// back as the same text.
pub proof fn lemma_boundary_round_trip(text: Seq<char>)
    requires
        !encode_utf8(text).contains(0u8),
    ensures
        null_terminated(text) is Some,
        valid_utf8(null_terminated(text).unwrap().drop_last()),
        decode_utf8(null_terminated(text).unwrap().drop_last()) == text,
{
    assert(null_terminated(text).unwrap().drop_last() == encode_utf8(text));
}

} // verus!
