//! Base64 through the `base64` crate's standard engine.

use vstd::prelude::*;
use base64::Engine;

verus! {

/// What the `base64` crate's `STANDARD` engine (standard alphabet,
/// canonical padding required) decodes `input` to; `None` where it reports
/// an error.
pub uninterp spec fn base64_standard_decode(input: Seq<u8>) -> Option<Seq<u8>>;

/// What the `base64` crate's `STANDARD` engine encodes `data` to.
pub uninterp spec fn base64_standard_encode(data: Seq<u8>) -> Seq<char>;

/// Decodes `input` with `base64::engine::general_purpose::STANDARD.decode`.
/// Trusted: the contract names the decoded bytes `base64_standard_decode`,
/// a function of the input alone, and says that an error comes exactly
/// where that name has no value. The error's text (the crate's `Display`
/// of its `DecodeError`) is left unstated.
#[verifier::external_body]
pub(crate) fn base64_decode(input: &[u8]) -> (res: Result<Vec<u8>, String>)
    ensures
        res is Ok <==> base64_standard_decode(input@) is Some,
        res matches Ok(v) ==> base64_standard_decode(input@) == Some(v@),
{
    base64::engine::general_purpose::STANDARD.decode(input).map_err(|e| e.to_string())
}

/// `c` is a character of the standard base64 alphabet (`A`-`Z`, `a`-`z`,
/// `0`-`9`, `+`, `/`) or the padding character `=`.
pub open spec fn is_standard_base64_char(c: char) -> bool {
    ||| 'A' <= c <= 'Z'
    ||| 'a' <= c <= 'z'
    ||| '0' <= c <= '9'
    ||| c == '+'
    ||| c == '/'
    ||| c == '='
}

/// Encodes `data` with `base64::engine::general_purpose::STANDARD.encode`.
/// Trusted: the contract names the result `base64_standard_encode`, a
/// function of the input alone; states that it is written in the standard
/// alphabet with `=` padding, which is what the `STANDARD` engine is
/// configured with; and that the same engine decodes it back to `data`:
/// the encoder writes canonical padding and zero trailing bits, which is
/// exactly what the engine's decoder requires.
#[verifier::external_body]
pub(crate) fn base64_encode(data: &[u8]) -> (res: String)
    ensures
        res@ == base64_standard_encode(data@),
        forall|i: int| 0 <= i < res@.len() ==> is_standard_base64_char(#[trigger] res@[i]),
        base64_standard_decode(vstd::utf8::encode_utf8(res@)) == Some(data@),
{
    base64::engine::general_purpose::STANDARD.encode(data)
}

} // verus!
