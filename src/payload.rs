//! Image payloads: data URIs of the form `data:<mime>;base64,<payload>`.

use vstd::prelude::*;
use vstd::string::StrSliceExecFns;
use base64::Engine;
use crate::raster::{decode_image, decoded_raster, Raster, RasterModel};

verus! {

/// Why an image payload could not be turned into a raster.
#[derive(Debug, Clone, Copy, PartialEq, Eq)]
pub enum DecodeError {
    /// The text holds no `,` separating the header from the data.
    NotDataUri,
    /// The data after the `,` is not standard base64.
    InvalidBase64,
    /// The bytes are no image of a known format.
    InvalidImage,
}

/// What base64's standard engine (padded alphabet with `+` and `/`) decodes
/// the text to, or `None` where it rejects it.
pub uninterp spec fn base64_standard_decoded(text: Seq<char>) -> Option<Seq<u8>>;

/// Relies on base64's `general_purpose::STANDARD.decode`.
#[verifier::external_body]
fn base64_decode(text: &str) -> (r: Option<Vec<u8>>)
    ensures
        match r {
            Some(bytes) => base64_standard_decoded(text@) == Some(bytes@),
            None => base64_standard_decoded(text@) is None,
        },
{
    base64::engine::general_purpose::STANDARD.decode(text).ok()
}

/// The text after the first `,`, or `None` where there is none.
pub open spec fn data_after_comma(s: Seq<char>) -> Option<Seq<char>>
    decreases s.len(),
{
    if s.len() == 0 {
        None
    } else if s[0] == ',' {
        Some(s.drop_first())
    } else {
        data_after_comma(s.drop_first())
    }
}

/// What a payload decodes to: the raster, or the first stage that failed.
pub open spec fn payload_result(s: Seq<char>) -> Result<RasterModel, DecodeError> {
    match data_after_comma(s) {
        None => Err(DecodeError::NotDataUri),
        Some(data) => match base64_standard_decoded(data) {
            None => Err(DecodeError::InvalidBase64),
            Some(bytes) => match decoded_raster(bytes) {
                None => Err(DecodeError::InvalidImage),
                Some(img) => Ok(img),
            },
        },
    }
}

proof fn lemma_data_after_comma_skip(s: Seq<char>, i: int)
    requires
        0 <= i < s.len(),
        s[i] != ',',
    ensures
        data_after_comma(s.subrange(i, s.len() as int)) == data_after_comma(
            s.subrange(i + 1, s.len() as int),
        ),
{
    assert(s.subrange(i, s.len() as int).drop_first() =~= s.subrange(i + 1, s.len() as int));
}

/// The part of a data URI after its first `,`.
pub fn data_uri_body(s: &str) -> (r: Option<&str>)
    ensures
        match r {
            Some(body) => data_after_comma(s@) == Some(body@),
            None => data_after_comma(s@) is None,
        },
{
    let n: usize = s.unicode_len();
    let mut i: usize = 0;
    assert(s@.subrange(0, n as int) =~= s@);
    while i < n
        invariant
            i <= n,
            n == s@.len(),
            data_after_comma(s@) == data_after_comma(s@.subrange(i as int, n as int)),
        decreases n - i,
    {
        if s.get_char(i) == ',' {
            let body = s.substring_char(i + 1, n);
            assert(s@.subrange(i as int, n as int).drop_first() =~= body@);
            return Some(body);
        }
        proof {
            lemma_data_after_comma_skip(s@, i as int);
        }
        i = i + 1;
    }
    None
}

/// Decodes a data URI payload into a raster.
pub fn decode_payload(s: &str) -> (r: Result<Raster, DecodeError>)
    ensures
        match r {
            Ok(img) => payload_result(s@) == Ok::<RasterModel, DecodeError>(img.model())
                && img.wf(),
            Err(e) => payload_result(s@) == Err::<RasterModel, DecodeError>(e),
        },
{
    let body = match data_uri_body(s) {
        Some(body) => body,
        None => return Err(DecodeError::NotDataUri),
    };
    let bytes = match base64_decode(body) {
        Some(bytes) => bytes,
        None => return Err(DecodeError::InvalidBase64),
    };
    match decode_image(bytes.as_slice()) {
        Some(img) => Ok(img),
        None => Err(DecodeError::InvalidImage),
    }
}

} // verus!
