use vstd::prelude::*;
use vstd::seq_lib::*;
use vstd::string::{StrSliceExecFns, StringExecFns};

use base64::Engine;

verus! {

/// The text that standard-alphabet, padded base64 assigns to a byte
/// sequence.
pub uninterp spec fn base64_encoding_of(bytes: Seq<u8>) -> Seq<char>;

/// The bytes that standard-alphabet, padded base64 decoding assigns to
/// a text; `None` when the text is not valid base64.
pub uninterp spec fn base64_decoding_of(text: Seq<char>) -> Option<Seq<u8>>;

/// Relies on base64's `STANDARD` engine `encode`: the returned text is
/// a function of the input bytes alone.
#[verifier::external_body]
fn encode_standard(bytes: &[u8]) -> (r: String)
    ensures
        r@ == base64_encoding_of(bytes@),
{
    base64::engine::general_purpose::STANDARD.encode(bytes)
}

/// Relies on base64's `STANDARD` engine `decode`: success and the bytes
/// returned are a function of the input text alone; the error text is
/// the display form of the library's decode error.
#[verifier::external_body]
fn decode_standard(text: &str) -> (r: Result<Vec<u8>, String>)
    ensures
        r matches Ok(v) ==> base64_decoding_of(text@) == Some(v@),
        r is Err ==> base64_decoding_of(text@) is None,
{
    match base64::engine::general_purpose::STANDARD.decode(text) {
        Ok(v) => Ok(v),
        Err(e) => Err(e.to_string()),
    }
}

/// Decode caller-supplied base64 image data, reporting a failure with
/// the diagnostic the application shell shows.
pub fn decode_image_data(data: &str) -> (r: Result<Vec<u8>, String>)
    ensures
        base64_decoding_of(data@) matches Some(b) ==> (r matches Ok(v) && v@ == b),
        base64_decoding_of(data@) is None ==> (r matches Err(m) && "Failed to decode base64: "@
            .is_prefix_of(m@)),
{
    match decode_standard(data) {
        Ok(v) => Ok(v),
        Err(e) => {
            let mut m = "Failed to decode base64: ".to_owned();
            m.append(e.as_str());
            proof {
                assert(m@.subrange(0, "Failed to decode base64: "@.len() as int) =~= (
                "Failed to decode base64: "@));
            }
            Err(m)
        },
    }
}

/// The data URL under which an already-encoded PNG image is handed to
/// the front end.
pub fn png_data_url(image_bytes: &[u8]) -> (r: String)
    ensures
        r@ == "data:image/png;base64,"@ + base64_encoding_of(image_bytes@),
{
    let mut out = "data:image/png;base64,".to_owned();
    let encoded = encode_standard(image_bytes);
    out.append(encoded.as_str());
    out
}

/// The position of the first `','` at or after `i`; the length of `s`
/// when there is none.
pub open spec fn comma_index_from(s: Seq<char>, i: int) -> int
    decreases s.len() - i,
{
    if i >= s.len() {
        s.len() as int
    } else if s[i] == ',' {
        i
    } else {
        comma_index_from(s, i + 1)
    }
}

/// The payload of a data URL: the piece between the first `','` and the
/// second one (or the end), exactly as splitting on `','` and taking
/// the second piece would yield it; `None` when there is no `','` at
/// all.
pub open spec fn data_url_payload_of(s: Seq<char>) -> Option<Seq<char>> {
    let first = comma_index_from(s, 0);
    if first == s.len() {
        None
    } else {
        Some(s.subrange(first + 1, comma_index_from(s, first + 1)))
    }
}

/// Extract the base64 payload of a data URL such as
/// `data:image/png;base64,...`.
pub fn data_url_payload(url: &str) -> (r: Option<String>)
    ensures
        r.deep_view() == data_url_payload_of(url@),
{
    let n: usize = url.unicode_len();
    let mut i: usize = 0;
    while i < n && url.get_char(i) != ','
        invariant
            i <= n,
            n == url@.len(),
            comma_index_from(url@, 0) == comma_index_from(url@, i as int),
        decreases n - i,
    {
        i = i + 1;
    }
    if i == n {
        return None;
    }
    let start: usize = i + 1;
    let mut j: usize = start;
    while j < n && url.get_char(j) != ','
        invariant
            start <= j <= n,
            n == url@.len(),
            comma_index_from(url@, start as int) == comma_index_from(url@, j as int),
        decreases n - j,
    {
        j = j + 1;
    }
    Some(url.substring_char(start, j).to_owned())
}

/// The bytes to put on the clipboard for a caller-supplied data URL:
/// the payload after the first `','`, base64-decoded. A URL without a
/// `','` is rejected as malformed; a payload that is not valid base64
/// fails with the decoder's diagnostic.
pub fn clipboard_image_bytes(data_url: &str) -> (r: Result<Vec<u8>, String>)
    ensures
        (match data_url_payload_of(data_url@) {
            None => r matches Err(m) && m@ == "Invalid data URL format"@,
            Some(payload) => match base64_decoding_of(payload) {
                Some(b) => r matches Ok(v) && v@ == b,
                None => r is Err,
            },
        }),
{
    match data_url_payload(data_url) {
        Some(payload) => {
            proof {
                assert(data_url_payload_of(data_url@) == Some(payload@));
            }
            decode_image_data(payload.as_str())
        },
        None => Err("Invalid data URL format".to_owned()),
    }
}

} // verus!
