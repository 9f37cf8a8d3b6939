//! The bytes of a chart: their fingerprint, their text and the chart that the
//! text holds.

use vstd::prelude::*;
use vstd::utf8::{decode_utf8, encode_utf8, encode_utf8_decode_utf8, valid_utf8};
use crate::score::ComputeError;

verus! {

/// A parsed chart. Nothing of its contents is visible here: it is carried to
/// whoever rates it.
#[verifier::external_type_specification]
#[verifier::external_body]
pub struct ExBeatmap(rosu_map::Beatmap);

/// The error of a reader.
#[verifier::external_type_specification]
#[verifier::external_body]
pub struct ExIoError(std::io::Error);

/// The SHA-1 digest of `bytes`, as `sha1_smol` writes it in hexadecimal.
pub uninterp spec fn sha1_hex(bytes: Seq<u8>) -> Seq<char>;

/// The chart that `rosu_map` reads from `text`, none where it gives up.
pub uninterp spec fn parsed_chart(text: Seq<char>) -> Option<rosu_map::Beatmap>;

/// Calls `sha1_smol::Sha1::from` on the bytes and `hexdigest` on the hasher.
/// Trusted: the string returned is the digest of exactly these bytes, which
/// depends on nothing else.
#[verifier::external_body]
fn sha1_hexdigest(bytes: &Vec<u8>) -> (hex: String)
    ensures
        hex@ == sha1_hex(bytes@),
{
    sha1_smol::Sha1::from(bytes).hexdigest()
}

/// Calls `String::from_utf8`. Trusted: it succeeds exactly on well-formed
/// UTF-8, and the string then consists of the bytes given.
#[verifier::external_body]
fn utf8_text(bytes: Vec<u8>) -> (text: Option<String>)
    ensures
        text is Some <==> valid_utf8(bytes@),
        text matches Some(t) ==> encode_utf8(t@) == bytes@,
{
    String::from_utf8(bytes).ok()
}

/// Calls `rosu_map::from_str` for a `Beatmap`. Trusted: what it returns
/// depends on the text alone.
#[verifier::external_body]
fn read_chart(text: &str) -> (r: Result<rosu_map::Beatmap, std::io::Error>)
    ensures
        match r {
            Ok(chart) => parsed_chart(text@) == Some(chart),
            Err(_) => parsed_chart(text@) is None,
        },
{
    rosu_map::from_str(text)
}

/// The fingerprint of the bytes of a chart. Empty bytes are a failed fetch
/// and have none.
pub fn fingerprint(bytes: &Vec<u8>) -> (hex: Option<String>)
    ensures
        bytes@.len() == 0 <==> hex is None,
        hex matches Some(h) ==> h@ == sha1_hex(bytes@),
{
    if bytes.len() == 0 {
        None
    } else {
        Some(sha1_hexdigest(bytes))
    }
}

/// What a read of a chart comes to: the chart, or a failure to parse.
pub fn chart_or_failure(read: Result<rosu_map::Beatmap, std::io::Error>) -> (r: Result<
    rosu_map::Beatmap,
    ComputeError,
>)
    ensures
        match read {
            Ok(chart) => r == Ok::<rosu_map::Beatmap, ComputeError>(chart),
            Err(_) => r == Err::<rosu_map::Beatmap, ComputeError>(ComputeError::Parse),
        },
{
    match read {
        Ok(chart) => Ok(chart),
        Err(_) => Err(ComputeError::Parse),
    }
}

/// The chart that a sequence of bytes holds: the bytes are taken as UTF-8
/// text, and the text is parsed.
pub open spec fn chart_of(bytes: Seq<u8>) -> Result<rosu_map::Beatmap, ComputeError> {
    if !valid_utf8(bytes) {
        Err(ComputeError::Decode)
    } else {
        match parsed_chart(decode_utf8(bytes)) {
            Some(chart) => Ok(chart),
            None => Err(ComputeError::Parse),
        }
    }
}

/// Decodes and parses the bytes of a chart.
pub fn load_chart(bytes: Vec<u8>) -> (r: Result<rosu_map::Beatmap, ComputeError>)
    ensures
        r == chart_of(bytes@),
{
    match utf8_text(bytes) {
        None => Err(ComputeError::Decode),
        Some(text) => {
            proof {
                encode_utf8_decode_utf8(text@);
            }
            chart_or_failure(read_chart(text.as_str()))
        },
    }
}

} // verus!
