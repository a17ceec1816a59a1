//! Decoding of data URIs, used to pass binary job content in a JSON-native
//! string encoding.

use base64::Engine;

use vstd::prelude::*;

use crate::image::spec_base64_standard;
use crate::status::{lemma_find_first, spec_find};
use crate::text::{chars_string, spec_chars_of};

verus! {

/// A decoded data URI: the media type and the payload bytes.
#[derive(Debug)]
pub struct DataUri {
    pub mime: String,
    pub data: Vec<u8>,
}

/// Why a string is not a data URI this decoder accepts.
#[derive(Clone, Copy, PartialEq, Eq, Structural, Debug)]
pub enum DataUriError {
    /// The string does not begin with the data scheme.
    NotDataUri,
    /// No separator indicates the start of the payload.
    MissingSeparator,
    /// The payload declared itself base64 but did not decode.
    InvalidBase64,
}

/// The bytes of the data scheme prefix.
pub open spec fn spec_data_prefix() -> Seq<u8> {
    seq![100u8, 97u8, 116u8, 97u8, 58u8]
}

/// The bytes of the base64 marker looked for among the media type options.
pub open spec fn spec_base64_marker() -> Seq<u8> {
    seq![98u8, 97u8, 115u8, 101u8, 54u8, 52u8]
}

/// Whether `needle` occurs contiguously in `hay`.
pub open spec fn spec_contains_bytes(hay: Seq<u8>, needle: Seq<u8>) -> bool {
    exists|i: int|
        0 <= i <= hay.len() - needle.len() && #[trigger] hay.subrange(i, i + needle.len())
            == needle
}

/// The base64 reading of a text under the standard alphabet with indifferent
/// padding, or nothing when the text is not base64.
pub uninterp spec fn spec_base64_decode_lenient(s: Seq<u8>) -> Option<Seq<u8>>;

/// Relies on base64's GeneralPurpose engine with the standard alphabet and
/// indifferent decode padding: whether a text decodes, and to what, is a
/// function of the text alone.
#[verifier::external_body]
fn base64_decode(data: &Vec<u8>) -> (r: Option<Vec<u8>>)
    ensures
        match r {
            Some(v) => spec_base64_decode_lenient(data@) == Some(v@),
            None => spec_base64_decode_lenient(data@) is None,
        },
{
    let engine = base64::engine::GeneralPurpose::new(
        &base64::alphabet::STANDARD,
        base64::engine::GeneralPurposeConfig::new()
            .with_decode_padding_mode(base64::engine::DecodePaddingMode::Indifferent),
    );
    engine.decode(data.as_slice()).ok()
}

/// The media-type part of the URI: everything between the scheme and the
/// separator, cut at the first option delimiter.
pub open spec fn spec_mime_part(s: Seq<u8>, sep: int) -> Seq<u8> {
    let mime_part = s.subrange(5, sep);
    match spec_find(mime_part, 59) {
        Some(i) => mime_part.take(i),
        None => mime_part,
    }
}

/// Whether the URI's options declare the payload base64.
pub open spec fn spec_is_base64(s: Seq<u8>, sep: int) -> bool {
    let mime_part = s.subrange(5, sep);
    match spec_find(mime_part, 59) {
        Some(i) => spec_contains_bytes(mime_part.skip(i + 1), spec_base64_marker()),
        None => false,
    }
}

/// What parsing a data URI yields: the media type's characters and the
/// payload bytes, or the reason the string was rejected.
pub open spec fn spec_parse_data_uri(s: Seq<u8>) -> Result<(Seq<char>, Seq<u8>), DataUriError> {
    if !(s.len() >= 5 && s.take(5) == spec_data_prefix()) {
        Err(DataUriError::NotDataUri)
    } else {
        match spec_find(s, 44) {
            None => Err(DataUriError::MissingSeparator),
            Some(sep) => {
                let mime = spec_chars_of(spec_mime_part(s, sep));
                let payload = s.skip(sep + 1);
                if spec_is_base64(s, sep) {
                    match spec_base64_decode_lenient(payload) {
                        Some(d) => Ok((mime, d)),
                        None => Err(DataUriError::InvalidBase64),
                    }
                } else {
                    Ok((mime, payload))
                }
            },
        }
    }
}

/// Whether the base64 marker occurs in `hay`.
fn contains_base64_marker(hay: &Vec<u8>) -> (r: bool)
    ensures
        r == spec_contains_bytes(hay@, spec_base64_marker()),
{
    if hay.len() < 6 {
        proof {
            assert(!spec_contains_bytes(hay@, spec_base64_marker()));
        }
        return false;
    }
    let mut i: usize = 0;
    while i <= hay.len() - 6
        invariant
            hay@.len() >= 6,
            0 <= i <= hay@.len() - 6 + 1,
            forall|j: int| 0 <= j < i ==> #[trigger] hay@.subrange(j, j + 6)
                != spec_base64_marker(),
        decreases hay@.len() - i,
    {
        if hay[i] == 98 && hay[i + 1] == 97 && hay[i + 2] == 115 && hay[i + 3] == 101 && hay[i + 4]
            == 54 && hay[i + 5] == 52 {
            proof {
                assert(hay@.subrange(i as int, i as int + 6) =~= spec_base64_marker());
            }
            return true;
        }
        proof {
            assert(hay@.subrange(i as int, i as int + 6) != spec_base64_marker()) by {
                assert(hay@.subrange(i as int, i as int + 6)[0] == hay@[i as int]);
                assert(hay@.subrange(i as int, i as int + 6)[1] == hay@[i as int + 1]);
                assert(hay@.subrange(i as int, i as int + 6)[2] == hay@[i as int + 2]);
                assert(hay@.subrange(i as int, i as int + 6)[3] == hay@[i as int + 3]);
                assert(hay@.subrange(i as int, i as int + 6)[4] == hay@[i as int + 4]);
                assert(hay@.subrange(i as int, i as int + 6)[5] == hay@[i as int + 5]);
            }
        }
        i = i + 1;
    }
    proof {
        assert(!spec_contains_bytes(hay@, spec_base64_marker()));
    }
    false
}

/// The first comma of the URI, scanned.
fn find_comma(uri: &Vec<u8>) -> (r: Option<usize>)
    ensures
        match r {
            Some(i) => spec_find(uri@, 44) == Some(i as int),
            None => spec_find(uri@, 44) is None,
        },
{
    let mut i: usize = 0;
    while i < uri.len() && uri[i] != 44
        invariant
            0 <= i <= uri@.len(),
            forall|j: int| 0 <= j < i ==> uri@[j] != 44,
        decreases uri@.len() - i,
    {
        i = i + 1;
    }
    proof {
        lemma_find_first(uri@, 44);
    }
    if i == uri.len() {
        None
    } else {
        Some(i)
    }
}

/// Parses a data URI: the scheme prefix, a media type with optional
/// parameters, a separator, then the payload — decoded from base64 when the
/// parameters say so, taken verbatim otherwise.
pub fn parse_data_uri(uri: &Vec<u8>) -> (r: Result<DataUri, DataUriError>)
    ensures
        match r {
            Ok(d) => spec_parse_data_uri(uri@) == Ok::<_, DataUriError>((d.mime@, d.data@)),
            Err(e) => spec_parse_data_uri(uri@) == Err::<(Seq<char>, Seq<u8>), _>(e),
        },
{
    if uri.len() < 5 || uri[0] != 100 || uri[1] != 97 || uri[2] != 116 || uri[3] != 97 || uri[4]
        != 58 {
        proof {
            if uri@.len() >= 5 {
                assert(uri@.take(5)[0] == uri@[0]);
                assert(uri@.take(5)[1] == uri@[1]);
                assert(uri@.take(5)[2] == uri@[2]);
                assert(uri@.take(5)[3] == uri@[3]);
                assert(uri@.take(5)[4] == uri@[4]);
            }
        }
        return Err(DataUriError::NotDataUri);
    }
    proof {
        assert(uri@.take(5) =~= spec_data_prefix());
    }
    let sep = match find_comma(uri) {
        Some(i) => i,
        None => {
            return Err(DataUriError::MissingSeparator);
        },
    };
    // The media type, with its options, sits between the scheme and the
    // separator.
    let mut mime_part: Vec<u8> = Vec::new();
    proof {
        lemma_find_first(uri@, 44);
        assert(uri@[4] == 58u8);
    }
    mime_part.extend_from_slice(&uri.as_slice()[5..sep]);
    proof {
        assert(mime_part@ =~= uri@.subrange(5, sep as int));
    }
    // Cut the media type at the first option delimiter, and look for the
    // base64 marker among the options.
    let mut semi: usize = 0;
    while semi < mime_part.len() && mime_part[semi] != 59
        invariant
            0 <= semi <= mime_part@.len(),
            forall|j: int| 0 <= j < semi ==> mime_part@[j] != 59,
        decreases mime_part@.len() - semi,
    {
        semi = semi + 1;
    }
    proof {
        lemma_find_first(mime_part@, 59);
    }
    let ghost whole_mime_part = mime_part@;
    let is_base64: bool;
    if semi == mime_part.len() {
        is_base64 = false;
        proof {
            assert(spec_find(whole_mime_part, 59) is None);
        }
    } else {
        proof {
            assert(spec_find(whole_mime_part, 59) == Some(semi as int));
        }
        let mut options: Vec<u8> = Vec::new();
        options.extend_from_slice(&mime_part.as_slice()[semi + 1..mime_part.len()]);
        proof {
            assert(options@ =~= whole_mime_part.skip(semi as int + 1));
        }
        is_base64 = contains_base64_marker(&options);
    }
    let mime_bytes = if semi == mime_part.len() {
        mime_part
    } else {
        let mut cut = mime_part;
        let _tail = cut.split_off(semi);
        proof {
            assert(cut@ =~= whole_mime_part.take(semi as int));
        }
        cut
    };
    let mime = chars_string(&mime_bytes);
    // The payload follows the separator.
    let mut payload: Vec<u8> = Vec::new();
    payload.extend_from_slice(&uri.as_slice()[sep + 1..uri.len()]);
    proof {
        assert(payload@ =~= uri@.skip(sep as int + 1));
    }
    if is_base64 {
        match base64_decode(&payload) {
            Some(data) => Ok(DataUri { mime, data }),
            None => Err(DataUriError::InvalidBase64),
        }
    } else {
        Ok(DataUri { mime, data: payload })
    }
}

/// Renders a data URI carrying the payload in base64.
pub fn encode_data_uri(uri: &DataUri) -> (r: String)
    ensures
        r@ == "data:"@ + uri.mime@ + ";base64,"@ + spec_base64_standard(uri.data@),
{
    let mut s = "data:".to_owned();
    s.append(uri.mime.as_str());
    s.append(";base64,");
    let b64 = crate::image::base64_encode(&uri.data);
    s.append(b64.as_str());
    s
}

} // verus!
