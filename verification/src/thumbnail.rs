//! Thumbnails for saved content bundles: decoding the base64 image a
//! caller hands over, and the built-in placeholder used when none is given.

use vstd::prelude::*;
use base64::Engine;
use crate::Error;

verus! {

/// The bytes of the placeholder thumbnail: a complete one-by-one-pixel
/// RGB PNG (signature, header, one compressed pixel, trailer).
pub open spec fn default_thumbnail_png() -> Seq<u8> {
    seq![
        0x89u8, 0x50, 0x4E, 0x47, 0x0D, 0x0A, 0x1A, 0x0A,
        0x00, 0x00, 0x00, 0x0D,
        0x49, 0x48, 0x44, 0x52,
        0x00, 0x00, 0x00, 0x01,
        0x00, 0x00, 0x00, 0x01,
        0x08, 0x02,
        0x00, 0x00, 0x00,
        0x90, 0x77, 0x53, 0xDE,
        0x00, 0x00, 0x00, 0x0C,
        0x49, 0x44, 0x41, 0x54,
        0x08, 0xD7, 0x63, 0xA8, 0x64, 0x5C, 0x00, 0x00, 0x00, 0x83, 0x00, 0x81,
        0x25, 0xA4, 0xBE, 0x4B,
        0x00, 0x00, 0x00, 0x00,
        0x49, 0x45, 0x4E, 0x44,
        0xAE, 0x42, 0x60, 0x82,
    ]
}

/// Builds the placeholder thumbnail used when a bundle is saved without
/// one.
pub fn create_default_thumbnail() -> (png: Vec<u8>)
    ensures
        png@ == default_thumbnail_png(),
{
    let png: Vec<u8> = vec![
        0x89, 0x50, 0x4E, 0x47, 0x0D, 0x0A, 0x1A, 0x0A,
        0x00, 0x00, 0x00, 0x0D,
        0x49, 0x48, 0x44, 0x52,
        0x00, 0x00, 0x00, 0x01,
        0x00, 0x00, 0x00, 0x01,
        0x08, 0x02,
        0x00, 0x00, 0x00,
        0x90, 0x77, 0x53, 0xDE,
        0x00, 0x00, 0x00, 0x0C,
        0x49, 0x44, 0x41, 0x54,
        0x08, 0xD7, 0x63, 0xA8, 0x64, 0x5C, 0x00, 0x00, 0x00, 0x83, 0x00, 0x81,
        0x25, 0xA4, 0xBE, 0x4B,
        0x00, 0x00, 0x00, 0x00,
        0x49, 0x45, 0x4E, 0x44,
        0xAE, 0x42, 0x60, 0x82,
    ];
    proof {
        assert(png@ =~= default_thumbnail_png());
    }
    png
}

/// What decoding a base64 string yields: the decoded bytes, or nothing
/// when the string is not valid base64. The decoding is a function of the
/// string alone.
pub uninterp spec fn base64_decoding(s: Seq<char>) -> Option<Seq<u8>>;

#[verifier::external_type_specification]
#[verifier::external_body]
pub struct ExDecodeError(base64::DecodeError);

/// Relies on `base64::engine::Engine::decode` with the standard engine:
/// decoding succeeds exactly on valid standard-alphabet base64, and the
/// decoded bytes depend on the input string alone.
#[verifier::external_body]
fn base64_decode(s: &str) -> (r: Result<Vec<u8>, base64::DecodeError>)
    ensures
        r is Ok <==> base64_decoding(s@) is Some,
        r matches Ok(v) ==> Some(v@) == base64_decoding(s@),
{
    base64::engine::general_purpose::STANDARD.decode(s)
}

/// What decoding a caller-supplied thumbnail yields: the decoded bytes on
/// valid base64, and a decode error otherwise.
pub open spec fn thumbnail_decoding(s: Seq<char>) -> Result<Seq<u8>, Error> {
    match base64_decoding(s) {
        Some(bytes) => Ok(bytes),
        None => Err(Error::ThumbnailDecode),
    }
}

/// Decodes the base64 thumbnail a caller supplied with a saved bundle.
pub fn decode_thumbnail(s: &str) -> (r: Result<Vec<u8>, Error>)
    ensures
        match r {
            Ok(v) => thumbnail_decoding(s@) == Ok::<Seq<u8>, Error>(v@),
            Err(e) => thumbnail_decoding(s@) == Err::<Seq<u8>, Error>(e),
        },
{
    match base64_decode(s) {
        Ok(v) => Ok(v),
        Err(_) => Err(Error::ThumbnailDecode),
    }
}

/// What the thumbnail written beside a saved bundle holds: the decoded
/// bytes of a non-empty supplied string — with its decode error surfaced —
/// and the placeholder when none (or an empty one) was supplied.
pub open spec fn bundle_thumbnail_spec(thumb: Option<Seq<char>>) -> Result<Seq<u8>, Error> {
    match thumb {
        Some(t) => if t.len() > 0 {
            thumbnail_decoding(t)
        } else {
            Ok(default_thumbnail_png())
        },
        None => Ok(default_thumbnail_png()),
    }
}

/// Resolves the thumbnail bytes for a saved bundle from the caller's
/// optional base64 string.
pub fn bundle_thumbnail_bytes(thumbnail: &Option<String>) -> (r: Result<Vec<u8>, Error>)
    ensures
        match r {
            Ok(v) => bundle_thumbnail_spec(thumbnail.deep_view()) == Ok::<Seq<u8>, Error>(v@),
            Err(e) => bundle_thumbnail_spec(thumbnail.deep_view()) == Err::<Seq<u8>, Error>(e),
        },
{
    match thumbnail {
        Some(t) => {
            if t.as_str().is_empty() {
                Ok(create_default_thumbnail())
            } else {
                decode_thumbnail(t.as_str())
            }
        },
        None => Ok(create_default_thumbnail()),
    }
}

} // verus!
