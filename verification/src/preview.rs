//! Preview and thumbnail logic: extension inference, the on-disk cache
//! naming, and the base64 data URLs handed to the caller's display layer.

use vstd::prelude::*;
use crate::drive::{ext_of_name, ext_of_name_spec};
use crate::models::MediaInfo;
use crate::text::{
    ci_eq_seq, ci_str_eq, i64_to_string, int_str, last_index_of, last_index_of_char,
    lemma_last_index_some, matches_at, starts_with_sub, str_eq,
};

verus! {

/// What the outside base64 encoder returns for a byte sequence.
pub uninterp spec fn base64_of(bytes: Seq<u8>) -> Seq<char>;

/// Relies on base64's `Engine::encode` with the standard padded alphabet: the
/// output is a function of the input bytes alone, and empty input encodes to
/// the empty string.
#[verifier::external_body]
fn base64_encode(bytes: &Vec<u8>) -> (r: String)
    ensures
        r@ == base64_of(bytes@),
        bytes@.len() == 0 ==> r@.len() == 0,
{
    base64::Engine::encode(&base64::engine::general_purpose::STANDARD, bytes.as_slice())
}

/// The extension guessed from a document's MIME type when its name has none.
pub open spec fn mime_fallback_ext(mime: Option<Seq<char>>) -> Seq<char> {
    match mime {
        Some(m) => if m == "image/jpeg"@ {
            "jpg"@
        } else if m == "image/png"@ {
            "png"@
        } else if m == "video/mp4"@ {
            "mp4"@
        } else {
            "bin"@
        },
        None => "bin"@,
    }
}

/// The extension a preview is cached under: the document name's own
/// extension when it has a nonempty one, else a guess from the MIME type;
/// photos are JPEG and anything else is opaque.
pub open spec fn preview_ext_spec(media: MediaInfo) -> Seq<char> {
    match media {
        MediaInfo::Document { name, mime, .. } => {
            let m = match mime {
                Some(mm) => Some(mm@),
                None => None,
            };
            match ext_of_name_spec(name@) {
                Some(e) => if e.len() > 0 {
                    e
                } else {
                    mime_fallback_ext(m)
                },
                None => mime_fallback_ext(m),
            }
        },
        MediaInfo::Photo => "jpg"@,
        MediaInfo::Other => "bin"@,
    }
}

/// The extension a preview of this media is cached under.
pub fn preview_ext(media: &MediaInfo) -> (r: String)
    ensures
        r@ == preview_ext_spec(*media),
{
    proof {
        reveal_strlit("jpg");
        reveal_strlit("png");
        reveal_strlit("mp4");
        reveal_strlit("bin");
        reveal_strlit("image/jpeg");
        reveal_strlit("image/png");
        reveal_strlit("video/mp4");
    }
    match media {
        MediaInfo::Document { name, mime, .. } => {
            let from_name = match ext_of_name(name.as_str()) {
                Some(e) => if e.as_str().unicode_len() > 0 {
                    Some(e)
                } else {
                    None
                },
                None => None,
            };
            match from_name {
                Some(e) => e,
                None => {
                    match mime {
                        Some(m) => {
                            if str_eq(m.as_str(), "image/jpeg") {
                                String::from_str("jpg")
                            } else if str_eq(m.as_str(), "image/png") {
                                String::from_str("png")
                            } else if str_eq(m.as_str(), "video/mp4") {
                                String::from_str("mp4")
                            } else {
                                String::from_str("bin")
                            }
                        },
                        None => String::from_str("bin"),
                    }
                },
            }
        },
        MediaInfo::Photo => String::from_str("jpg"),
        MediaInfo::Other => String::from_str("bin"),
    }
}

/// The cache file name for a message's preview: identifier, dot, extension.
pub fn cache_file_name(message_id: i32, ext: &str) -> (r: String)
    ensures
        r@ == int_str(message_id as int) + "."@ + ext@,
{
    proof {
        reveal_strlit(".");
    }
    let mut s = i64_to_string(message_id as i64);
    s.append(".");
    s.append(ext);
    s
}

/// The extension is one a browser displays inline, compared without regard
/// to ASCII case.
pub open spec fn is_image_ext_spec(e: Seq<char>) -> bool {
    ||| ci_eq_seq(e, "jpg"@)
    ||| ci_eq_seq(e, "jpeg"@)
    ||| ci_eq_seq(e, "png"@)
    ||| ci_eq_seq(e, "gif"@)
    ||| ci_eq_seq(e, "webp"@)
    ||| ci_eq_seq(e, "bmp"@)
    ||| ci_eq_seq(e, "svg"@)
}

/// Whether a preview with this extension is returned inline as a data URL
/// rather than as a file path.
pub fn is_image_ext(ext: &str) -> (r: bool)
    ensures
        r == is_image_ext_spec(ext@),
{
    ci_str_eq(ext, "jpg") || ci_str_eq(ext, "jpeg") || ci_str_eq(ext, "png") || ci_str_eq(
        ext,
        "gif",
    ) || ci_str_eq(ext, "webp") || ci_str_eq(ext, "bmp") || ci_str_eq(ext, "svg")
}

/// The MIME type an inline preview is served under, from its extension.
pub open spec fn image_mime_spec(e: Seq<char>) -> Seq<char> {
    if ci_eq_seq(e, "png"@) {
        "image/png"@
    } else if ci_eq_seq(e, "gif"@) {
        "image/gif"@
    } else if ci_eq_seq(e, "webp"@) {
        "image/webp"@
    } else if ci_eq_seq(e, "bmp"@) {
        "image/bmp"@
    } else if ci_eq_seq(e, "svg"@) {
        "image/svg+xml"@
    } else {
        "image/jpeg"@
    }
}

/// The MIME type an inline preview is served under.
pub fn image_mime_for_ext(ext: &str) -> (r: &'static str)
    ensures
        r@ == image_mime_spec(ext@),
{
    if ci_str_eq(ext, "png") {
        "image/png"
    } else if ci_str_eq(ext, "gif") {
        "image/gif"
    } else if ci_str_eq(ext, "webp") {
        "image/webp"
    } else if ci_str_eq(ext, "bmp") {
        "image/bmp"
    } else if ci_str_eq(ext, "svg") {
        "image/svg+xml"
    } else {
        "image/jpeg"
    }
}

/// Assemble the inline data URL for an image preview.
pub fn image_data_url(mime: &str, bytes: &Vec<u8>) -> (r: String)
    ensures
        r@ == "data:"@ + mime@ + ";base64,"@ + base64_of(bytes@),
{
    let b64 = base64_encode(bytes);
    let mut s = String::from_str("data:");
    s.append(mime);
    s.append(";base64,");
    s.append(b64.as_str());
    s
}

/// Whether a thumbnail is fetched for this media, and under which extension.
#[derive(Debug, Clone, PartialEq, Eq)]
pub enum ThumbPlan {
    /// An image: fetch and cache it under this extension.
    Image(String),
    /// Not an image; the caller shows an icon instead.
    NotImage,
}

/// The thumbnail extension for an image document's MIME type.
pub open spec fn thumb_ext_for_mime(m: Seq<char>) -> Seq<char> {
    if m == "image/png"@ {
        "png"@
    } else if m == "image/gif"@ {
        "gif"@
    } else if m == "image/webp"@ {
        "webp"@
    } else {
        "jpg"@
    }
}

/// Decide whether this media gets a thumbnail: photos always do, documents
/// only when their MIME type is an image type.
pub fn thumb_plan(media: &MediaInfo) -> (r: ThumbPlan)
    ensures
        *media is Photo ==> (r matches ThumbPlan::Image(e) && e@ == "jpg"@),
        *media matches MediaInfo::Document { mime: Some(m), .. } ==> (if matches_at(
            m@,
            "image/"@,
            0,
        ) {
            r matches ThumbPlan::Image(e) && e@ == thumb_ext_for_mime(m@)
        } else {
            r is NotImage
        }),
        *media matches MediaInfo::Document { mime: None, .. } ==> r is NotImage,
        *media is Other ==> r is NotImage,
{
    proof {
        reveal_strlit("image/");
        reveal_strlit("image/png");
        reveal_strlit("image/gif");
        reveal_strlit("image/webp");
        reveal_strlit("jpg");
        reveal_strlit("png");
        reveal_strlit("gif");
        reveal_strlit("webp");
    }
    match media {
        MediaInfo::Photo => ThumbPlan::Image(String::from_str("jpg")),
        MediaInfo::Document { mime: Some(m), .. } => {
            if starts_with_sub(m.as_str(), "image/") {
                let e = if str_eq(m.as_str(), "image/png") {
                    "png"
                } else if str_eq(m.as_str(), "image/gif") {
                    "gif"
                } else if str_eq(m.as_str(), "image/webp") {
                    "webp"
                } else {
                    "jpg"
                };
                ThumbPlan::Image(String::from_str(e))
            } else {
                ThumbPlan::NotImage
            }
        },
        _ => ThumbPlan::NotImage,
    }
}

/// A cached file belongs to this message when its name starts with the
/// message identifier and a dot.
pub fn is_thumb_cache_hit(file_name: &str, message_id: i32) -> (r: bool)
    ensures
        r == matches_at(file_name@, int_str(message_id as int) + "."@, 0),
{
    proof {
        reveal_strlit(".");
    }
    let mut p = i64_to_string(message_id as i64);
    p.append(".");
    starts_with_sub(file_name, p.as_str())
}

/// The extension encoded in a cache file name: what follows the last dot, or
/// the whole name when it has none.
pub open spec fn cache_ext_spec(s: Seq<char>) -> Seq<char> {
    match last_index_of(s, '.') {
        Some(i) => s.skip(i + 1),
        None => s,
    }
}

/// Read the extension back from a cache file name.
pub fn cache_name_ext(name: &str) -> (r: String)
    ensures
        r@ == cache_ext_spec(name@),
{
    let len = name.unicode_len();
    match last_index_of_char(name, '.') {
        Some(i) => {
            proof {
                lemma_last_index_some(name@, '.', i as int);
            }
            let e = name.substring_char(i + 1, len);
            proof {
                assert(e@ =~= name@.skip(i + 1));
            }
            String::from_str(e)
        },
        None => String::from_str(name),
    }
}

/// The MIME type a cached thumbnail is served under, from its extension.
pub open spec fn thumb_mime_spec(e: Seq<char>) -> Seq<char> {
    if e == "png"@ {
        "image/png"@
    } else if e == "gif"@ {
        "image/gif"@
    } else if e == "webp"@ {
        "image/webp"@
    } else {
        "image/jpeg"@
    }
}

/// The MIME type a cached thumbnail is served under.
pub fn thumb_mime_for_ext(ext: &str) -> (r: &'static str)
    ensures
        r@ == thumb_mime_spec(ext@),
{
    if str_eq(ext, "png") {
        "image/png"
    } else if str_eq(ext, "gif") {
        "image/gif"
    } else if str_eq(ext, "webp") {
        "image/webp"
    } else {
        "image/jpeg"
    }
}

} // verus!
