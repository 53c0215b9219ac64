//! Media type derivation from a payload descriptor.
//!
//! The media type of a job is fixed once at submission: byte payloads carry a
//! raw-bytes sentinel descriptor and map to the raw media type; file payloads
//! are classified by their filename extension.

use vstd::prelude::*;

use crate::text::{
    find_last, folds_to, folds_to_lower, has_prefix, is_prefix_of, last_index_of,
    lemma_last_index_of,
};

verus! {

/// Position of the extension separator: the last `.` of the final path
/// component, provided it is not the component's first character. -1 when the
/// path has no extension.
pub open spec fn extension_start(path: Seq<char>) -> int {
    let slash = last_index_of(path, '/');
    let dot = last_index_of(path, '.');
    if dot > slash + 1 {
        dot
    } else {
        -1
    }
}

/// The filename extension of `path`, when it has one.
pub open spec fn extension_of(path: Seq<char>) -> Option<Seq<char>> {
    let dot = extension_start(path);
    if 0 <= dot < path.len() {
        Some(path.subrange(dot + 1, path.len() as int))
    } else {
        None
    }
}

/// The media type recorded for a payload descriptor: the raw-bytes sentinel
/// prefix wins, then the extension is matched ASCII-case-insensitively against
/// the known document and image types, and anything else is an octet stream.
pub open spec fn media_type_of(path: Seq<char>) -> Seq<char> {
    if is_prefix_of("<bytes:"@, path) {
        "application/vnd.cups-raw"@
    } else {
        match extension_of(path) {
            Some(ext) => {
                if folds_to(ext, "pdf"@) {
                    "application/pdf"@
                } else if folds_to(ext, "ps"@) {
                    "application/postscript"@
                } else if folds_to(ext, "txt"@) || folds_to(ext, "text"@) {
                    "text/plain"@
                } else if folds_to(ext, "jpg"@) || folds_to(ext, "jpeg"@) {
                    "image/jpeg"@
                } else if folds_to(ext, "png"@) {
                    "image/png"@
                } else if folds_to(ext, "gif"@) {
                    "image/gif"@
                } else {
                    "application/octet-stream"@
                }
            },
            None => "application/octet-stream"@,
        }
    }
}

/// The filename extension of `path`, when it has one.
pub fn file_extension(path: &str) -> (r: Option<&str>)
    ensures
        match r {
            Some(e) => extension_of(path@) == Some(e@),
            None => extension_of(path@) is None,
        },
{
    proof {
        lemma_last_index_of(path@, '/');
        lemma_last_index_of(path@, '.');
    }
    let len = path.unicode_len();
    let slash = find_last(path, '/');
    let dot = find_last(path, '.');
    let start = match (dot, slash) {
        (Some(d), Some(s)) => if d > s + 1 {
            Some(d)
        } else {
            None
        },
        (Some(d), None) => if d > 0 {
            Some(d)
        } else {
            None
        },
        (None, _) => None,
    };
    match start {
        Some(d) => Some(path.substring_char(d + 1, len)),
        None => None,
    }
}

/// Derive the media type recorded for a payload descriptor.
pub fn detect_media_type(file_path: &str) -> (r: String)
    ensures
        r@ == media_type_of(file_path@),
{
    if has_prefix(file_path, "<bytes:") {
        return String::from_str("application/vnd.cups-raw");
    }
    match file_extension(file_path) {
        Some(ext) => {
            if folds_to_lower(ext, "pdf") {
                String::from_str("application/pdf")
            } else if folds_to_lower(ext, "ps") {
                String::from_str("application/postscript")
            } else if folds_to_lower(ext, "txt") || folds_to_lower(ext, "text") {
                String::from_str("text/plain")
            } else if folds_to_lower(ext, "jpg") || folds_to_lower(ext, "jpeg") {
                String::from_str("image/jpeg")
            } else if folds_to_lower(ext, "png") {
                String::from_str("image/png")
            } else if folds_to_lower(ext, "gif") {
                String::from_str("image/gif")
            } else {
                String::from_str("application/octet-stream")
            }
        },
        None => String::from_str("application/octet-stream"),
    }
}

} // verus!
