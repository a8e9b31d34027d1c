//! Files served by the dashboard: the media type of an asset and the name
//! under which an uploaded audio is kept.
use vstd::prelude::*;
use crate::text::{
    concat, decimal, default_hash, default_hash_of, ends_with, i64_to_decimal, seq_ends_with, signed_decimal, str_eq,
    u64_to_decimal,
};

verus! {

/// The media type of an asset, from its extension.
pub open spec fn asset_mime_spec(path: Seq<char>) -> Seq<char> {
    if seq_ends_with(path, ".mp3"@) {
        "audio/mpeg"@
    } else if seq_ends_with(path, ".png"@) {
        "image/png"@
    } else if seq_ends_with(path, ".jpg"@) || seq_ends_with(path, ".jpeg"@) {
        "image/jpeg"@
    } else {
        "application/octet-stream"@
    }
}

/// The media type of an asset.
pub fn asset_mime(path: &str) -> (r: String)
    ensures
        r@ == asset_mime_spec(path@),
{
    if ends_with(path, ".mp3") {
        "audio/mpeg".to_owned()
    } else if ends_with(path, ".png") {
        "image/png".to_owned()
    } else if ends_with(path, ".jpg") || ends_with(path, ".jpeg") {
        "image/jpeg".to_owned()
    } else {
        "application/octet-stream".to_owned()
    }
}

/// The path of an asset on disk.
pub fn asset_path(path: &str) -> (r: String)
    ensures
        r@ == "assets/"@ + path@,
{
    concat("assets/", path)
}

/// The form fields that carry an uploaded audio.
pub fn is_upload_field(name: &str) -> (b: bool)
    ensures
        b == (name@ == "file"@ || name@ == "audio"@),
{
    str_eq(name, "file") || str_eq(name, "audio")
}

/// Uploads keep `.wav` when the original file had it, `.mp3` otherwise.
pub fn upload_extension(original_name: &str) -> (r: String)
    ensures
        r@ == if seq_ends_with(original_name@, ".wav"@) {
            ".wav"@
        } else {
            ".mp3"@
        },
{
    if ends_with(original_name, ".wav") {
        ".wav".to_owned()
    } else {
        ".mp3".to_owned()
    }
}

/// The name of an uploaded audio: its upload time in milliseconds, the
/// hash of its original name, and its extension.
pub fn upload_file_name(time_millis: i64, name_hash: u64, ext: &str) -> (r: String)
    ensures
        r@ == "upload_"@ + signed_decimal(time_millis as int) + "_"@ + decimal(name_hash as nat) + ext@,
{
    let a = concat("upload_", i64_to_decimal(time_millis).as_str());
    let b = concat(a.as_str(), "_");
    let c = concat(b.as_str(), u64_to_decimal(name_hash).as_str());
    concat(c.as_str(), ext)
}

/// The name under which an upload is saved: its upload time, the
/// `DefaultHasher` hash of its original name, and the extension the
/// original name calls for.
pub fn upload_name(time_millis: i64, original_name: &str) -> (r: String)
    ensures
        r@ == "upload_"@ + signed_decimal(time_millis as int) + "_"@ + decimal(default_hash_of(original_name@) as nat)
            + if seq_ends_with(
                original_name@,
                ".wav"@,
            ) {
                ".wav"@
            } else {
                ".mp3"@
            },
{
    let h = default_hash(original_name);
    let ext = upload_extension(original_name);
    let r = upload_file_name(time_millis, h, ext.as_str());
    assert(r@ == "upload_"@ + signed_decimal(time_millis as int) + "_"@ + decimal(h as nat) + ext@);
    r
}

} // verus!
