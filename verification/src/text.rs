//! Verified text helpers: filename extensions, object keys, MIME
//! inference, URL joining, and the thumbnail naming convention.

use vstd::prelude::*;

verus! {

/// Compares two string slices by their character sequences.
pub fn str_eq(a: &str, b: &str) -> (r: bool)
    ensures
        r == (a@ == b@),
{
    let sa: String = a.to_owned();
    let sb: String = b.to_owned();
    sa == sb
}

/// The index of the last `.` in `s`, if any.
pub open spec fn spec_last_dot(s: Seq<char>) -> Option<int>
    decreases s.len(),
{
    if s.len() == 0 {
        None
    } else if s[s.len() - 1] == '.' {
        Some(s.len() - 1)
    } else {
        spec_last_dot(s.drop_last())
    }
}

/// Finds the index of the last `.` in `s`.
pub fn last_dot(s: &str) -> (r: Option<usize>)
    ensures
        match r {
            Some(i) => spec_last_dot(s@) == Some(i as int),
            None => spec_last_dot(s@) == None::<int>,
        },
{
    let n = s.unicode_len();
    let mut i = n;
    assert(s@.take(n as int) =~= s@);
    while i > 0
        invariant
            i <= n,
            n == s@.len(),
            spec_last_dot(s@) == spec_last_dot(s@.take(i as int)),
        decreases i,
    {
        let c = s.get_char(i - 1);
        assert(s@.take(i as int).drop_last() =~= s@.take(i as int - 1));
        if c == '.' {
            return Some(i - 1);
        }
        i = i - 1;
    }
    assert(s@.take(0) =~= Seq::<char>::empty());
    None
}

/// What follows the last `.` of a filename; the whole name when it has no
/// dot. This mirrors taking the last piece of a split on `.`.
pub open spec fn spec_extension(s: Seq<char>) -> Seq<char> {
    match spec_last_dot(s) {
        Some(i) => s.subrange(i + 1, s.len() as int),
        None => s,
    }
}

/// Extracts the filename extension: the text after the last `.`, or the
/// whole name when it has no dot.
pub fn extension_of(filename: &str) -> (e: &str)
    ensures
        e@ == spec_extension(filename@),
{
    proof {
        lemma_last_dot_bounds(filename@);
    }
    let n = filename.unicode_len();
    match last_dot(filename) {
        Some(i) => {
            assert(i < n);
            filename.substring_char(i + 1, n)
        },
        None => filename,
    }
}

/// A last dot lies inside the string.
pub proof fn lemma_last_dot_bounds(s: Seq<char>)
    ensures
        match spec_last_dot(s) {
            Some(i) => 0 <= i < s.len() && s[i] == '.',
            None => true,
        },
    decreases s.len(),
{
    if s.len() > 0 && s[s.len() - 1] != '.' {
        lemma_last_dot_bounds(s.drop_last());
    }
}

/// The MIME type inferred from an audio filename extension.
pub open spec fn spec_mime_for(ext: Seq<char>) -> Seq<char> {
    if ext == "flac"@ {
        "audio/flac"@
    } else if ext == "wav"@ {
        "audio/wav"@
    } else if ext == "ogg"@ {
        "audio/ogg"@
    } else if ext == "aac"@ {
        "audio/aac"@
    } else if ext == "m4a"@ {
        "audio/mp4"@
    } else {
        "audio/mpeg"@
    }
}

/// Guesses the MIME type of an audio file from its extension; anything
/// unrecognised is treated as MPEG audio.
pub fn mime_for_extension(ext: &str) -> (m: String)
    ensures
        m@ == spec_mime_for(ext@),
{
    if str_eq(ext, "flac") {
        "audio/flac".to_owned()
    } else if str_eq(ext, "wav") {
        "audio/wav".to_owned()
    } else if str_eq(ext, "ogg") {
        "audio/ogg".to_owned()
    } else if str_eq(ext, "aac") {
        "audio/aac".to_owned()
    } else if str_eq(ext, "m4a") {
        "audio/mp4".to_owned()
    } else {
        "audio/mpeg".to_owned()
    }
}

/// Joins two pieces into one string.
pub fn concat2(a: &str, b: &str) -> (r: String)
    ensures
        r@ == a@ + b@,
{
    let mut s = a.to_owned();
    s.append(b);
    s
}

/// Joins three pieces into one string.
pub fn concat3(a: &str, b: &str, c: &str) -> (r: String)
    ensures
        r@ == a@ + b@ + c@,
{
    let mut s = a.to_owned();
    s.append(b);
    s.append(c);
    s
}

/// The storage key of a drop's audio blob: `<drop_id>/audio.<ext>`.
pub open spec fn spec_audio_key(drop_id: Seq<char>, ext: Seq<char>) -> Seq<char> {
    drop_id + "/audio."@ + ext
}

/// Builds the storage key of a drop's audio blob.
pub fn audio_key(drop_id: &str, ext: &str) -> (r: String)
    ensures
        r@ == spec_audio_key(drop_id@, ext@),
{
    concat3(drop_id, "/audio.", ext)
}

/// The storage key of a drop's cover blob: `<drop_id>/cover.<ext>`.
pub open spec fn spec_cover_key(drop_id: Seq<char>, ext: Seq<char>) -> Seq<char> {
    drop_id + "/cover."@ + ext
}

/// Builds the storage key of a drop's cover blob.
pub fn cover_key(drop_id: &str, ext: &str) -> (r: String)
    ensures
        r@ == spec_cover_key(drop_id@, ext@),
{
    concat3(drop_id, "/cover.", ext)
}

/// The public URL of a stored object: the base URL joined with the key.
pub open spec fn spec_object_url(base: Seq<char>, key: Seq<char>) -> Seq<char> {
    base + "/drops/"@ + key
}

/// Joins the public base URL with a storage key.
pub fn object_url(base: &str, key: &str) -> (r: String)
    ensures
        r@ == spec_object_url(base@, key@),
{
    concat3(base, "/drops/", key)
}

/// The bearer-token download URL for a claim.
pub open spec fn spec_download_url(base: Seq<char>, drop_id: Seq<char>, token: Seq<char>) -> Seq<
    char,
> {
    base + "/api/drops/"@ + drop_id + "/download?token="@ + token
}

/// Builds the download URL a successful claim hands back.
pub fn download_url(base: &str, drop_id: &str, token: &str) -> (r: String)
    ensures
        r@ == spec_download_url(base@, drop_id@, token@),
{
    let mut s = base.to_owned();
    s.append("/api/drops/");
    s.append(drop_id);
    s.append("/download?token=");
    s.append(token);
    s
}

/// A key with `_thumb` inserted before its extension — a naming convention
/// only; no thumbnail is ever generated.
pub open spec fn spec_thumb_key(s: Seq<char>) -> Seq<char> {
    match spec_last_dot(s) {
        Some(i) => s.subrange(0, i) + "_thumb"@ + s.subrange(i, s.len() as int),
        None => s + "_thumb"@,
    }
}

/// Derives the thumbnail key of a cover key by inserting `_thumb` before
/// the extension (appending it when there is no extension).
pub fn thumb_key(key: &str) -> (r: String)
    ensures
        r@ == spec_thumb_key(key@),
{
    proof {
        lemma_last_dot_bounds(key@);
    }
    match last_dot(key) {
        Some(i) => {
            let n = key.unicode_len();
            let head = key.substring_char(0, i);
            let tail = key.substring_char(i, n);
            let mut s = head.to_owned();
            s.append("_thumb");
            s.append(tail);
            s
        },
        None => concat2(key, "_thumb"),
    }
}

/// The content-disposition header value for a download of the given title.
pub open spec fn spec_attachment_disposition(title: Seq<char>) -> Seq<char> {
    "attachment; filename=\""@ + title + "\""@
}

/// Builds the content-disposition header value naming the downloaded file
/// after the drop title.
pub fn attachment_disposition(title: &str) -> (r: String)
    ensures
        r@ == spec_attachment_disposition(title@),
{
    concat3("attachment; filename=\"", title, "\"")
}

} // verus!
