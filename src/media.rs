use vstd::prelude::*;

use crate::text::{chars_of, same_text};

verus! {

/// What `str::to_lowercase` makes of `s`.
pub uninterp spec fn lowercase(s: Seq<char>) -> Seq<char>;

/// Relies on `str::to_lowercase`: the result depends on the characters alone.
#[verifier::external_body]
fn lower_text(s: &str) -> (r: String)
    ensures
        r@ == lowercase(s@),
{
    s.to_lowercase()
}

/// The standard (padded) base64 encoding of `bytes`.
pub uninterp spec fn base64_text(bytes: Seq<u8>) -> Seq<char>;

/// The bytes that standard (padded) base64 decoding gives for `text`, or
/// none when the text is not valid base64.
pub uninterp spec fn base64_bytes(text: Seq<char>) -> Option<Seq<u8>>;

/// Declares `base64::DecodeError`, the error `base64_decode` hands back.
#[verifier::external_type_specification]
#[verifier::external_body]
pub struct ExDecodeError(base64::DecodeError);

/// Relies on `base64::Engine::encode` with the `STANDARD` engine; it panics
/// only when the encoded length overflows `usize`, which the bound on the
/// input rules out.
#[verifier::external_body]
fn base64_encode(bytes: &[u8]) -> (r: String)
    requires
        bytes@.len() <= usize::MAX / 2,
    ensures
        r@ == base64_text(bytes@),
{
    base64::Engine::encode(&base64::engine::general_purpose::STANDARD, bytes)
}

/// Relies on `base64::Engine::decode` with the `STANDARD` engine.
#[verifier::external_body]
fn base64_decode(text: &str) -> (r: Result<Vec<u8>, base64::DecodeError>)
    ensures
        match r {
            Ok(v) => base64_bytes(text@) == Some(v@),
            Err(_) => base64_bytes(text@) is None,
        },
{
    base64::Engine::decode(&base64::engine::general_purpose::STANDARD, text)
}

/// The MIME type of an image file by its (lower-case) extension.
pub open spec fn mime_for_ext(ext: Seq<char>) -> Seq<char> {
    if ext == "png"@ {
        "image/png"@
    } else if ext == "jpg"@ || ext == "jpeg"@ {
        "image/jpeg"@
    } else if ext == "gif"@ {
        "image/gif"@
    } else if ext == "webp"@ {
        "image/webp"@
    } else if ext == "bmp"@ {
        "image/bmp"@
    } else if ext == "svg"@ {
        "image/svg+xml"@
    } else {
        "application/octet-stream"@
    }
}

/// The file extension for an image MIME type.
pub open spec fn ext_for_mime(mime: Seq<char>) -> Seq<char> {
    if mime == "image/png"@ {
        "png"@
    } else if mime == "image/jpeg"@ {
        "jpg"@
    } else if mime == "image/gif"@ {
        "gif"@
    } else if mime == "image/webp"@ {
        "webp"@
    } else if mime == "image/bmp"@ {
        "bmp"@
    } else if mime == "image/svg+xml"@ {
        "svg"@
    } else {
        "bin"@
    }
}

/// The MIME type for an extension that is already in lower case.
pub fn mime_for_lowercase_ext(ext: &str) -> (r: &'static str)
    ensures
        r@ == mime_for_ext(ext@),
{
    if same_text(ext, "png") {
        "image/png"
    } else if same_text(ext, "jpg") || same_text(ext, "jpeg") {
        "image/jpeg"
    } else if same_text(ext, "gif") {
        "image/gif"
    } else if same_text(ext, "webp") {
        "image/webp"
    } else if same_text(ext, "bmp") {
        "image/bmp"
    } else if same_text(ext, "svg") {
        "image/svg+xml"
    } else {
        "application/octet-stream"
    }
}

pub open spec fn ext_or_empty(ext: Option<&str>) -> Seq<char> {
    match ext {
        Some(e) => e@,
        None => ""@,
    }
}

/// The MIME type for a file's extension (none when the file has none),
/// compared without regard to case.
pub fn mime_from_ext(ext: Option<&str>) -> (r: &'static str)
    ensures
        r@ == mime_for_ext(lowercase(ext_or_empty(ext))),
{
    let e: &str = match ext {
        Some(e) => e,
        None => "",
    };
    let lower = lower_text(e);
    mime_for_lowercase_ext(lower.as_str())
}

/// The file extension under which an image of type `mime` is stored.
pub fn ext_from_mime(mime: &str) -> (r: &'static str)
    ensures
        r@ == ext_for_mime(mime@),
{
    if same_text(mime, "image/png") {
        "png"
    } else if same_text(mime, "image/jpeg") {
        "jpg"
    } else if same_text(mime, "image/gif") {
        "gif"
    } else if same_text(mime, "image/webp") {
        "webp"
    } else if same_text(mime, "image/bmp") {
        "bmp"
    } else if same_text(mime, "image/svg+xml") {
        "svg"
    } else {
        "bin"
    }
}

/// The file name under which the robot image of type `mime` is saved.
pub fn robot_image_file_name(mime: &str) -> (r: String)
    ensures
        r@ == "robot-image."@ + ext_for_mime(mime@),
{
    String::from_str("robot-image.").concat(ext_from_mime(mime))
}

/// The base64 data URL of type `mime` whose payload is `payload`.
pub fn compose_data_url(mime: &str, payload: &str) -> (r: String)
    ensures
        r@ == "data:"@ + mime@ + ";base64,"@ + payload@,
{
    String::from_str("data:").concat(mime).concat(";base64,").concat(payload)
}

/// A data URL that carries `bytes` as base64, typed by the file extension.
pub fn image_data_url(ext: Option<&str>, bytes: &[u8]) -> (r: String)
    requires
        bytes@.len() <= usize::MAX / 2,
    ensures
        r@ == "data:"@ + mime_for_ext(lowercase(ext_or_empty(ext))) + ";base64,"@ + base64_text(
            bytes@,
        ),
{
    let mime = mime_from_ext(ext);
    let b64 = base64_encode(bytes);
    compose_data_url(mime, b64.as_str())
}

/// The first position at or after `i` where `c` stands in `s`.
pub open spec fn find_from(s: Seq<char>, c: char, i: int) -> Option<int>
    decreases s.len() - i,
{
    if i < 0 || i >= s.len() {
        None
    } else if s[i] == c {
        Some(i)
    } else {
        find_from(s, c, i + 1)
    }
}

/// Whether `pat` stands in `s` at position `i`.
pub open spec fn occurs_at(s: Seq<char>, pat: Seq<char>, i: int) -> bool {
    0 <= i && i + pat.len() <= s.len() && s.subrange(i, i + pat.len()) == pat
}

/// Whether `pat` stands anywhere in `s`.
pub open spec fn occurs_in(s: Seq<char>, pat: Seq<char>) -> bool {
    exists|i: int| occurs_at(s, pat, i)
}

/// How a data URL `data:<mime>[;...];base64,<payload>` falls apart.
pub ghost enum DataUrlShape {
    /// There is no comma between header and payload.
    NoComma,
    /// The header does not start with `data:` or lacks `;base64`.
    BadHeader,
    /// The header names no MIME type.
    NoMime,
    Parts { mime: Seq<char>, payload: Seq<char> },
}

pub open spec fn data_url_shape(s: Seq<char>) -> DataUrlShape {
    match find_from(s, ',', 0) {
        None => DataUrlShape::NoComma,
        Some(k) => {
            let meta = s.subrange(0, k);
            let payload = s.subrange(k + 1, s.len() as int);
            if !(occurs_at(meta, "data:"@, 0) && occurs_in(meta, ";base64"@)) {
                DataUrlShape::BadHeader
            } else {
                let after = meta.subrange("data:"@.len() as int, meta.len() as int);
                let mime = match find_from(after, ';', 0) {
                    Some(j) => after.subrange(0, j),
                    None => after,
                };
                if mime.len() == 0 {
                    DataUrlShape::NoMime
                } else {
                    DataUrlShape::Parts { mime, payload }
                }
            }
        },
    }
}

/// Why a data URL was refused.
#[derive(Debug)]
pub enum DataUrlError {
    NotDataUrl,
    BadHeader,
    MissingMime,
    Undecodable(base64::DecodeError),
}

proof fn lemma_find_from(s: Seq<char>, c: char, i: int)
    requires
        0 <= i,
    ensures
        match find_from(s, c, i) {
            Some(k) => i <= k < s.len() && s[k] == c,
            None => true,
        },
    decreases s.len() - i,
{
    if i < s.len() && s[i] != c {
        lemma_find_from(s, c, i + 1);
    }
}

fn find_char(s: &Vec<char>, c: char, from: usize) -> (r: Option<usize>)
    requires
        from <= s.len(),
    ensures
        match r {
            Some(i) => find_from(s@, c, from as int) == Some(i as int),
            None => find_from(s@, c, from as int) is None,
        },
{
    let mut i: usize = from;
    while i < s.len()
        invariant
            from <= i <= s.len(),
            find_from(s@, c, from as int) == find_from(s@, c, i as int),
        decreases s.len() - i,
    {
        if s[i] == c {
            return Some(i);
        }
        i = i + 1;
    }
    None
}

fn occurs_at_exec(s: &Vec<char>, pat: &Vec<char>, i: usize) -> (r: bool)
    ensures
        r == occurs_at(s@, pat@, i as int),
{
    if pat.len() > s.len() || i > s.len() - pat.len() {
        return false;
    }
    let mut j: usize = 0;
    while j < pat.len()
        invariant
            i + pat.len() <= s.len(),
            j <= pat.len(),
            forall|t: int| 0 <= t < j ==> s@[i + t] == pat@[t],
        decreases pat.len() - j,
    {
        if s[i + j] != pat[j] {
            assert(s@.subrange(i as int, i + pat.len())[j as int] != pat@[j as int]);
            return false;
        }
        j = j + 1;
    }
    assert(s@.subrange(i as int, i + pat.len()) =~= pat@);
    true
}

fn occurs_in_exec(s: &Vec<char>, pat: &Vec<char>) -> (r: bool)
    requires
        pat.len() > 0,
    ensures
        r == occurs_in(s@, pat@),
{
    if pat.len() > s.len() {
        return false;
    }
    let last = s.len() - pat.len();
    let mut i: usize = 0;
    while i <= last
        invariant
            pat.len() > 0,
            last == s.len() - pat.len(),
            i <= last + 1,
            forall|t: int| 0 <= t < i ==> !occurs_at(s@, pat@, t),
        decreases last + 1 - i,
    {
        if occurs_at_exec(s, pat, i) {
            return true;
        }
        i = i + 1;
    }
    assert forall|t: int| !occurs_at(s@, pat@, t) by {
        if 0 <= t < i {
        }
    }
    false
}

/// Splits a data URL into its MIME type and its base64 payload.
pub fn split_data_url(s: &str) -> (r: Result<(String, String), DataUrlError>)
    ensures
        match r {
            Ok((mime, payload)) => data_url_shape(s@) == DataUrlShape::Parts {
                mime: mime@,
                payload: payload@,
            },
            Err(DataUrlError::NotDataUrl) => data_url_shape(s@) is NoComma,
            Err(DataUrlError::BadHeader) => data_url_shape(s@) is BadHeader,
            Err(DataUrlError::MissingMime) => data_url_shape(s@) is NoMime,
            Err(DataUrlError::Undecodable(_)) => false,
        },
{
    let cs = chars_of(s);
    let n = cs.len();
    let k = match find_char(&cs, ',', 0) {
        Some(k) => k,
        None => return Err(DataUrlError::NotDataUrl),
    };
    proof {
        lemma_find_from(s@, ',', 0);
        reveal_strlit("data:");
        reveal_strlit(";base64");
    }
    let meta_str = s.substring_char(0, k);
    let meta = chars_of(meta_str);
    let prefix = chars_of("data:");
    let tag = chars_of(";base64");
    if !(occurs_at_exec(&meta, &prefix, 0) && occurs_in_exec(&meta, &tag)) {
        return Err(DataUrlError::BadHeader);
    }
    assert(meta@.len() >= 5);
    let after_str = meta_str.substring_char(5, k);
    let after = chars_of(after_str);
    proof {
        lemma_find_from(after@, ';', 0);
    }
    let mime_str = match find_char(&after, ';', 0) {
        Some(j) => after_str.substring_char(0, j),
        None => after_str,
    };
    if mime_str.unicode_len() == 0 {
        return Err(DataUrlError::MissingMime);
    }
    let payload = s.substring_char(k + 1, n);
    Ok((String::from_str(mime_str), String::from_str(payload)))
}

/// Reads a base64 data URL into its MIME type and its bytes.
pub fn parse_data_url(s: &str) -> (r: Result<(String, Vec<u8>), DataUrlError>)
    ensures
        match r {
            Ok((mime, bytes)) => match data_url_shape(s@) {
                DataUrlShape::Parts { mime: m, payload } => mime@ == m && base64_bytes(payload)
                    == Some(bytes@),
                _ => false,
            },
            Err(DataUrlError::NotDataUrl) => data_url_shape(s@) is NoComma,
            Err(DataUrlError::BadHeader) => data_url_shape(s@) is BadHeader,
            Err(DataUrlError::MissingMime) => data_url_shape(s@) is NoMime,
            Err(DataUrlError::Undecodable(_)) => match data_url_shape(s@) {
                DataUrlShape::Parts { mime: _, payload } => base64_bytes(payload) is None,
                _ => false,
            },
        },
{
    let (mime, payload) = split_data_url(s)?;
    match base64_decode(payload.as_str()) {
        Ok(bytes) => Ok((mime, bytes)),
        Err(e) => Err(DataUrlError::Undecodable(e)),
    }
}

} // verus!
