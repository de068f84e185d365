//! Images as inline data: the bytes of an image, base64-encoded behind a
//! prefix that names their media type, so that a display surface can show
//! them without fetching a file.

use vstd::prelude::*;
use crate::error::{CommandError, CommandErrorView, ErrorKind};
use crate::text::chars_of;

verus! {

/// The base64 text of `bytes`: standard alphabet, with padding.
pub uninterp spec fn base64_standard(bytes: Seq<u8>) -> Seq<char>;

/// Whether the base64 text of `len` bytes fits in memory: four characters
/// for every three bytes begun.
pub open spec fn encodable(len: nat) -> bool {
    4 * ((len + 2) / 3) <= usize::MAX
}

/// Whether `c` can stand in padded base64 text of the standard alphabet: a
/// letter, a digit, `+`, `/`, or the padding `=`.
pub open spec fn is_base64_char(c: char) -> bool {
    ||| 'A' <= c <= 'Z'
    ||| 'a' <= c <= 'z'
    ||| '0' <= c <= '9'
    ||| c == '+'
    ||| c == '/'
    ||| c == '='
}

/// Whether `text` has the shape of the padded base64 text of `len` bytes:
/// four characters for every three bytes begun, each of the alphabet.
pub open spec fn is_base64_text(text: Seq<char>, len: nat) -> bool {
    &&& text.len() == 4 * ((len + 2) / 3)
    &&& forall|i: int| 0 <= i < text.len() ==> is_base64_char(#[trigger] text[i])
}

/// Calls `Engine::encode` of the base64 crate on its `STANDARD` engine. The
/// result is taken to be the standard padded base64 text of the input, which
/// has the length that the crate computes for its buffer and holds
/// characters of the standard alphabet and the padding only. The call is
/// made only where that length fits a `usize`, since the crate panics where
/// it does not.
#[verifier::external_body]
fn encode_standard(bytes: &[u8]) -> (text: String)
    requires
        encodable(bytes@.len()),
    ensures
        text@ == base64_standard(bytes@),
        is_base64_text(text@, bytes@.len()),
{
    base64::Engine::encode(&base64::engine::general_purpose::STANDARD, bytes)
}

/// The index just after the last `.` of `path`, or zero where it has none.
pub open spec fn extension_start(path: Seq<char>) -> int
    decreases path.len(),
{
    if path.len() == 0 {
        0
    } else if path.last() == '.' {
        path.len() as int
    } else {
        extension_start(path.drop_last())
    }
}

/// The extension of `path`: what follows its last `.`. A path that holds no
/// `.` has none.
pub open spec fn extension(path: Seq<char>) -> Option<Seq<char>> {
    if extension_start(path) == 0 {
        None
    } else {
        Some(path.skip(extension_start(path)))
    }
}

/// A path has an extension exactly where it holds a `.`; the extension
/// starts just after a `.` and holds none itself.
pub proof fn lemma_extension(path: Seq<char>)
    ensures
        extension(path) is None <==> forall|i: int| 0 <= i < path.len() ==> path[i] != '.',
        0 <= extension_start(path) <= path.len(),
        extension_start(path) > 0 ==> path[extension_start(path) - 1] == '.',
        forall|i: int| extension_start(path) <= i < path.len() ==> path[i] != '.',
    decreases path.len(),
{
    if path.len() > 0 && path.last() != '.' {
        let front = path.drop_last();
        lemma_extension(front);
        assert forall|i: int| 0 <= i < front.len() implies front[i] == path[i] by {}
        if extension(front) is None {
            assert forall|i: int| 0 <= i < path.len() implies path[i] != '.' by {
                if i < front.len() {
                    assert(front[i] != '.');
                }
            }
        } else {
            assert(front[extension_start(front) - 1] == '.');
        }
        assert forall|i: int| extension_start(path) <= i < path.len() implies path[i] != '.' by {
            if i < front.len() {
                assert(front[i] != '.');
            }
        }
    }
}

/// `c`, in lower case where it is one of the letters `A` to `Z`.
pub open spec fn lower(c: char) -> char {
    if 'A' <= c <= 'Z' {
        ((c as u32) + 32) as char
    } else {
        c
    }
}

/// `s` with the letters `A` to `Z` in lower case.
pub open spec fn lowercase(s: Seq<char>) -> Seq<char> {
    s.map_values(|c: char| lower(c))
}

/// The media type of the image at `path`, by its extension without regard to
/// case: PNG, GIF, BMP and WebP have their own; every other extension, and a
/// path without one, is JPEG.
pub open spec fn mime_type(path: Seq<char>) -> Seq<char> {
    match extension(path) {
        None => "image/jpeg"@,
        Some(ext) => if lowercase(ext) == "png"@ {
            "image/png"@
        } else if lowercase(ext) == "gif"@ {
            "image/gif"@
        } else if lowercase(ext) == "bmp"@ {
            "image/bmp"@
        } else if lowercase(ext) == "webp"@ {
            "image/webp"@
        } else {
            "image/jpeg"@
        },
    }
}

/// An inline-data descriptor: the media type and the base64 payload.
pub open spec fn inline_data_text(mime: Seq<char>, payload: Seq<char>) -> Seq<char> {
    "data:"@ + mime + ";base64,"@ + payload
}

/// The inline data of an image of media type `mime` that holds `bytes`.
pub open spec fn data_uri_text(mime: Seq<char>, bytes: Seq<u8>) -> Seq<char> {
    inline_data_text(mime, base64_standard(bytes))
}

/// The error for an image that could not be read.
pub open spec fn read_failure(detail: Seq<char>) -> CommandErrorView {
    CommandErrorView {
        kind: ErrorKind::FilesystemFailure,
        message: "Failed to read image: "@ + detail,
    }
}

/// The error for an image whose base64 text would not fit in memory.
pub open spec fn too_large() -> CommandErrorView {
    CommandErrorView {
        kind: ErrorKind::InvalidArgument,
        message: "Image is too large to encode"@,
    }
}

/// What reading an image as inline data gives: the read's own failure, or the
/// data under the media type of the path.
pub open spec fn image_result(path: Seq<char>, read: Result<Seq<u8>, Seq<char>>) -> Result<
    Seq<char>,
    CommandErrorView,
> {
    match read {
        Err(detail) => Err(read_failure(detail)),
        Ok(bytes) => if encodable(bytes.len()) {
            Ok(data_uri_text(mime_type(path), bytes))
        } else {
            Err(too_large())
        },
    }
}

/// The payload of an inline-data descriptor is what follows its prefix: the
/// descriptor of a media type and a payload, without the prefix for that
/// media type, is the payload again.
pub proof fn lemma_payload_recovered(mime: Seq<char>, payload: Seq<char>)
    ensures
        inline_data_text(mime, payload).skip(inline_data_text(mime, Seq::empty()).len() as int)
            == payload,
{
    let prefix = "data:"@ + mime + ";base64,"@;
    assert(inline_data_text(mime, Seq::empty()) =~= prefix);
    assert((prefix + payload).skip(prefix.len() as int) =~= payload);
}

fn is_lower_of(c: char, letter: char) -> (b: bool)
    ensures
        b == (lower(c) == letter),
{
    let u: u32 = c as u32;
    if 0x41 <= u && u <= 0x5a {
        u + 32 == letter as u32
    } else {
        c == letter
    }
}

/// Whether `chars`, from `from` on, is `word` without regard to case.
#[verifier::loop_isolation(false)]
fn tail_is(chars: &Vec<char>, from: usize, word: &str) -> (b: bool)
    requires
        from <= chars@.len(),
    ensures
        b == (lowercase(chars@.skip(from as int)) == word@),
{
    let letters = chars_of(word);
    let ghost tail = lowercase(chars@.skip(from as int));
    if chars.len() - from != letters.len() {
        return false;
    }
    let mut k: usize = 0;
    while k < letters.len()
        invariant
            k <= letters@.len(),
            forall|m: int| 0 <= m < k ==> tail[m] == letters@[m],
        decreases letters@.len() - k,
    {
        if !is_lower_of(chars[from + k], letters[k]) {
            assert(tail[k as int] != word@[k as int]);
            return false;
        }
        k = k + 1;
    }
    assert(tail =~= word@);
    true
}

/// Where the extension of `chars` starts.
fn find_extension(chars: &Vec<char>) -> (start: usize)
    ensures
        start == extension_start(chars@),
        start <= chars@.len(),
{
    let mut end: usize = chars.len();
    assert(chars@.take(end as int) =~= chars@);
    while end > 0 && chars[end - 1] != '.'
        invariant
            end <= chars@.len(),
            extension_start(chars@) == extension_start(chars@.take(end as int)),
        decreases end,
    {
        assert(chars@.take(end as int).drop_last() =~= chars@.take(end as int - 1));
        end = end - 1;
    }
    end
}

/// The media type of the image at `path`.
pub fn mime_type_of(path: &str) -> (mime: &'static str)
    ensures
        mime@ == mime_type(path@),
{
    let chars = chars_of(path);
    let start = find_extension(&chars);
    if start == 0 {
        "image/jpeg"
    } else if tail_is(&chars, start, "png") {
        "image/png"
    } else if tail_is(&chars, start, "gif") {
        "image/gif"
    } else if tail_is(&chars, start, "bmp") {
        "image/bmp"
    } else if tail_is(&chars, start, "webp") {
        "image/webp"
    } else {
        "image/jpeg"
    }
}

/// The inline-data descriptor of a payload that is base64 text already.
pub fn inline_data(mime: &str, payload: &str) -> (text: String)
    ensures
        text@ == inline_data_text(mime@, payload@),
{
    let mut text = String::from_str("data:");
    text.append(mime);
    text.append(";base64,");
    text.append(payload);
    text
}

/// Whether `bytes` can be encoded: whether its base64 text fits in memory.
pub fn can_encode(bytes: &[u8]) -> (b: bool)
    ensures
        b == encodable(bytes@.len()),
{
    let chunks = bytes.len() / 3 + if bytes.len() % 3 == 0 {
        0
    } else {
        1
    };
    chunks <= usize::MAX / 4
}

/// The inline data of an image of media type `mime` that holds `bytes`;
/// none where the bytes cannot be encoded.
pub fn data_uri(mime: &str, bytes: &[u8]) -> (uri: Option<String>)
    ensures
        encodable(bytes@.len()) <==> uri is Some,
        uri matches Some(text) ==> text@ == data_uri_text(mime@, bytes@) && is_base64_text(
            base64_standard(bytes@),
            bytes@.len(),
        ),
{
    if !can_encode(bytes) {
        return None;
    }
    let payload = encode_standard(bytes);
    Some(inline_data(mime, payload.as_str()))
}

/// Turns the outcome of reading the image at `path` into the command's
/// answer: the image as inline data, or the error to show. A failed read
/// carries the reason as text.
pub fn image_from_read(path: &str, read: Result<Vec<u8>, String>) -> (r: Result<
    String,
    CommandError,
>)
    ensures
        match image_result(
            path@,
            match read {
                Ok(bytes) => Ok(bytes@),
                Err(detail) => Err(detail@),
            },
        ) {
            Ok(text) => r matches Ok(uri) && uri@ == text,
            Err(error) => r matches Err(e) && e@ == error,
        },
{
    match read {
        Err(detail) => Err(
            CommandError::with_detail(
                ErrorKind::FilesystemFailure,
                "Failed to read image: ",
                detail.as_str(),
            ),
        ),
        Ok(bytes) => match data_uri(mime_type_of(path), bytes.as_slice()) {
            Some(uri) => Ok(uri),
            None => Err(
                CommandError::new(ErrorKind::InvalidArgument, "Image is too large to encode"),
            ),
        },
    }
}

} // verus!
