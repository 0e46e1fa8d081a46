//! What a request's input is, how a base64 input is unpacked, and how a
//! generated preview is packed into a `data:` URL.

use vstd::prelude::*;
use vstd::string::*;

use crate::error::PreviewError;
use crate::external::{
    ascii_alphanumeric, base64_alphabet, base64_decode, base64_decoded, base64_encode, base64_encoded, base64_symbol,
    char_alphanumeric, decode_error_text, is_alphanumeric_char,
};
use crate::text::{
    chars_contain, chars_of, chars_start_with, find_first_from, first_index_of, has_infix,
    has_prefix, lemma_first_index_of,
};
use crate::detect::decoded_kind;
use crate::types::{FileType, OutputFormat};

verus! {

/// A character that may appear in base64 text: an alphanumeric
/// character (for ASCII, a letter or a digit; beyond ASCII, in the
/// Unicode sense) or one of `+`, `/`, `=`.
pub open spec fn base64_char(c: char) -> bool {
    if (c as u32) < 128 {
        ascii_alphanumeric(c) || c == '+' || c == '/' || c == '='
    } else {
        char_alphanumeric(c)
    }
}

/// The heuristic for base64 text: a length in bytes that is a multiple
/// of four, and only base64 characters.
pub open spec fn looks_like_base64(s: &str) -> bool {
    s.len() % 4 == 0 && forall|i: int| 0 <= i < s@.len() ==> base64_char(#[trigger] s@[i])
}

/// Whether `s` looks like base64 text: its length in bytes is a
/// multiple of four and every character is alphanumeric or one of
/// `+`, `/`, `=`.
pub fn is_base64(s: &str) -> (r: bool)
    ensures
        r == looks_like_base64(s),
{
    if s.len() % 4 != 0 {
        return false;
    }
    let v = chars_of(s);
    let mut i: usize = 0;
    while i < v.len()
        invariant
            v@ == s@,
            i <= v.len(),
            forall|k: int| 0 <= k < i ==> base64_char(#[trigger] s@[k]),
        decreases v.len() - i,
    {
        let c: char = v[i];
        if !(is_alphanumeric_char(c) || c == '+' || c == '/' || c == '=') {
            return false;
        }
        i = i + 1;
    }
    true
}

/// The file extension guessed for an input: from the MIME type named in
/// a `data:` URL, and "bin" when none is recognised.
pub open spec fn guessed_extension(d: Seq<char>) -> Seq<char> {
    if has_prefix(d, "data:"@) {
        if has_infix(d, "image/png"@) {
            "png"@
        } else if has_infix(d, "image/jpeg"@) || has_infix(d, "image/jpg"@) {
            "jpg"@
        } else if has_infix(d, "image/gif"@) {
            "gif"@
        } else if has_infix(d, "application/pdf"@) {
            "pdf"@
        } else if has_infix(d, "video/"@) {
            "mp4"@
        } else {
            "bin"@
        }
    } else {
        "bin"@
    }
}

/// Guesses the file extension of a base64 input from the MIME type of
/// its `data:` URL: "png", "jpg", "gif", "pdf", "mp4", or "bin".
pub fn guess_extension_from_base64(data: &str) -> (r: &'static str)
    ensures
        r@ == guessed_extension(data@),
{
    let d = chars_of(data);
    if chars_start_with(&d, &chars_of("data:")) {
        if chars_contain(&d, &chars_of("image/png")) {
            "png"
        } else if chars_contain(&d, &chars_of("image/jpeg")) || chars_contain(
            &d,
            &chars_of("image/jpg"),
        ) {
            "jpg"
        } else if chars_contain(&d, &chars_of("image/gif")) {
            "gif"
        } else if chars_contain(&d, &chars_of("application/pdf")) {
            "pdf"
        } else if chars_contain(&d, &chars_of("video/")) {
            "mp4"
        } else {
            "bin"
        }
    } else {
        "bin"
    }
}

/// Where the bytes of an input come from.
#[derive(Debug, Clone, Copy, PartialEq, Eq, Structural)]
pub enum InputSource {
    /// An `http://` or `https://` URL, to be downloaded.
    RemoteUrl,
    /// A `data:` URL or bare base64 text, to be decoded.
    EncodedData,
    /// A path to a local file.
    LocalPath,
}

/// How an input is read: URLs first, then `data:` URLs and base64 text,
/// and anything else as a local path.
pub open spec fn source_of(input: &str) -> InputSource {
    if has_prefix(input@, "http://"@) || has_prefix(input@, "https://"@) {
        InputSource::RemoteUrl
    } else if has_prefix(input@, "data:"@) || looks_like_base64(input) {
        InputSource::EncodedData
    } else {
        InputSource::LocalPath
    }
}

/// Decides how an input is read.
pub fn classify_input(input: &str) -> (r: InputSource)
    ensures
        r == source_of(input),
{
    let v = chars_of(input);
    if chars_start_with(&v, &chars_of("http://")) || chars_start_with(&v, &chars_of("https://")) {
        InputSource::RemoteUrl
    } else if chars_start_with(&v, &chars_of("data:")) || is_base64(input) {
        InputSource::EncodedData
    } else {
        InputSource::LocalPath
    }
}

/// The path a local input names: the path of a `file://` URL (so that
/// `file:///path/to/file.pdf` names `/path/to/file.pdf`), or the input
/// itself.
pub open spec fn local_path(input: Seq<char>) -> Seq<char> {
    if has_prefix(input, "file://"@) {
        input.subrange(7, input.len() as int)
    } else {
        input
    }
}

/// The path of a local input, with a `file://` scheme taken off.
pub fn local_path_of(input: &str) -> (r: String)
    ensures
        r@ == local_path(input@),
{
    proof {
        reveal_strlit("file://");
    }
    let v = chars_of(input);
    if chars_start_with(&v, &chars_of("file://")) {
        let n: usize = v.len();
        String::from_str(input.substring_char(7, n))
    } else {
        String::from_str(input)
    }
}

/// The file name a decoded input is stored under: "input." and the
/// guessed extension.
pub fn input_file_name(input: &str) -> (r: String)
    ensures
        r@ == "input."@ + guessed_extension(input@),
{
    String::from_str("input.").concat(guess_extension_from_base64(input))
}

/// The base64 text of an input: for a `data:` URL the part after its
/// first comma, up to the next comma if there is one (`None` when there
/// is no comma); any other input is taken whole.
pub open spec fn base64_payload(d: Seq<char>) -> Option<Seq<char>> {
    if has_prefix(d, "data:"@) {
        let i = first_index_of(d, ',');
        if i < 0 {
            None
        } else {
            let rest = d.subrange(i + 1, d.len() as int);
            let j = first_index_of(rest, ',');
            if j < 0 {
                Some(rest)
            } else {
                Some(rest.subrange(0, j))
            }
        }
    } else {
        Some(d)
    }
}

/// The bytes an input decodes to, if its base64 text is valid.
pub open spec fn decoded_input(d: Seq<char>) -> Option<Seq<u8>> {
    match base64_payload(d) {
        Some(p) => base64_decoded(p),
        None => None,
    }
}

/// Takes the base64 text out of an input; a `data:` URL without a comma
/// is refused as invalid input.
pub fn extract_base64_payload(data: &str) -> (r: Result<String, PreviewError>)
    ensures
        match base64_payload(data@) {
            Some(p) => r matches Ok(s) && s@ == p,
            None => r matches Err(PreviewError::InvalidInput(m)) && m@
                == "Invalid base64 data format"@,
        },
{
    let v = chars_of(data);
    if !chars_start_with(&v, &chars_of("data:")) {
        return Ok(String::from_str(data));
    }
    let n: usize = v.len();
    proof {
        lemma_first_index_of(data@, ',');
    }
    match find_first_from(&v, ',', 0) {
        None => Err(PreviewError::InvalidInput(String::from_str("Invalid base64 data format"))),
        Some(i) => {
            let ghost rest = data@.subrange(i + 1, n as int);
            proof {
                lemma_first_index_of(rest, ',');
                assert forall|k: int| 0 <= k < rest.len() implies rest[k] == v@[i + 1 + k] by {}
            }
            let next = find_first_from(&v, ',', i + 1);
            let end: usize = match next {
                Some(j) => j,
                None => n,
            };
            let piece = data.substring_char(i + 1, end);
            proof {
                let j = first_index_of(rest, ',');
                match next {
                    Some(jj) => {
                        assert(rest[jj - i - 1] == ',');
                        if j >= 0 {
                            assert(v@[i + 1 + j] == ',');
                        }
                        assert(j == jj - i - 1);
                        assert(piece@ =~= rest.subrange(0, j));
                    },
                    None => {
                        if j >= 0 {
                            assert(v@[i + 1 + j] == ',');
                        }
                        assert(piece@ =~= rest);
                    },
                }
            }
            Ok(String::from_str(piece))
        },
    }
}

/// Decodes a base64 input (bare text or a `data:` URL). A `data:` URL
/// without a comma, and text that is not valid base64, are refused as
/// invalid input; the latter's message starts with "Invalid base64: "
/// and goes on with the decoder's own description of the fault.
pub fn decode_base64_input(data: &str) -> (r: Result<Vec<u8>, PreviewError>)
    ensures
        r is Ok <==> decoded_input(data@) is Some,
        r matches Ok(v) ==> decoded_input(data@) == Some(v@),
        base64_payload(data@) is None ==> (r matches Err(PreviewError::InvalidInput(m)) && m@
            == "Invalid base64 data format"@),
        (base64_payload(data@) is Some && decoded_input(data@) is None) ==> (r matches Err(
            PreviewError::InvalidInput(m),
        ) && has_prefix(m@, "Invalid base64: "@)),
{
    let payload = extract_base64_payload(data)?;
    match base64_decode(payload.as_str()) {
        Ok(bytes) => Ok(bytes),
        Err(e) => {
            let prefix = String::from_str("Invalid base64: ");
            let text = decode_error_text(&e);
            let m = prefix.concat(text.as_str());
            proof {
                reveal_strlit("Invalid base64: ");
                assert(m@.subrange(0, "Invalid base64: "@.len() as int) =~= "Invalid base64: "@);
            }
            Err(PreviewError::InvalidInput(m))
        },
    }
}

/// The `data:` URL of a preview: the image type and the base64 text.
pub open spec fn data_url(ext: Seq<char>, encoded: Seq<char>) -> Seq<char> {
    "data:image/"@ + ext + ";base64,"@ + encoded
}

/// Builds the `data:` URL of a preview from its base64 text.
pub fn preview_data_url(format: OutputFormat, encoded: &str) -> (r: String)
    ensures
        r@ == data_url(format.ext(), encoded@),
{
    String::from_str("data:image/").concat(format.extension()).concat(";base64,").concat(encoded)
}

/// Encodes the bytes of a generated preview as base64 and packs them
/// into a `data:` URL.
pub fn encode_preview(format: OutputFormat, bytes: &[u8]) -> (r: String)
    requires
        4 * ((bytes@.len() + 2) / 3) <= usize::MAX,
    ensures
        r@ == data_url(format.ext(), base64_encoded(bytes@)),
        !base64_encoded(bytes@).contains(','),
        base64_decoded(base64_encoded(bytes@)) == Some(bytes@),
{
    let encoded = base64_encode(bytes);
    proof {
        lemma_base64_has_no_comma(bytes@);
    }
    preview_data_url(format, encoded.as_str())
}

/// Every character of an alphabet index (0 to 63) is a base64 symbol.
proof fn lemma_base64_alphabet(i: int)
    requires
        0 <= i < 64,
    ensures
        base64_symbol(base64_alphabet(i)),
{
}

/// Standard base64 is four characters for every started group of three
/// bytes, each one a base64 symbol.
pub proof fn lemma_base64_shape(bytes: Seq<u8>)
    ensures
        base64_encoded(bytes).len() == 4 * ((bytes.len() + 2) / 3),
        forall|i: int|
            0 <= i < base64_encoded(bytes).len() ==> base64_symbol(#[trigger] base64_encoded(bytes)[i]),
    decreases bytes.len(),
{
    let e = base64_encoded(bytes);
    if bytes.len() == 0 {
    } else if bytes.len() <= 2 {
        let b0 = bytes[0] as int;
        lemma_base64_alphabet(b0 / 4);
        if bytes.len() == 1 {
            lemma_base64_alphabet((b0 % 4) * 16);
        } else {
            let b1 = bytes[1] as int;
            lemma_base64_alphabet((b0 % 4) * 16 + b1 / 16);
            lemma_base64_alphabet((b1 % 16) * 4);
        }
    } else {
        let b0 = bytes[0] as int;
        let b1 = bytes[1] as int;
        let b2 = bytes[2] as int;
        lemma_base64_alphabet(b0 / 4);
        lemma_base64_alphabet((b0 % 4) * 16 + b1 / 16);
        lemma_base64_alphabet((b1 % 16) * 4 + b2 / 64);
        lemma_base64_alphabet(b2 % 64);
        let rest = bytes.subrange(3, bytes.len() as int);
        lemma_base64_shape(rest);
        let head = seq![
            base64_alphabet(b0 / 4),
            base64_alphabet((b0 % 4) * 16 + b1 / 16),
            base64_alphabet((b1 % 16) * 4 + b2 / 64),
            base64_alphabet(b2 % 64),
        ];
        assert(e == head + base64_encoded(rest));
        assert forall|i: int| 0 <= i < e.len() implies base64_symbol(#[trigger] e[i]) by {
            if i >= 4 {
                assert(e[i] == base64_encoded(rest)[i - 4]);
            }
        }
    }
}

/// Standard base64 holds no comma.
pub proof fn lemma_base64_has_no_comma(bytes: Seq<u8>)
    ensures
        !base64_encoded(bytes).contains(','),
{
    lemma_base64_shape(bytes);
    if base64_encoded(bytes).contains(',') {
        let k = choose|k: int| 0 <= k < base64_encoded(bytes).len() && base64_encoded(bytes)[k] == ',';
        assert(base64_symbol(base64_encoded(bytes)[k]));
    }
}

/// If `a` holds no `c`, the first `c` of `a + [c] + b` is right after `a`.
proof fn lemma_first_after(a: Seq<char>, c: char, b: Seq<char>)
    requires
        !a.contains(c),
    ensures
        first_index_of(a + seq![c] + b, c) == a.len(),
{
    let s = a + seq![c] + b;
    lemma_first_index_of(s, c);
    let f = first_index_of(s, c);
    assert(s[a.len() as int] == c);
    if f < a.len() {
        assert(s[f] == a[f]);
    }
}

/// The base64 text packed into a preview's `data:` URL is what comes
/// back out of it, whenever that text holds no comma (base64 text never
/// does).
pub proof fn law_preview_url_payload(format: OutputFormat, encoded: Seq<char>)
    requires
        !encoded.contains(','),
    ensures
        base64_payload(data_url(format.ext(), encoded)) == Some(encoded),
{
    reveal_strlit("data:image/");
    reveal_strlit(";base64,");
    reveal_strlit("data:");
    reveal_strlit("gif");
    reveal_strlit("jpg");
    reveal_strlit("png");
    let d = data_url(format.ext(), encoded);
    let head = "data:image/"@ + format.ext() + ";base64"@;
    reveal_strlit(";base64");
    assert(d =~= head + seq![','] + encoded);
    assert(!head.contains(','));
    lemma_first_after(head, ',', encoded);
    assert(d.subrange(0, 5) =~= "data:"@);
    let rest = d.subrange(head.len() + 1 as int, d.len() as int);
    assert(rest =~= encoded);
    lemma_first_index_of(encoded, ',');
    if first_index_of(encoded, ',') >= 0 {
        assert(encoded.contains(','));
    }
}

/// A preview handed out as a `data:` URL decodes, as a base64 input, to
/// the bytes it was made from: what `encode_preview` produces,
/// `decode_base64_input` takes back.
pub proof fn law_preview_round_trip(format: OutputFormat, bytes: Seq<u8>)
    requires
        base64_decoded(base64_encoded(bytes)) == Some(bytes),
    ensures
        decoded_input(data_url(format.ext(), base64_encoded(bytes))) == Some(bytes),
{
    lemma_base64_has_no_comma(bytes);
    law_preview_url_payload(format, base64_encoded(bytes));
}

/// The base64 text of any `data:` URL whose header (everything before
/// its first comma) holds no comma is what follows that comma, whenever
/// that text holds no comma either.
pub proof fn law_data_url_payload(head: Seq<char>, encoded: Seq<char>)
    requires
        has_prefix(head, "data:"@),
        !head.contains(','),
        !encoded.contains(','),
    ensures
        base64_payload(head + seq![','] + encoded) == Some(encoded),
{
    let d = head + seq![','] + encoded;
    lemma_first_after(head, ',', encoded);
    assert(d.subrange(0, "data:"@.len() as int) =~= head.subrange(0, "data:"@.len() as int));
    let rest = d.subrange(head.len() + 1 as int, d.len() as int);
    assert(rest =~= encoded);
    lemma_first_index_of(encoded, ',');
    if first_index_of(encoded, ',') >= 0 {
        assert(encoded.contains(','));
    }
}

/// Bare base64 text (text in the base64 alphabet, which cannot begin with
/// `data:`) decodes, as an input, to what base64 decoding gives for it:
/// the bytes it was made from, when it was made by encoding them.
pub proof fn law_bare_base64_round_trip(encoded: Seq<char>, bytes: Seq<u8>)
    requires
        forall|i: int| 0 <= i < encoded.len() ==> base64_symbol(#[trigger] encoded[i]),
        base64_decoded(encoded) == Some(bytes),
    ensures
        base64_payload(encoded) == Some(encoded),
        decoded_input(encoded) == Some(bytes),
{
    reveal_strlit("data:");
    if has_prefix(encoded, "data:"@) {
        assert(encoded.subrange(0, 5)[4] == ':');
        assert(base64_symbol(encoded[4]));
    }
}

/// A `file://` URL is read as the local path it names: it is neither a
/// remote URL nor base64 text (its `:` rules that out), and the path read
/// is what follows the scheme. So a `file://` URL and the plain path it
/// names, where that path is itself read as a local path, are read the
/// same way from the same file.
pub proof fn law_file_url_is_local_path(u: &str, path: &str)
    requires
        u@ == "file://"@ + path@,
        !has_prefix(path@, "file://"@),
        source_of(path) == InputSource::LocalPath,
    ensures
        source_of(u) == InputSource::LocalPath,
        source_of(u) == source_of(path),
        local_path(u@) == path@,
        local_path(u@) == local_path(path@),
{
    reveal_strlit("file://");
    reveal_strlit("http://");
    reveal_strlit("https://");
    reveal_strlit("data:");
    assert(u@[0] == 'f');
    assert(u@[4] == ':');
    if has_prefix(u@, "http://"@) {
        assert(u@.subrange(0, 7)[0] == 'h');
    }
    if has_prefix(u@, "https://"@) {
        assert(u@.subrange(0, 8)[0] == 'h');
    }
    if has_prefix(u@, "data:"@) {
        assert(u@.subrange(0, 5)[0] == 'd');
    }
    assert(!base64_char(u@[4]));
    assert(u@.subrange(0, 7) =~= "file://"@);
    assert(u@.subrange(7, u@.len() as int) =~= path@);
}

/// A `data:` URL of any video type (`video/mp4`, `video/webm`,
/// `video/quicktime`, ...) that names none of the image and PDF types
/// checked before is guessed to be a video: it is stored as an "mp4"
/// file, which is detected as a video.
pub proof fn law_data_url_videos_are_videos(d: Seq<char>)
    requires
        has_prefix(d, "data:"@),
        has_infix(d, "video/"@),
        !has_infix(d, "image/png"@),
        !has_infix(d, "image/jpeg"@),
        !has_infix(d, "image/jpg"@),
        !has_infix(d, "image/gif"@),
        !has_infix(d, "application/pdf"@),
    ensures
        guessed_extension(d) == "mp4"@,
        decoded_kind(guessed_extension(d)) == FileType::Video,
{
    reveal_strlit("mp4");
    reveal_strlit("png");
    reveal_strlit("jpg");
    reveal_strlit("gif");
    reveal_strlit("pdf");
    assert("mp4"@ != "png"@ && "mp4"@ != "pdf"@) by {
        assert("mp4"@[0] != "png"@[0] && "mp4"@[0] != "pdf"@[0]);
    }
    assert("mp4"@ != "jpg"@ && "mp4"@ != "gif"@) by {
        assert("mp4"@[0] != "jpg"@[0] && "mp4"@[0] != "gif"@[0]);
    }
}

/// The extension guessed for an input follows the type its `data:` URL
/// names, checked in the order PNG, JPEG, GIF, PDF, video: a PNG is
/// "png", a JPEG "jpg", a GIF "gif", a PDF "pdf"; a `data:` URL of none
/// of these types, and any input that is not a `data:` URL, is "bin".
pub proof fn law_guessed_extension_follows_type(d: Seq<char>)
    ensures
        !has_prefix(d, "data:"@) ==> guessed_extension(d) == "bin"@,
        has_prefix(d, "data:"@) && has_infix(d, "image/png"@) ==> guessed_extension(d) == "png"@,
        has_prefix(d, "data:"@) && !has_infix(d, "image/png"@) && (has_infix(d, "image/jpeg"@)
            || has_infix(d, "image/jpg"@)) ==> guessed_extension(d) == "jpg"@,
        has_prefix(d, "data:"@) && !has_infix(d, "image/png"@) && !has_infix(d, "image/jpeg"@)
            && !has_infix(d, "image/jpg"@) && has_infix(d, "image/gif"@) ==> guessed_extension(d)
            == "gif"@,
        has_prefix(d, "data:"@) && !has_infix(d, "image/png"@) && !has_infix(d, "image/jpeg"@)
            && !has_infix(d, "image/jpg"@) && !has_infix(d, "image/gif"@) && has_infix(
            d,
            "application/pdf"@,
        ) ==> guessed_extension(d) == "pdf"@,
        has_prefix(d, "data:"@) && !has_infix(d, "image/png"@) && !has_infix(d, "image/jpeg"@)
            && !has_infix(d, "image/jpg"@) && !has_infix(d, "image/gif"@) && !has_infix(
            d,
            "application/pdf"@,
        ) && !has_infix(d, "video/"@) ==> guessed_extension(d) == "bin"@,
{
}

} // verus!
