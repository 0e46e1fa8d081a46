//! Calls into the standard library and outside crates whose results
//! the verified code builds on. Each contract here is believed, not
//! proved; each doc comment says what it claims.

use vstd::prelude::*;
use sha2::Digest;
use crate::types::opt_view;

verus! {

/// The Unicode `Alphabetic` or numeric property of a character, as
/// `char::is_alphanumeric` decides it.
pub uninterp spec fn char_alphanumeric(c: char) -> bool;

/// An ASCII letter or digit.
pub open spec fn ascii_alphanumeric(c: char) -> bool {
    ('a' <= c <= 'z') || ('A' <= c <= 'Z') || ('0' <= c <= '9')
}

/// Calls `char::is_alphanumeric`. Claims that its result is
/// `char_alphanumeric(c)`, a function of the character alone, and that
/// for an ASCII character it is true exactly of the letters and digits
/// (the documentation defines the property as `is_alphabetic() ||
/// is_numeric()`; in ASCII the alphabetic characters are the letters and
/// the numeric ones the digits).
#[verifier::external_body]
pub(crate) fn is_alphanumeric_char(c: char) -> (r: bool)
    ensures
        r == char_alphanumeric(c),
        (c as u32) < 128 ==> (r == ascii_alphanumeric(c)),
{
    c.is_alphanumeric()
}

/// The characters of the standard base64 alphabet and its padding.
pub open spec fn base64_symbol(c: char) -> bool {
    ascii_alphanumeric(c) || c == '+' || c == '/' || c == '='
}

/// The character with index `i` (0 to 63) of the standard base64
/// alphabet: `A-Z`, `a-z`, `0-9`, `+`, `/`.
pub open spec fn base64_alphabet(i: int) -> char {
    if i < 26 {
        (65 + i) as char
    } else if i < 52 {
        (71 + i) as char
    } else if i < 62 {
        (i - 4) as char
    } else if i == 62 {
        '+'
    } else {
        '/'
    }
}

/// Standard base64 with padding, as `base64::encode` writes it: each
/// group of three bytes becomes four characters of six bits each, most
/// significant first; a last group of one or two bytes becomes two or
/// three characters (the missing bits zero) followed by `=` padding to
/// four.
pub open spec fn base64_encoded(bytes: Seq<u8>) -> Seq<char>
    decreases bytes.len(),
{
    if bytes.len() == 0 {
        seq![]
    } else if bytes.len() == 1 {
        let b0 = bytes[0] as int;
        seq![base64_alphabet(b0 / 4), base64_alphabet((b0 % 4) * 16), '=', '=']
    } else if bytes.len() == 2 {
        let b0 = bytes[0] as int;
        let b1 = bytes[1] as int;
        seq![
            base64_alphabet(b0 / 4),
            base64_alphabet((b0 % 4) * 16 + b1 / 16),
            base64_alphabet((b1 % 16) * 4),
            '=',
        ]
    } else {
        let b0 = bytes[0] as int;
        let b1 = bytes[1] as int;
        let b2 = bytes[2] as int;
        seq![
            base64_alphabet(b0 / 4),
            base64_alphabet((b0 % 4) * 16 + b1 / 16),
            base64_alphabet((b1 % 16) * 4 + b2 / 64),
            base64_alphabet(b2 % 64),
        ] + base64_encoded(bytes.subrange(3, bytes.len() as int))
    }
}

/// What `base64::decode` (the `STANDARD` engine) makes of the given
/// text: the decoded bytes, or `None` where it returns an error.
pub uninterp spec fn base64_decoded(text: Seq<char>) -> Option<Seq<u8>>;

/// Calls `base64::encode`. Claims that the result is the standard
/// padded base64 of the bytes, `base64_encoded(bytes)` (the `STANDARD`
/// engine: the standard alphabet, `=` padding, zero trailing bits), and
/// that `base64::decode` gives the bytes back from it (its decoder takes
/// exactly such canonical text; the crate's round-trip tests check
/// this). The `requires` leaves out inputs whose encoded length would not
/// fit in `usize`, on which the crate panics.
#[verifier::external_body]
#[allow(deprecated)]
pub(crate) fn base64_encode(bytes: &[u8]) -> (r: String)
    requires
        4 * ((bytes@.len() + 2) / 3) <= usize::MAX,
    ensures
        r@ == base64_encoded(bytes@),
        base64_decoded(r@) == Some(bytes@),
{
    base64::encode(bytes)
}

/// The error type of `base64::decode`.
#[verifier::external_type_specification]
#[verifier::external_body]
pub struct ExDecodeError(base64::DecodeError);

/// Calls `base64::decode` on the UTF-8 bytes of `text`. Claims that it
/// succeeds exactly when `base64_decoded(text)` is `Some`, with those
/// bytes.
#[verifier::external_body]
#[allow(deprecated)]
pub(crate) fn base64_decode(text: &str) -> (r: Result<Vec<u8>, base64::DecodeError>)
    ensures
        match r {
            Ok(v) => base64_decoded(text@) == Some(v@),
            Err(_) => base64_decoded(text@) is None,
        },
{
    base64::decode(text)
}

/// Calls the `Display` of `base64::DecodeError`. Claims nothing of the
/// text: it depends on what the error holds, which Verus does not see.
#[verifier::external_body]
pub(crate) fn decode_error_text(e: &base64::DecodeError) -> String {
    e.to_string()
}

/// The lowercase hexadecimal digit of `d`.
pub open spec fn hex_digit(d: int) -> char {
    if d < 10 {
        (48 + d) as char
    } else {
        (87 + d) as char
    }
}

/// Two lowercase hexadecimal digits per byte, most significant first.
pub open spec fn hex_lower(bytes: Seq<u8>) -> Seq<char>
    decreases bytes.len(),
{
    if bytes.len() == 0 {
        seq![]
    } else {
        hex_lower(bytes.drop_last()) + seq![
            hex_digit(bytes.last() as int / 16),
            hex_digit(bytes.last() as int % 16),
        ]
    }
}

/// Calls `hex::encode`. Claims what its documentation says: each byte
/// becomes two lowercase hexadecimal digits, in order.
#[verifier::external_body]
pub(crate) fn hex_encode(bytes: &[u8]) -> (r: String)
    ensures
        r@ == hex_lower(bytes@),
{
    hex::encode(bytes)
}

/// The SHA-256 digest of the given bytes.
pub uninterp spec fn sha256_digest(data: Seq<u8>) -> Seq<u8>;

/// Calls `sha2::Sha256::digest`. Claims that the result is
/// `sha256_digest(data)` and is 32 bytes long (the output size of
/// SHA-256).
#[verifier::external_body]
pub(crate) fn sha256(data: &[u8]) -> (r: Vec<u8>)
    ensures
        r@ == sha256_digest(data@),
        r@.len() == 32,
{
    sha2::Sha256::digest(data).to_vec()
}

/// A lowercase hexadecimal digit.
pub open spec fn lower_hex_char(c: char) -> bool {
    ('0' <= c <= '9') || ('a' <= c <= 'f')
}

/// The text of a random (version 4) UUID: 36 characters, lowercase
/// hexadecimal digits in groups of 8, 4, 4, 4 and 12 joined by `-`, with
/// the version digit `4` and a variant digit of `8`, `9`, `a` or `b`.
pub open spec fn uuid_v4_text(t: Seq<char>) -> bool {
    &&& t.len() == 36
    &&& forall|i: int|
        0 <= i < 36 ==> if i == 8 || i == 13 || i == 18 || i == 23 {
            t[i] == '-'
        } else {
            lower_hex_char(#[trigger] t[i])
        }
    &&& t[14] == '4'
    &&& (t[19] == '8' || t[19] == '9' || t[19] == 'a' || t[19] == 'b')
}

/// Calls `uuid::Uuid::new_v4` and renders the identifier with its
/// `Display`. The identifier is random; what is claimed is the shape of
/// its text: `Display` writes the lowercase hyphenated form, and
/// `new_v4` sets the version bits to 4 and the variant bits to `10`.
#[verifier::external_body]
pub(crate) fn random_uuid() -> (r: String)
    ensures
        uuid_v4_text(r@),
{
    uuid::Uuid::new_v4().to_string()
}

/// The MIME type that `mime_guess` gives an extension: the first type of
/// `from_ext(ext)`, or `application/octet-stream` when it knows none.
pub uninterp spec fn mime_for_extension(ext: Seq<char>) -> Seq<char>;

/// The MIME type `mime_guess` gives a path: by its extension as
/// `Path::extension` finds it, or `application/octet-stream` when it has
/// none.
pub open spec fn guessed_mime(path: Seq<char>) -> Seq<char> {
    match path_extension(path) {
        Some(e) => mime_for_extension(e),
        None => "application/octet-stream"@,
    }
}

/// The ASCII lowercase of a character: `A` to `Z` become `a` to `z`,
/// any other character stays.
pub open spec fn ascii_lower_char(c: char) -> char {
    if 'A' <= c <= 'Z' {
        ((c as u32) + 32) as char
    } else {
        c
    }
}

/// Text made of ASCII characters only.
pub open spec fn is_ascii_text(s: Seq<char>) -> bool {
    forall|i: int| 0 <= i < s.len() ==> (#[trigger] s[i] as u32) < 128
}

/// Two ASCII texts that are equal but for the case of their letters.
pub open spec fn same_but_ascii_case(a: Seq<char>, b: Seq<char>) -> bool {
    &&& is_ascii_text(a)
    &&& is_ascii_text(b)
    &&& a.len() == b.len()
    &&& forall|i: int| 0 <= i < a.len() ==> ascii_lower_char(#[trigger] a[i]) == ascii_lower_char(b[i])
}

/// The MIME types that `mime_guess`'s table gives the extensions this
/// library names decoded inputs with.
pub open spec fn listed_mime(ext: Seq<char>) -> Option<Seq<char>> {
    if ext == "png"@ {
        Some("image/png"@)
    } else if ext == "jpg"@ {
        Some("image/jpeg"@)
    } else if ext == "gif"@ {
        Some("image/gif"@)
    } else if ext == "pdf"@ {
        Some("application/pdf"@)
    } else if ext == "mp4"@ {
        Some("video/mp4"@)
    } else if ext == "bin"@ {
        Some("application/octet-stream"@)
    } else {
        None
    }
}

/// Calls `mime_guess::from_path(path).first_or_octet_stream()` and
/// renders the MIME type as text. Claims that the result is
/// `guessed_mime(path)`: the crate's source looks the path's
/// `Path::extension` up with `from_ext`, and gives an empty guess, whose
/// first type is `application/octet-stream`, when there is none. Claims
/// too what its documentation says, that the lookup ignores letter case
/// (stated for ASCII extensions, which `unicase` compares letter by
/// letter), and the entries of its table (`mime_types.rs`) for the
/// extensions of `listed_mime`.
#[verifier::external_body]
pub(crate) fn guess_mime(path: &str) -> (r: String)
    ensures
        match path_extension(path@) {
            Some(e) => r@ == mime_for_extension(e),
            None => r@ == "application/octet-stream"@,
        },
        path_extension(path@) matches Some(e) ==> forall|e2: Seq<char>|
            #[trigger] same_but_ascii_case(e2, e) ==> mime_for_extension(e2) == r@,
        path_extension(path@) matches Some(e) ==> (listed_mime(e) matches Some(m) ==> r@ == m),
{
    let mime = mime_guess::from_path(path).first_or_octet_stream();
    let text: &str = mime.as_ref();
    text.to_string()
}

/// What `std::path::Path::extension` gives for a path.
pub uninterp spec fn path_extension(path: Seq<char>) -> Option<Seq<char>>;

/// Calls `std::path::Path::extension` on `path`. Claims that the
/// result is `path_extension(path)`.
#[verifier::external_body]
pub(crate) fn extension_of(path: &str) -> (r: Option<String>)
    ensures
        opt_view(r) == path_extension(path@),
{
    let ext = std::path::Path::new(path).extension()?;
    Some(ext.to_string_lossy().into_owned())
}

/// What `str::to_lowercase` gives for a text.
pub uninterp spec fn lowercased(s: Seq<char>) -> Seq<char>;

/// Calls `str::to_lowercase`. Claims that the result is
/// `lowercased(s)`, and that an ASCII text equal to `s` but for the case
/// of its letters has the same lowercase (the documentation maps each
/// character to its lowercase; the lowercase of an ASCII letter is its
/// ASCII lowercase, and other ASCII characters stay).
#[verifier::external_body]
pub(crate) fn to_lowercase(s: &str) -> (r: String)
    ensures
        r@ == lowercased(s@),
        forall|t: Seq<char>| #[trigger] same_but_ascii_case(t, s@) ==> lowercased(t) == r@,
{
    s.to_lowercase()
}

} // verus!
