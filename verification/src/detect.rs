//! The kind of an input file, from its MIME type and, failing that,
//! from its extension.

use vstd::prelude::*;
use vstd::string::*;

use crate::external::{
    extension_of, guess_mime, guessed_mime, listed_mime, lowercased, path_extension,
    same_but_ascii_case, to_lowercase,
};
use crate::input::guessed_extension;
use crate::text::{chars_of, chars_start_with, has_prefix, str_equal};
use crate::types::FileType;

verus! {

/// The kind of a file with the given (lowercase) extension.
pub open spec fn kind_of_extension(ext: Seq<char>) -> FileType {
    if ext == "pdf"@ || ext == "jpg"@ || ext == "jpeg"@ || ext == "png"@ || ext == "gif"@
        || ext == "bmp"@ || ext == "tiff"@ || ext == "webp"@ {
        FileType::Image
    } else if ext == "mp4"@ || ext == "avi"@ || ext == "mov"@ || ext == "wmv"@ || ext == "flv"@
        || ext == "webm"@ || ext == "mkv"@ {
        FileType::Video
    } else if ext == "doc"@ || ext == "docx"@ || ext == "xls"@ || ext == "xlsx"@ || ext
        == "ppt"@ || ext == "pptx"@ || ext == "odt"@ || ext == "ods"@ || ext == "odp"@ {
        FileType::Document
    } else {
        FileType::Other
    }
}

/// Whether the MIME type alone decides the kind of a file.
pub open spec fn mime_decides(mime: Seq<char>) -> bool {
    has_prefix(mime, "image/"@) || has_prefix(mime, "video/"@) || mime == "application/pdf"@
        || has_prefix(mime, "application/"@) || has_prefix(mime, "text/"@)
}

/// The kind of a file of the given MIME type, where the MIME type
/// decides it: images and PDF files are images, videos are videos,
/// other `application/` and `text/` types are documents.
pub open spec fn kind_of_mime(mime: Seq<char>) -> FileType {
    if has_prefix(mime, "image/"@) {
        FileType::Image
    } else if has_prefix(mime, "video/"@) {
        FileType::Video
    } else if mime == "application/pdf"@ {
        FileType::Image
    } else {
        FileType::Document
    }
}

/// The kind of a file of the given MIME type and lowercased extension.
pub open spec fn kind_of_file(mime: Seq<char>, lower_ext: Seq<char>) -> FileType {
    if mime_decides(mime) {
        kind_of_mime(mime)
    } else {
        kind_of_extension(lower_ext)
    }
}

/// The lowercased extension of a path ("" lowercased when it has none).
pub open spec fn lower_extension(path: Seq<char>) -> Seq<char> {
    match path_extension(path) {
        Some(e) => lowercased(e),
        None => lowercased(Seq::empty()),
    }
}

/// The kind of a file with the given path.
pub open spec fn kind_of_path(path: Seq<char>) -> FileType {
    kind_of_file(guessed_mime(path), lower_extension(path))
}

/// Two paths whose extensions are equal but for the case of their
/// (ASCII) letters, or that both have none.
pub open spec fn same_extension_but_case(p1: Seq<char>, p2: Seq<char>) -> bool {
    match (path_extension(p1), path_extension(p2)) {
        (Some(a), Some(b)) => same_but_ascii_case(a, b),
        (None, None) => true,
        _ => false,
    }
}

/// The kind a file named with one of the extensions given to decoded
/// inputs is of: "png", "jpg", "gif" and "pdf" files are images, "mp4"
/// files videos, and "bin" files documents.
pub open spec fn decoded_kind(ext: Seq<char>) -> FileType {
    if ext == "png"@ || ext == "jpg"@ || ext == "gif"@ || ext == "pdf"@ {
        FileType::Image
    } else if ext == "mp4"@ {
        FileType::Video
    } else {
        FileType::Document
    }
}

/// The MIME types listed for the extensions of decoded inputs decide
/// their kind, as `decoded_kind` gives it.
proof fn lemma_listed_kinds(ext: Seq<char>)
    requires
        listed_mime(ext) is Some,
    ensures
        mime_decides(listed_mime(ext)->0),
        kind_of_mime(listed_mime(ext)->0) == decoded_kind(ext),
{
    reveal_strlit("png");
    reveal_strlit("jpg");
    reveal_strlit("gif");
    reveal_strlit("pdf");
    reveal_strlit("mp4");
    reveal_strlit("bin");
    reveal_strlit("image/png");
    reveal_strlit("image/jpeg");
    reveal_strlit("image/gif");
    reveal_strlit("application/pdf");
    reveal_strlit("video/mp4");
    reveal_strlit("application/octet-stream");
    reveal_strlit("image/");
    reveal_strlit("video/");
    reveal_strlit("application/");
    reveal_strlit("text/");
    let m = listed_mime(ext)->0;
    if ext == "png"@ || ext == "jpg"@ || ext == "gif"@ {
        assert(m.subrange(0, 6) =~= "image/"@);
    } else if ext == "pdf"@ {
        assert(m.subrange(0, 12) =~= "application/"@);
        assert(m.subrange(0, 6) != "image/"@) by {
            assert(m.subrange(0, 6)[0] != "image/"@[0]);
        }
        assert(m.subrange(0, 6) != "video/"@) by {
            assert(m.subrange(0, 6)[0] != "video/"@[0]);
        }
    } else if ext == "mp4"@ {
        assert(m.subrange(0, 6) =~= "video/"@);
        assert(m.subrange(0, 6) != "image/"@) by {
            assert(m.subrange(0, 6)[0] != "image/"@[0]);
        }
    } else {
        assert(m.subrange(0, 12) =~= "application/"@);
        assert(m.subrange(0, 6) != "image/"@) by {
            assert(m.subrange(0, 6)[0] != "image/"@[0]);
        }
        assert(m.subrange(0, 6) != "video/"@) by {
            assert(m.subrange(0, 6)[0] != "video/"@[0]);
        }
        assert(m != "application/pdf"@) by {
            assert(m.len() != "application/pdf"@.len());
        }
    }
}

/// The kind of a file with the given lowercase extension.
pub fn file_type_for_extension(ext: &str) -> (r: FileType)
    ensures
        r == kind_of_extension(ext@),
{
    if str_equal(ext, "pdf") || str_equal(ext, "jpg") || str_equal(ext, "jpeg") || str_equal(
        ext,
        "png",
    ) || str_equal(ext, "gif") || str_equal(ext, "bmp") || str_equal(ext, "tiff") || str_equal(
        ext,
        "webp",
    ) {
        FileType::Image
    } else if str_equal(ext, "mp4") || str_equal(ext, "avi") || str_equal(ext, "mov")
        || str_equal(ext, "wmv") || str_equal(ext, "flv") || str_equal(ext, "webm") || str_equal(
        ext,
        "mkv",
    ) {
        FileType::Video
    } else if str_equal(ext, "doc") || str_equal(ext, "docx") || str_equal(ext, "xls")
        || str_equal(ext, "xlsx") || str_equal(ext, "ppt") || str_equal(ext, "pptx")
        || str_equal(ext, "odt") || str_equal(ext, "ods") || str_equal(ext, "odp") {
        FileType::Document
    } else {
        FileType::Other
    }
}

/// The kind of a file from its MIME type, if the MIME type decides it.
pub fn file_type_for_mime(mime: &str) -> (r: Option<FileType>)
    ensures
        mime_decides(mime@) ==> r == Some(kind_of_mime(mime@)),
        !mime_decides(mime@) ==> r is None,
{
    let m = chars_of(mime);
    if chars_start_with(&m, &chars_of("image/")) {
        Some(FileType::Image)
    } else if chars_start_with(&m, &chars_of("video/")) {
        Some(FileType::Video)
    } else if str_equal(mime, "application/pdf") {
        Some(FileType::Image)
    } else if chars_start_with(&m, &chars_of("application/")) || chars_start_with(
        &m,
        &chars_of("text/"),
    ) {
        Some(FileType::Document)
    } else {
        None
    }
}

/// The extension of a path, lowercased; "" lowercased when it has none.
pub fn lower_extension_of(path: &str) -> (r: String)
    ensures
        r@ == lower_extension(path@),
        forall|p2: Seq<char>| #[trigger]
            same_extension_but_case(p2, path@) ==> lower_extension(p2) == r@,
{
    let ext = match extension_of(path) {
        Some(e) => e,
        None => String::from_str(""),
    };
    proof {
        reveal_strlit("");
        assert(""@ =~= Seq::<char>::empty());
    }
    to_lowercase(ext.as_str())
}

/// Decides the kind of a file from its path: by the MIME type guessed
/// from the path, and where that does not decide it, by the lowercased
/// extension. Letter case does not matter: a path whose extension
/// differs only in the case of its letters is of the same kind. A path
/// named with an extension given to decoded inputs is of the kind
/// `decoded_kind` names.
pub fn detect_file_type(path: &str) -> (r: FileType)
    ensures
        r == kind_of_path(path@),
        forall|p2: Seq<char>| #[trigger]
            same_extension_but_case(p2, path@) ==> kind_of_path(p2) == r,
        path_extension(path@) matches Some(e) ==> (listed_mime(e) is Some ==> r == decoded_kind(e)),
{
    proof {
        if let Some(e) = path_extension(path@) {
            if listed_mime(e) is Some {
                lemma_listed_kinds(e);
            }
        }
    }
    let mime = guess_mime(path);
    match file_type_for_mime(mime.as_str()) {
        Some(t) => t,
        None => {
            let lower = lower_extension_of(path);
            file_type_for_extension(lower.as_str())
        },
    }
}

/// The kind of a file depends on its path only through the path's
/// extension: two paths with the same extension are of the same kind.
pub proof fn law_kind_depends_only_on_extension(p1: Seq<char>, p2: Seq<char>)
    requires
        path_extension(p1) == path_extension(p2),
    ensures
        kind_of_path(p1) == kind_of_path(p2),
{
}

/// Every extension guessed for a decoded input has a listed MIME type,
/// so a file named with it is of the kind `decoded_kind` gives (see
/// `detect_file_type`): an image for "png", "jpg", "gif" and "pdf", a
/// video for "mp4", a document for "bin".
pub proof fn law_guessed_extensions_are_listed(d: Seq<char>)
    ensures
        listed_mime(guessed_extension(d)) is Some,
{
}

} // verus!
