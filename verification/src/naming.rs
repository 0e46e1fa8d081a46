//! Names and paths of the files the service writes and serves.

use vstd::prelude::*;
use vstd::string::*;

use crate::error::PreviewError;
use crate::external::{
    hex_digit, hex_encode, hex_lower, lower_hex_char, random_uuid, sha256, sha256_digest,
    uuid_v4_text,
};
use vstd::utf8::encode_utf8;
use crate::text::{chars_of, find_first_from, str_equal, decimal, after_last, lemma_after_last_free_of, signed_decimal, signed_decimal_string, text_after_last, last_index_of, lemma_last_index_of};
use crate::types::OutputFormat;

verus! {

/// The name of a preview file: "preview_", the hexadecimal form of the
/// first eight bytes of a digest, ".", and the extension.
pub open spec fn preview_name(digest: Seq<u8>, ext: Seq<char>) -> Seq<char> {
    "preview_"@ + hex_lower(digest.take(8)) + "."@ + ext
}

/// The shape of a preview file name: "preview_", 16 lowercase
/// hexadecimal digits, ".", and the extension.
pub open spec fn preview_name_shape(name: Seq<char>, ext: Seq<char>) -> bool {
    &&& name.len() == 25 + ext.len()
    &&& name.subrange(0, 8) == "preview_"@
    &&& forall|i: int| 8 <= i < 24 ==> lower_hex_char(#[trigger] name[i])
    &&& name[24] == '.'
    &&& name.subrange(25, name.len() as int) == ext
}

/// Two lowercase hexadecimal digits per byte.
pub proof fn lemma_hex_lower(bytes: Seq<u8>)
    ensures
        hex_lower(bytes).len() == 2 * bytes.len(),
        forall|i: int| 0 <= i < hex_lower(bytes).len() ==> lower_hex_char(#[trigger] hex_lower(bytes)[i]),
    decreases bytes.len(),
{
    if bytes.len() > 0 {
        lemma_hex_lower(bytes.drop_last());
        let d1 = bytes.last() as int / 16;
        let d2 = bytes.last() as int % 16;
        assert(lower_hex_char(hex_digit(d1)));
        assert(lower_hex_char(hex_digit(d2)));
        let prev = hex_lower(bytes.drop_last());
        let h = hex_lower(bytes);
        assert(h == prev + seq![hex_digit(d1), hex_digit(d2)]);
        assert forall|i: int| 0 <= i < h.len() implies lower_hex_char(#[trigger] h[i]) by {
            if i < prev.len() {
                assert(h[i] == prev[i]);
            }
        }
    }
}

/// A preview name made from a digest of at least eight bytes has the
/// preview name shape.
pub proof fn lemma_preview_name_shape(digest: Seq<u8>, ext: Seq<char>)
    requires
        digest.len() >= 8,
    ensures
        preview_name_shape(preview_name(digest, ext), ext),
{
    reveal_strlit("preview_");
    reveal_strlit(".");
    let hx = hex_lower(digest.take(8));
    lemma_hex_lower(digest.take(8));
    let n = preview_name(digest, ext);
    assert(n == "preview_"@ + hx + "."@ + ext);
    assert(n.subrange(0, 8) =~= "preview_"@);
    assert forall|i: int| 8 <= i < 24 implies lower_hex_char(#[trigger] n[i]) by {
        assert(n[i] == hx[i - 8]);
    }
    assert(n.subrange(25, n.len() as int) =~= ext);
}

/// The name of a preview file from the given digest.
pub fn preview_file_name(digest: &[u8], format: OutputFormat) -> (r: String)
    requires
        digest@.len() >= 8,
    ensures
        r@ == preview_name(digest@, format.ext()),
{
    let mut head: Vec<u8> = Vec::new();
    let mut i: usize = 0;
    while i < 8
        invariant
            i <= 8,
            digest@.len() >= 8,
            head@ == digest@.take(i as int),
        decreases 8 - i,
    {
        head.push(digest[i]);
        i = i + 1;
        assert(head@ =~= digest@.take(i as int));
    }
    let hex = hex_encode(head.as_slice());
    String::from_str("preview_").concat(hex.as_str()).concat(".").concat(format.extension())
}

/// The name of a preview file made for the identifier `id`: the digest
/// is the SHA-256 of the identifier's text.
pub fn preview_file_name_for_id(id: &str, format: OutputFormat) -> (r: String)
    ensures
        r@ == preview_name(sha256_digest(id.spec_bytes()), format.ext()),
        sha256_digest(id.spec_bytes()).len() == 32,
        preview_name_shape(r@, format.ext()),
{
    let bytes: &[u8] = id.as_bytes();
    let digest = sha256(bytes);
    proof {
        lemma_preview_name_shape(digest@, format.ext());
    }
    preview_file_name(digest.as_slice(), format)
}

/// A fresh name for a preview file, made for a random UUID, so that two
/// calls are unlikely to give the same name.
pub fn output_file_name(format: OutputFormat) -> (r: String)
    ensures
        exists|id: Seq<char>|
            uuid_v4_text(id) && r@ == preview_name(
                #[trigger] sha256_digest(encode_utf8(id)),
                format.ext(),
            ) && sha256_digest(encode_utf8(id)).len() == 32,
        preview_name_shape(r@, format.ext()),
{
    let id = random_uuid();
    let text: &str = id.as_str();
    let r = preview_file_name_for_id(text, format);
    assert(uuid_v4_text(text@) && r@ == preview_name(sha256_digest(encode_utf8(text@)), format.ext()));
    r
}

/// The name of a job's result file: "result_", the job id, "_", the
/// timestamp, ".", and the extension.
pub open spec fn result_name(job_id: Seq<char>, timestamp: int, ext: Seq<char>) -> Seq<char> {
    "result_"@ + job_id + "_"@ + signed_decimal(timestamp) + "."@ + ext
}

/// The name of the result file of a job finished at `timestamp`
/// (seconds since the epoch).
pub fn result_file_name(job_id: &str, timestamp: i64, format: OutputFormat) -> (r: String)
    ensures
        r@ == result_name(job_id@, timestamp as int, format.ext()),
{
    String::from_str("result_").concat(job_id).concat("_").concat(
        signed_decimal_string(timestamp).as_str(),
    ).concat(".").concat(format.extension())
}

/// The path of a file in the directory that results are kept and
/// served from.
pub open spec fn served_path(name: Seq<char>) -> Seq<char> {
    "/tmp/"@ + name
}

/// The path, in the directory that results are kept and served from, of
/// the file with the given name.
pub fn served_file_path(name: &str) -> (r: String)
    ensures
        r@ == served_path(name@),
{
    String::from_str("/tmp/").concat(name)
}

/// Where the result of job `job_id`, stored at `timestamp`, is kept.
pub open spec fn result_path(job_id: Seq<char>, timestamp: int, ext: Seq<char>) -> Seq<char> {
    served_path(result_name(job_id, timestamp, ext))
}

/// The path the result of job `job_id`, stored at `timestamp` (seconds
/// since the epoch), is kept at in the served directory.
pub fn result_path_for(job_id: &str, timestamp: i64, format: OutputFormat) -> (r: String)
    ensures
        r@ == result_path(job_id@, timestamp as int, format.ext()),
{
    let name = result_file_name(job_id, timestamp, format);
    served_file_path(name.as_str())
}

/// The URL a result file is downloaded from: "/download/" and the last
/// segment of its path.
pub open spec fn download_link(result_path: Seq<char>) -> Seq<char> {
    "/download/"@ + after_last(result_path, '/')
}

/// The URL a result file is downloaded from.
pub fn download_url(result_path: &str) -> (r: String)
    ensures
        r@ == download_link(result_path@),
{
    String::from_str("/download/").concat(text_after_last(result_path, '/').as_str())
}

/// The name a downloaded file is stored under: the last segment of its
/// URL.
pub fn download_file_name(url: &str) -> (r: String)
    ensures
        r@ == after_last(url@, '/'),
{
    text_after_last(url, '/')
}

/// What a download's HTTP status means: a status other than a success
/// is a failed download naming the status and the URL.
pub fn check_download_status(success: bool, status: &str, url: &str) -> (r: Result<(), PreviewError>)
    ensures
        success ==> r is Ok,
        !success ==> (r matches Err(PreviewError::DownloadFailed(m)) && m@ == "HTTP "@ + status@
            + ": "@ + url@),
{
    if success {
        Ok(())
    } else {
        Err(
            PreviewError::DownloadFailed(
                String::from_str("HTTP ").concat(status).concat(": ").concat(url),
            ),
        )
    }
}

/// The file name in a download URL never holds a `/`, so it always names
/// a file directly inside the served directory.
pub proof fn law_download_name_is_flat(result_path: Seq<char>)
    ensures
        download_link(result_path) == "/download/"@ + after_last(result_path, '/'),
        !after_last(result_path, '/').contains('/'),
{
    lemma_after_last_free_of(result_path, '/');
}

/// A result stored under a name without `/` in the served directory is
/// what its download URL names: the download handler, given the name
/// from the URL, serves the very file the result was stored in.
pub proof fn law_download_finds_result(name: Seq<char>)
    requires
        !name.contains('/'),
    ensures
        download_link(served_path(name)) == "/download/"@ + name,
        served_path(after_last(served_path(name), '/')) == served_path(name),
{
    reveal_strlit("/tmp/");
    let p = served_path(name);
    lemma_last_index_of(p, '/');
    let k = last_index_of(p, '/');
    assert(p[4] == '/');
    if k > 4 {
        assert(p[k] == name[k - 5]);
    }
    assert(k == 4);
    assert(after_last(p, '/') =~= name);
}

/// Decimal digits hold no `/`.
proof fn lemma_decimal_has_no_slash(n: nat)
    ensures
        !decimal(n).contains('/'),
    decreases n,
{
    if n >= 10 {
        lemma_decimal_has_no_slash(n / 10);
        let d = decimal(n);
        assert forall|i: int| 0 <= i < d.len() implies d[i] != '/' by {
            if i < d.len() - 1 {
                assert(d[i] == decimal(n / 10)[i]);
            }
        }
    }
}

/// The text of a random UUID holds no `/`.
pub proof fn lemma_uuid_has_no_slash(id: Seq<char>)
    requires
        uuid_v4_text(id),
    ensures
        !id.contains('/'),
{
    assert forall|i: int| 0 <= i < id.len() implies id[i] != '/' by {
        assert(lower_hex_char(id[i]) || id[i] == '-');
    }
}

/// A job's result name holds no `/` when the job's id holds none (as a
/// random UUID's text never does), so the download URL of the stored
/// result names exactly that file, and the download handler, given the
/// name from the URL, serves the stored result.
pub proof fn law_result_link_reaches_result(job_id: Seq<char>, timestamp: int, format: OutputFormat)
    requires
        !job_id.contains('/'),
    ensures
        !result_name(job_id, timestamp, format.ext()).contains('/'),
        download_link(result_path(job_id, timestamp, format.ext())) == "/download/"@ + result_name(
            job_id,
            timestamp,
            format.ext(),
        ),
        served_path(after_last(result_path(job_id, timestamp, format.ext()), '/')) == result_path(
            job_id,
            timestamp,
            format.ext(),
        ),
{
    reveal_strlit("result_");
    reveal_strlit("_");
    reveal_strlit(".");
    reveal_strlit("gif");
    reveal_strlit("jpg");
    reveal_strlit("png");
    let sd = signed_decimal(timestamp);
    if timestamp < 0 {
        lemma_decimal_has_no_slash((-timestamp) as nat);
        assert(!sd.contains('/')) by {
            assert forall|i: int| 0 <= i < sd.len() implies sd[i] != '/' by {
                if i > 0 {
                    assert(sd[i] == decimal((-timestamp) as nat)[i - 1]);
                }
            }
        }
    } else {
        lemma_decimal_has_no_slash(timestamp as nat);
    }
    let name = result_name(job_id, timestamp, format.ext());
    assert forall|i: int| 0 <= i < name.len() implies name[i] != '/' by {
        let a = "result_"@;
        let b = a + job_id;
        let c = b + "_"@;
        let d = c + sd;
        let e = d + "."@;
        assert(name == e + format.ext());
        if i < a.len() {
        } else if i < b.len() {
            assert(name[i] == job_id[i - a.len()]);
        } else if i < c.len() {
        } else if i < d.len() {
            assert(name[i] == sd[i - c.len()]);
        } else if i < e.len() {
        } else {
            assert(name[i] == format.ext()[i - e.len()]);
        }
    }
    law_download_finds_result(name);
}

/// A name that can be served: not empty, not `.` or `..`, and without
/// `/`, so it names a file directly inside the served directory.
pub open spec fn servable_name(name: Seq<char>) -> bool {
    name.len() > 0 && name != "."@ && name != ".."@ && !name.contains('/')
}

/// Checks a requested file name before it is served; a name that could
/// reach outside the served directory is refused as invalid input.
pub fn check_download_name(name: &str) -> (r: Result<(), PreviewError>)
    ensures
        r is Ok <==> servable_name(name@),
        r matches Err(e) ==> (e matches PreviewError::InvalidInput(m) && m@ == "Invalid file name"@),
{
    let v = chars_of(name);
    let bad: bool = v.len() == 0 || str_equal(name, ".") || str_equal(name, "..") || find_first_from(
        &v,
        '/',
        0,
    ).is_some();
    if bad {
        Err(PreviewError::InvalidInput(String::from_str("Invalid file name")))
    } else {
        Ok(())
    }
}

/// A servable name names a file directly inside the served directory:
/// the path served is that directory, `/`, and the name, and its last
/// segment is the name itself, never `.` or `..`.
pub proof fn law_servable_names_stay_inside(name: Seq<char>)
    requires
        servable_name(name),
    ensures
        served_path(name) == "/tmp/"@ + name,
        after_last(served_path(name), '/') == name,
        name.len() > 0 && name != "."@ && name != ".."@,
{
    law_download_finds_result(name);
    lemma_last_index_of(served_path(name), '/');
}

/// The download check refuses a name only when it is empty, `.`, `..`
/// or holds a `/`; any other name, whatever else it holds, is served.
pub proof fn law_download_refuses_only_unsafe_names(name: Seq<char>)
    requires
        name.len() > 0,
        name != "."@,
        name != ".."@,
        !name.contains('/'),
    ensures
        servable_name(name),
{
}

/// Every job's stored result can be downloaded: for any job id without
/// `/` (a random UUID's text, with its `-`, included), any timestamp and
/// any format, the result's name passes the download check, and the
/// name its download URL gives is that very name.
pub proof fn law_result_names_are_servable(job_id: Seq<char>, timestamp: int, format: OutputFormat)
    requires
        !job_id.contains('/'),
    ensures
        servable_name(result_name(job_id, timestamp, format.ext())),
        after_last(result_path(job_id, timestamp, format.ext()), '/') == result_name(
            job_id,
            timestamp,
            format.ext(),
        ),
{
    law_result_link_reaches_result(job_id, timestamp, format);
    let name = result_name(job_id, timestamp, format.ext());
    law_download_finds_result(name);
    reveal_strlit("result_");
    reveal_strlit(".");
    reveal_strlit("..");
    assert(name.len() >= 7);
    assert(name != "."@);
    assert(name != ".."@);
    law_servable_names_stay_inside(name);
}

/// A job whose id is a random UUID's text has a downloadable result.
pub proof fn law_uuid_results_are_servable(job_id: Seq<char>, timestamp: int, format: OutputFormat)
    requires
        uuid_v4_text(job_id),
    ensures
        servable_name(result_name(job_id, timestamp, format.ext())),
{
    lemma_uuid_has_no_slash(job_id);
    law_result_names_are_servable(job_id, timestamp, format);
}

} // verus!
