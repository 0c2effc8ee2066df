//! Download helpers: product URLs and file names.

use vstd::prelude::*;
use crate::error::{CopernicusError, ErrorView};
use crate::text::{
    push_all,
    chars_of, split_chars, split_spec, starts_with_exec, starts_with_seq, string_of, trim_in,
    trim_in_exec, trim_spec, trim_start_matches_exec, trim_start_matches_spec, CharClass,
};

verus! {

/// The file name carried by one `;`-separated part of a Content-Disposition
/// header: the part, trimmed, must start with `filename=`; the value is what
/// follows, with surrounding double quotes removed.
pub open spec fn filename_of_part(part: Seq<char>) -> Option<Seq<char>> {
    let t = trim_spec(part);
    if starts_with_seq(t, "filename="@) {
        Some(trim_in(trim_start_matches_spec(t, "filename="@), CharClass::Exactly('"')))
    } else {
        None
    }
}

/// The file name of the first part among `parts` that carries one.
pub open spec fn first_filename(parts: Seq<Seq<char>>) -> Option<Seq<char>>
    decreases parts.len(),
{
    if parts.len() == 0 {
        None
    } else if filename_of_part(parts[0]) is Some {
        filename_of_part(parts[0])
    } else {
        first_filename(parts.drop_first())
    }
}

/// The file name a Content-Disposition header value names, if any.
pub open spec fn content_disposition_filename(header: Seq<char>) -> Option<Seq<char>> {
    first_filename(split_spec(header, ';'))
}

/// Extract filename from a Content-Disposition header value.
/// E.g. `attachment; filename="scene.zip"` -> `"scene.zip"`
pub fn extract_filename(header_value: &str) -> (r: Option<String>)
    ensures
        match r {
            Some(f) => content_disposition_filename(header_value@) == Some(f@),
            None => content_disposition_filename(header_value@) is None,
        },
{
    let h = chars_of(header_value);
    let parts = split_chars(&h, ';');
    let prefix = chars_of("filename=");
    let ghost ps = split_spec(header_value@, ';');
    let mut i: usize = 0;
    assert(ps.skip(0) == ps);
    while i < parts.len()
        invariant
            ps == split_spec(header_value@, ';'),
            prefix@ == "filename="@,
            i <= parts@.len(),
            parts@.len() == ps.len(),
            forall|k: int| 0 <= k < parts@.len() ==> #[trigger] parts@[k]@ == ps[k],
            first_filename(ps) == first_filename(ps.skip(i as int)),
        decreases parts@.len() - i,
    {
        assert(ps.skip(i as int)[0] == ps[i as int]);
        assert(ps.skip(i as int).drop_first() == ps.skip(i + 1));
        let part = trim_in_exec(&parts[i], CharClass::Whitespace);
        if starts_with_exec(&part, &prefix) {
            let value = trim_start_matches_exec(&part, &prefix);
            let name = trim_in_exec(&value, CharClass::Exactly('"'));
            let f = string_of(&name);
            assert(filename_of_part(ps[i as int]) == Some(f@));
            return Some(f);
        }
        i += 1;
    }
    assert(ps.skip(parts@.len() as int).len() == 0);
    None
}

/// The download service's products endpoint.
pub const DOWNLOAD_BASE_URL: &'static str = "https://zipper.dataspace.copernicus.eu/odata/v1/Products";

/// The URL of the archive of the product with identifier `id`.
pub fn product_url(id: &str) -> (r: String)
    ensures
        r@ == DOWNLOAD_BASE_URL@ + "("@ + id@ + ")/$value"@,
{
    let mut r = String::new();
    push_all(&mut r, DOWNLOAD_BASE_URL);
    push_all(&mut r, "(");
    push_all(&mut r, id);
    push_all(&mut r, ")/$value");
    r
}

/// The `Authorization` header value for an access token.
pub fn bearer_header(access_token: &str) -> (r: String)
    ensures
        r@ == "Bearer "@ + access_token@,
{
    let mut r = String::new();
    push_all(&mut r, "Bearer ");
    push_all(&mut r, access_token);
    r
}

/// The error for a download reply with a failure status.
pub fn download_status_failure(display_name: &str, status: &str) -> (e: CopernicusError)
    ensures
        e@ == ErrorView::DownloadFailed(display_name@ + ": HTTP "@ + status@),
{
    let mut m = String::new();
    push_all(&mut m, display_name);
    push_all(&mut m, ": HTTP ");
    push_all(&mut m, status);
    CopernicusError::DownloadFailed(m)
}

/// The file name a download is saved under: the one the Content-Disposition
/// header names, else the display name with `.zip` appended.
pub open spec fn output_filename_spec(header: Option<Seq<char>>, display_name: Seq<char>) -> Seq<char> {
    match header {
        Some(h) => match content_disposition_filename(h) {
            Some(f) => f,
            None => display_name + ".zip"@,
        },
        None => display_name + ".zip"@,
    }
}

/// The file name a download is saved under (see `output_filename_spec`);
/// `content_disposition` is the header's value when it has one in text form.
pub fn output_filename(content_disposition: Option<&str>, display_name: &str) -> (r: String)
    ensures
        r@ == output_filename_spec(
            match content_disposition {
                Some(h) => Some(h@),
                None => None,
            },
            display_name@,
        ),
{
    let named = match content_disposition {
        Some(h) => extract_filename(h),
        None => None,
    };
    match named {
        Some(f) => f,
        None => {
            let mut r = String::new();
            push_all(&mut r, display_name);
            push_all(&mut r, ".zip");
            r
        },
    }
}

} // verus!
