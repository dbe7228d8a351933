//! Request framing and routing: the header terminator, the request line,
//! and the route that a request line selects.

use vstd::prelude::*;
use crate::bytes::{bytes_start_with, contains, copy_range, find_first, first_occurrence, starts_with};
use crate::words::{
    download_page_path, download_page_path_bytes, download_prefix, download_prefix_bytes,
    files_path, files_path_bytes, get_word, get_word_bytes, post_word, post_word_bytes, root_path,
    root_path_bytes, upload_page_path, upload_page_path_bytes, upload_path, upload_path_bytes,
};

verus! {

/// The header terminator, CR LF CR LF.
pub open spec fn crlf_crlf() -> Seq<u8> {
    seq![13u8, 10, 13, 10]
}

pub fn crlf_crlf_bytes() -> (r: Vec<u8>)
    ensures
        r@ == crlf_crlf(),
{
    vec![13u8, 10, 13, 10]
}

/// The request's header section is complete once CR LF CR LF has been seen.
pub open spec fn headers_complete(buf: Seq<u8>) -> bool {
    contains(buf, crlf_crlf())
}

/// Whether the bytes read so far hold the whole header section.
pub fn has_header_terminator(buf: &[u8]) -> (r: bool)
    ensures
        r == headers_complete(buf@),
{
    find_first(buf, crlf_crlf_bytes().as_slice()).is_some()
}

/// Where the header section ends: the index of the first CR LF CR LF.
pub fn header_end(buf: &[u8]) -> (r: Option<usize>)
    ensures
        match r {
            Some(i) => first_occurrence(buf@, crlf_crlf()) == Some(i as int) && i + 4 <= buf@.len(),
            None => first_occurrence(buf@, crlf_crlf()) is None,
        },
{
    find_first(buf, crlf_crlf_bytes().as_slice())
}

pub open spec fn is_space(b: u8) -> bool {
    b == 32 || b == 9 || b == 10 || b == 11 || b == 12 || b == 13
}

/// The index of the first line feed at or after `i`, or the end of `s`.
pub open spec fn line_end(s: Seq<u8>, i: int) -> int
    decreases s.len() - i,
{
    if i >= s.len() || s[i] == 10 {
        i
    } else {
        line_end(s, i + 1)
    }
}

/// The line that starts at `i`: up to the next line feed, without it and
/// without a carriage return just before it.
pub open spec fn line_at(s: Seq<u8>, i: int) -> Seq<u8> {
    let e = line_end(s, i);
    if e < s.len() && e > i && s[e - 1] == 13 {
        s.subrange(i, e - 1)
    } else {
        s.subrange(i, e)
    }
}

/// The first index `>= i` that holds no whitespace, or the end of `s`.
pub open spec fn skip_space(s: Seq<u8>, i: int) -> int
    decreases s.len() - i,
{
    if i >= s.len() || !is_space(s[i]) {
        i
    } else {
        skip_space(s, i + 1)
    }
}

/// The first index `>= i` that holds whitespace, or the end of `s`.
pub open spec fn word_end(s: Seq<u8>, i: int) -> int
    decreases s.len() - i,
{
    if i >= s.len() || is_space(s[i]) {
        i
    } else {
        word_end(s, i + 1)
    }
}

/// The request line: the first line of the request.
pub open spec fn request_line(buf: Seq<u8>) -> Seq<u8> {
    line_at(buf, 0)
}

/// The first whitespace-separated word of a line.
pub open spec fn first_word(line: Seq<u8>) -> Seq<u8> {
    let a = skip_space(line, 0);
    line.subrange(a, word_end(line, a))
}

/// The second whitespace-separated word of a line (empty if there is none).
pub open spec fn second_word(line: Seq<u8>) -> Seq<u8> {
    let c = skip_space(line, word_end(line, skip_space(line, 0)));
    line.subrange(c, word_end(line, c))
}

/// The request method.
pub open spec fn method_of(buf: Seq<u8>) -> Seq<u8> {
    first_word(request_line(buf))
}

/// The request target (the path).
pub open spec fn path_of(buf: Seq<u8>) -> Seq<u8> {
    second_word(request_line(buf))
}

pub fn find_line_end(s: &[u8], i: usize) -> (r: usize)
    requires
        i <= s@.len(),
    ensures
        r == line_end(s@, i as int),
        i <= r <= s@.len(),
{
    let mut j: usize = i;
    while j < s.len() && s[j] != 10
        invariant
            i <= j <= s@.len(),
            line_end(s@, i as int) == line_end(s@, j as int),
        decreases s@.len() - j,
    {
        j = j + 1;
    }
    j
}

/// A copy of the line that starts at `i`.
pub fn copy_line(s: &[u8], i: usize) -> (r: Vec<u8>)
    requires
        i <= s@.len(),
    ensures
        r@ == line_at(s@, i as int),
        line_end(s@, i as int) <= s@.len(),
{
    let e = find_line_end(s, i);
    if e < s.len() && e > i && s[e - 1] == 13 {
        copy_range(s, i, e - 1)
    } else {
        copy_range(s, i, e)
    }
}

pub fn find_skip_space(s: &[u8], i: usize) -> (r: usize)
    requires
        i <= s@.len(),
    ensures
        r == skip_space(s@, i as int),
        i <= r <= s@.len(),
{
    let mut j: usize = i;
    while j < s.len() && (s[j] == 32 || s[j] == 9 || s[j] == 10 || s[j] == 11 || s[j] == 12 || s[j] == 13)
        invariant
            i <= j <= s@.len(),
            skip_space(s@, i as int) == skip_space(s@, j as int),
        decreases s@.len() - j,
    {
        j = j + 1;
    }
    j
}

fn find_word_end(s: &[u8], i: usize) -> (r: usize)
    requires
        i <= s@.len(),
    ensures
        r == word_end(s@, i as int),
        i <= r <= s@.len(),
{
    let mut j: usize = i;
    while j < s.len() && !(s[j] == 32 || s[j] == 9 || s[j] == 10 || s[j] == 11 || s[j] == 12 || s[j] == 13)
        invariant
            i <= j <= s@.len(),
            word_end(s@, i as int) == word_end(s@, j as int),
        decreases s@.len() - j,
    {
        j = j + 1;
    }
    j
}

/// Splits the request line into its method and its target.
pub fn method_and_path(buf: &[u8]) -> (r: (Vec<u8>, Vec<u8>))
    ensures
        r.0@ == method_of(buf@),
        r.1@ == path_of(buf@),
{
    let line = copy_line(buf, 0);
    let s = line.as_slice();
    let a = find_skip_space(s, 0);
    let b = find_word_end(s, a);
    let c = find_skip_space(s, b);
    let d = find_word_end(s, c);
    (copy_range(s, a, b), copy_range(s, c, d))
}

/// What a request asks for.
pub enum Route {
    /// The upload page.
    UploadPage,
    /// The download page.
    DownloadPage,
    /// The stored file of the given name.
    StoredFile(Vec<u8>),
    /// The list of stored files.
    FileList,
    /// Storing the file in the multipart body.
    Upload,
    /// Nothing that this server offers.
    Unknown,
}

/// The mathematical form of a [`Route`].
pub enum RouteModel {
    UploadPage,
    DownloadPage,
    StoredFile(Seq<u8>),
    FileList,
    Upload,
    Unknown,
}

impl View for Route {
    type V = RouteModel;

    open spec fn view(&self) -> RouteModel {
        match self {
            Route::UploadPage => RouteModel::UploadPage,
            Route::DownloadPage => RouteModel::DownloadPage,
            Route::StoredFile(name) => RouteModel::StoredFile(name@),
            Route::FileList => RouteModel::FileList,
            Route::Upload => RouteModel::Upload,
            Route::Unknown => RouteModel::Unknown,
        }
    }
}

/// The route of a request, by method and path, tried in a fixed order:
/// the upload page (`/` exactly, or a path starting with `/upload.html`),
/// the download page, a stored file (the path after the `/download/`
/// prefix, as it stands), the file list, an upload (`POST`), and otherwise nothing.
pub open spec fn route_of(buf: Seq<u8>) -> RouteModel {
    let m = method_of(buf);
    let t = path_of(buf);
    if m == get_word() && (t == root_path() || starts_with(t, upload_page_path())) {
        RouteModel::UploadPage
    } else if m == get_word() && starts_with(t, download_page_path()) {
        RouteModel::DownloadPage
    } else if m == get_word() && starts_with(t, download_prefix()) {
        RouteModel::StoredFile(t.subrange(download_prefix().len() as int, t.len() as int))
    } else if m == get_word() && starts_with(t, files_path()) {
        RouteModel::FileList
    } else if m == post_word() && starts_with(t, upload_path()) {
        RouteModel::Upload
    } else {
        RouteModel::Unknown
    }
}

fn same_bytes(a: &[u8], b: &[u8]) -> (r: bool)
    ensures
        r == (a@ == b@),
{
    if a.len() != b.len() {
        return false;
    }
    assert(a@ =~= a@.subrange(0, b@.len() as int));
    bytes_start_with(a, b)
}

/// Classifies a request whose header section is complete.
pub fn route(buf: &[u8]) -> (r: Route)
    ensures
        r@ == route_of(buf@),
{
    let (m, t) = method_and_path(buf);
    let m = m.as_slice();
    let t = t.as_slice();
    let is_get = same_bytes(m, get_word_bytes().as_slice());
    if is_get && (same_bytes(t, root_path_bytes().as_slice()) || bytes_start_with(
        t,
        upload_page_path_bytes().as_slice(),
    )) {
        Route::UploadPage
    } else if is_get && bytes_start_with(t, download_page_path_bytes().as_slice()) {
        Route::DownloadPage
    } else if is_get && bytes_start_with(t, download_prefix_bytes().as_slice()) {
        Route::StoredFile(copy_range(t, 10, t.len()))
    } else if is_get && bytes_start_with(t, files_path_bytes().as_slice()) {
        Route::FileList
    } else if same_bytes(m, post_word_bytes().as_slice()) && bytes_start_with(
        t,
        upload_path_bytes().as_slice(),
    ) {
        Route::Upload
    } else {
        Route::Unknown
    }
}

} // verus!
