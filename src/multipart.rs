//! Extraction of the single file part of a `multipart/form-data` body.

use vstd::prelude::*;
use crate::bytes::{
    bytes_end_with, copy_range, ends_with, find_first, find_last, first_occurrence,
    last_occurrence, contains,
};
use crate::request::{
    copy_line, crlf_crlf, crlf_crlf_bytes, find_line_end, find_skip_space, is_space, line_at,
    line_end, skip_space,
};
use crate::words::{
    boundary_key, boundary_key_bytes, dashes, dashes_bytes, default_filename,
    default_filename_bytes, filename_key, filename_key_bytes, multipart_marker,
    multipart_marker_bytes, quoted_filename_key, quoted_filename_key_bytes,
};

verus! {

/// A line ends at or after its start and within the sequence.
pub proof fn lemma_line_end_bounds(s: Seq<u8>, i: int)
    requires
        0 <= i <= s.len(),
    ensures
        i <= line_end(s, i) <= s.len(),
    decreases s.len() - i,
{
    if i < s.len() && s[i] != 10 {
        lemma_line_end_bounds(s, i + 1);
    }
}

/// The first line at or after index `i` of `s` that contains `pat`.
pub open spec fn find_line(s: Seq<u8>, i: int, pat: Seq<u8>) -> Option<Seq<u8>>
    decreases s.len() + 1 - i,
    via find_line_decreases
{
    if i < 0 || i >= s.len() {
        None
    } else if contains(line_at(s, i), pat) {
        Some(line_at(s, i))
    } else {
        find_line(s, line_end(s, i) + 1, pat)
    }
}

#[via_fn]
proof fn find_line_decreases(s: Seq<u8>, i: int, pat: Seq<u8>) {
    if 0 <= i < s.len() {
        lemma_line_end_bounds(s, i);
    }
}

/// What follows the first `m` in `l`, up to the next `m` or the end;
/// `None` where `l` holds no `m`.
pub open spec fn after_first(l: Seq<u8>, m: Seq<u8>) -> Option<Seq<u8>> {
    match first_occurrence(l, m) {
        Some(p) => {
            let rest = l.subrange(p + m.len(), l.len() as int);
            match first_occurrence(rest, m) {
                Some(q) => Some(rest.subrange(0, q)),
                None => Some(rest),
            }
        },
        None => None,
    }
}

/// The length of `s[..k]` once trailing whitespace is removed.
pub open spec fn trim_end_at(s: Seq<u8>, k: int) -> int
    decreases k,
{
    if k <= 0 || !is_space(s[k - 1]) {
        k
    } else {
        trim_end_at(s, k - 1)
    }
}

/// `s` without leading and trailing whitespace.
pub open spec fn trim(s: Seq<u8>) -> Seq<u8> {
    let t = s.subrange(skip_space(s, 0), s.len() as int);
    t.subrange(0, trim_end_at(t, t.len() as int))
}

/// The delimiter named by a header section: two dashes and the trimmed
/// `boundary=` value of the first line that announces a multipart body.
pub open spec fn delimiter_of(headers: Seq<u8>) -> Option<Seq<u8>> {
    match find_line(headers, 0, multipart_marker()) {
        Some(l) => match after_first(l, boundary_key()) {
            Some(v) => Some(dashes() + trim(v)),
            None => None,
        },
        None => None,
    }
}

/// The delimiter of a request, read from its header section.
pub open spec fn request_delimiter(buf: Seq<u8>) -> Option<Seq<u8>> {
    match first_occurrence(buf, crlf_crlf()) {
        Some(h) => delimiter_of(buf.subrange(0, h)),
        None => None,
    }
}

/// What a request holds after its header section.
pub open spec fn body_after_headers(buf: Seq<u8>) -> Seq<u8> {
    match first_occurrence(buf, crlf_crlf()) {
        Some(h) => buf.subrange(h + 4, buf.len() as int),
        None => Seq::empty(),
    }
}

/// The body has been read in full once it ends with the delimiter.
pub open spec fn body_complete(body: Seq<u8>, delim: Seq<u8>) -> bool {
    ends_with(body, delim)
}

/// Where the payload starts: after the part's header section, or at the
/// beginning where the part has none.
pub open spec fn part_start(body: Seq<u8>) -> int {
    match first_occurrence(body, crlf_crlf()) {
        Some(p) => p + 4,
        None => 0,
    }
}

/// The part's header section (empty where the part has none).
pub open spec fn part_headers(body: Seq<u8>) -> Seq<u8> {
    match first_occurrence(body, crlf_crlf()) {
        Some(p) => body.subrange(0, p),
        None => Seq::empty(),
    }
}

/// `v` up to its first double quote.
pub open spec fn before_quote(v: Seq<u8>) -> Seq<u8> {
    match first_occurrence(v, seq![34u8]) {
        Some(q) => v.subrange(0, q),
        None => v,
    }
}

/// The file name given in the part's headers: the quoted `filename` value
/// of the first part header line that mentions `filename=`, and otherwise
/// a fixed default.
pub open spec fn file_name_of(body: Seq<u8>) -> Seq<u8> {
    match find_line(part_headers(body), 0, filename_key()) {
        Some(l) => match after_first(l, quoted_filename_key()) {
            Some(v) => before_quote(v),
            None => default_filename(),
        },
        None => default_filename(),
    }
}

/// Where the payload ends: two bytes (the line break) before the last
/// delimiter, or at the end of the body where there is none.
pub open spec fn payload_end(body: Seq<u8>, delim: Seq<u8>) -> int {
    match last_occurrence(body, delim) {
        Some(p) => p - 2,
        None => body.len() as int,
    }
}

/// The payload, where the region between its start and its end is not empty.
pub open spec fn payload_of(body: Seq<u8>, delim: Seq<u8>) -> Option<Seq<u8>> {
    if payload_end(body, delim) > part_start(body) {
        Some(body.subrange(part_start(body), payload_end(body, delim)))
    } else {
        None
    }
}

/// The first line of `s` that contains `pat`.
pub fn line_containing(s: &[u8], pat: &[u8]) -> (r: Option<Vec<u8>>)
    ensures
        match r {
            Some(l) => find_line(s@, 0, pat@) == Some(l@),
            None => find_line(s@, 0, pat@) is None,
        },
{
    let mut i: usize = 0;
    while i < s.len()
        invariant
            i <= s@.len(),
            find_line(s@, 0, pat@) == find_line(s@, i as int, pat@),
        decreases s@.len() - i,
    {
        let e = find_line_end(s, i);
        let line = copy_line(s, i);
        if find_first(line.as_slice(), pat).is_some() {
            return Some(line);
        }
        if e >= s.len() {
            assert(find_line(s@, e + 1, pat@) is None);
            return None;
        }
        i = e + 1;
    }
    None
}

/// What follows the first `m` in `l`, up to the next `m` or the end.
pub fn split_after_first(l: &[u8], m: &[u8]) -> (r: Option<Vec<u8>>)
    ensures
        match r {
            Some(v) => after_first(l@, m@) == Some(v@),
            None => after_first(l@, m@) is None,
        },
{
    let n: usize = l.len();
    match find_first(l, m) {
        Some(p) => {
            let rest = copy_range(l, p + m.len(), n);
            match find_first(rest.as_slice(), m) {
                Some(q) => Some(copy_range(rest.as_slice(), 0, q)),
                None => Some(rest),
            }
        },
        None => None,
    }
}

/// `s` without leading and trailing whitespace.
pub fn trim_bytes(s: &[u8]) -> (r: Vec<u8>)
    ensures
        r@ == trim(s@),
{
    let a = find_skip_space(s, 0);
    let t = copy_range(s, a, s.len());
    let mut k: usize = t.len();
    while k > 0 && (t[k - 1] == 32 || t[k - 1] == 9 || t[k - 1] == 10 || t[k - 1] == 11
        || t[k - 1] == 12 || t[k - 1] == 13)
        invariant
            k <= t@.len(),
            trim_end_at(t@, t@.len() as int) == trim_end_at(t@, k as int),
        decreases k,
    {
        k = k - 1;
    }
    copy_range(t.as_slice(), 0, k)
}

/// The delimiter of the multipart body of a request, from its headers.
pub fn boundary_delimiter(buf: &[u8]) -> (r: Option<Vec<u8>>)
    ensures
        match r {
            Some(d) => request_delimiter(buf@) == Some(d@),
            None => request_delimiter(buf@) is None,
        },
{
    let h = match find_first(buf, crlf_crlf_bytes().as_slice()) {
        Some(h) => h,
        None => return None,
    };
    let headers = copy_range(buf, 0, h);
    let line = match line_containing(headers.as_slice(), multipart_marker_bytes().as_slice()) {
        Some(l) => l,
        None => return None,
    };
    match split_after_first(line.as_slice(), boundary_key_bytes().as_slice()) {
        Some(v) => {
            let mut d = dashes_bytes();
            let t = trim_bytes(v.as_slice());
            crate::bytes::append_bytes(&mut d, t.as_slice());
            Some(d)
        },
        None => None,
    }
}

/// What the request holds after its header section: the start of its body.
pub fn initial_body(buf: &[u8]) -> (r: Vec<u8>)
    ensures
        r@ == body_after_headers(buf@),
{
    let n: usize = buf.len();
    match find_first(buf, crlf_crlf_bytes().as_slice()) {
        Some(h) => copy_range(buf, h + 4, n),
        None => Vec::new(),
    }
}

/// Whether the body read so far ends with the delimiter.
pub fn is_body_complete(body: &[u8], delim: &[u8]) -> (r: bool)
    ensures
        r == body_complete(body@, delim@),
{
    bytes_end_with(body, delim)
}

/// A name that stays inside the storage directory: not empty, not `.` or
/// `..`, and free of `/`, `\\` and NUL bytes.
pub open spec fn safe_name(name: Seq<u8>) -> bool {
    &&& name.len() > 0
    &&& name != seq![46u8]
    &&& name != seq![46u8, 46]
    &&& forall|i: int| 0 <= i < name.len() ==> name[i] != 47 && name[i] != 92 && name[i] != 0
}

/// Whether `name` may be used as a file name in the storage directory.
pub fn is_safe_name(name: &[u8]) -> (r: bool)
    ensures
        r == safe_name(name@),
{
    let n: usize = name.len();
    if n == 0 {
        return false;
    }
    if n <= 2 && name[0] == 46 && name[n - 1] == 46 {
        assert(name@ =~= seq![46u8] || name@ =~= seq![46u8, 46]);
        return false;
    }
    assert(name@ != seq![46u8] && name@ != seq![46u8, 46]) by {
        if name@ == seq![46u8] || name@ == seq![46u8, 46] {
            assert(name@[0] == 46 && name@[n - 1] == 46);
        }
    }
    let mut i: usize = 0;
    while i < n
        invariant
            n == name@.len(),
            i <= n,
            forall|j: int| 0 <= j < i ==> name@[j] != 47 && name@[j] != 92 && name@[j] != 0,
        decreases n - i,
    {
        if name[i] == 47 || name[i] == 92 || name[i] == 0 {
            return false;
        }
        i = i + 1;
    }
    true
}

/// The file carried by a multipart body: its name, and its bytes unless
/// the payload region is empty.
pub struct Upload {
    pub name: Vec<u8>,
    pub payload: Option<Vec<u8>>,
}

/// Extracts the file name and the payload of a complete multipart body.
pub fn extract_upload(body: &[u8], delim: &[u8]) -> (r: Upload)
    ensures
        r.name@ == file_name_of(body@),
        match r.payload {
            Some(p) => payload_of(body@, delim@) == Some(p@),
            None => payload_of(body@, delim@) is None,
        },
{
    let n: usize = body.len();
    let sep = find_first(body, crlf_crlf_bytes().as_slice());
    let (start, headers) = match sep {
        Some(p) => (p + 4, copy_range(body, 0, p)),
        None => (0, Vec::new()),
    };
    assert(headers@ =~= part_headers(body@));
    let name = match line_containing(headers.as_slice(), filename_key_bytes().as_slice()) {
        Some(l) => match split_after_first(l.as_slice(), quoted_filename_key_bytes().as_slice()) {
            Some(v) => {
                let quote: Vec<u8> = vec![34u8];
                assert(quote@ == seq![34u8]);
                match find_first(v.as_slice(), quote.as_slice()) {
                    Some(q) => copy_range(v.as_slice(), 0, q),
                    None => v,
                }
            },
            None => default_filename_bytes(),
        },
        None => default_filename_bytes(),
    };
    let last = find_last(body, delim);
    let payload = match last {
        Some(p) => {
            if p >= 2 && p - 2 > start {
                Some(copy_range(body, start, p - 2))
            } else {
                None
            }
        },
        None => {
            if body.len() > start {
                Some(copy_range(body, start, body.len()))
            } else {
                None
            }
        },
    };
    Upload { name, payload }
}

} // verus!
