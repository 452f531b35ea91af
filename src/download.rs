//! The name of a downloaded file, read from the `Content-Disposition`
//! header of the response or from the path of its address.

use vstd::prelude::*;
use vstd::string::*;

use crate::text::{char_is_whitespace, is_white};

verus! {

/// The word `filename` starts at position `i`.
pub open spec fn filename_at(s: Seq<char>, i: int) -> bool {
    0 <= i && i + 8 <= s.len() && s.subrange(i, i + 8) == "filename"@
}

/// The first position, from `i` on, where the word `filename` starts.
pub open spec fn find_filename(s: Seq<char>, i: int) -> Option<int>
    decreases s.len() - i,
{
    if i < 0 || i + 8 > s.len() {
        None
    } else if filename_at(s, i) {
        Some(i)
    } else {
        find_filename(s, i + 1)
    }
}

/// The first position from `i` on, before `end`, whose character meets
/// `stop`; `end` when there is none.
pub open spec fn scan_to(s: Seq<char>, i: int, end: int, stop: spec_fn(char) -> bool) -> int
    decreases end - i,
{
    if i >= end {
        end
    } else if stop(s[i]) {
        i
    } else {
        scan_to(s, i + 1, end, stop)
    }
}

/// The end of the range `[start, end)` once whitespace at its end is cut.
pub open spec fn trimmed_end(s: Seq<char>, start: int, end: int) -> int
    decreases end - start,
{
    if end <= start {
        start
    } else if !is_white(s[end - 1]) {
        end
    } else {
        trimmed_end(s, start, end - 1)
    }
}

/// A character that may begin the file name.
pub open spec fn begins_name(c: char) -> bool {
    !(is_white(c) || c == '"' || c == '=')
}

/// A character that ends the file name.
pub open spec fn ends_name(c: char) -> bool {
    c == '"' || c == ';'
}

/// The file name that a `Content-Disposition` value gives: after the first
/// `filename`, past the `=`, quotes and spaces, up to a quote or a
/// semicolon, with surrounding whitespace cut; `None` when there is no
/// such word or the name is empty.
pub open spec fn disposition_name(s: Seq<char>) -> Option<Seq<char>> {
    match find_filename(s, 0) {
        None => None,
        Some(p) => {
            let n = s.len() as int;
            let j = scan_to(s, p + 8, n, |c: char| c == '=');
            let k = scan_to(s, j, n, |c: char| begins_name(c));
            let e = scan_to(s, k, n, |c: char| ends_name(c));
            let a = scan_to(s, k, e, |c: char| !is_white(c));
            let b = trimmed_end(s, a, e);
            if a < b {
                Some(s.subrange(a, b))
            } else {
                None
            }
        },
    }
}

/// The position of the first `filename` in the text.
fn find_filename_in(s: &str, n: usize) -> (r: Option<usize>)
    requires
        n == s@.len(),
    ensures
        match find_filename(s@, 0) {
            Some(p) => r == Some(p as usize),
            None => r is None,
        },
{
    let word = String::from_str("filename");
    if n < 8 {
        return None;
    }
    let mut i: usize = 0;
    while i <= n - 8
        invariant
            n == s@.len(),
            8 <= n,
            i <= n - 7,
            word@ == "filename"@,
            find_filename(s@, 0) == find_filename(s@, i as int),
        decreases n - i,
    {
        let part = String::from_str(s.substring_char(i, i + 8));
        if part == word {
            return Some(i);
        }
        i += 1;
    }
    None
}

/// The first position from `i` on, before `end`, holding `=`.
fn skip_to_equals(s: &str, i: usize, end: usize) -> (r: usize)
    requires
        i <= end <= s@.len(),
    ensures
        r == scan_to(s@, i as int, end as int, |c: char| c == '='),
    decreases end - i,
{
    if i >= end {
        end
    } else if s.get_char(i) == '=' {
        i
    } else {
        skip_to_equals(s, i + 1, end)
    }
}

/// The first position from `i` on, before `end`, where the name begins.
fn skip_to_name(s: &str, i: usize, end: usize) -> (r: usize)
    requires
        i <= end <= s@.len(),
    ensures
        r == scan_to(s@, i as int, end as int, |c: char| begins_name(c)),
    decreases end - i,
{
    if i >= end {
        end
    } else {
        let c = s.get_char(i);
        if !(char_is_whitespace(c) || c == '"' || c == '=') {
            i
        } else {
            skip_to_name(s, i + 1, end)
        }
    }
}

/// The first position from `i` on, before `end`, where the name ends.
fn skip_to_name_end(s: &str, i: usize, end: usize) -> (r: usize)
    requires
        i <= end <= s@.len(),
    ensures
        r == scan_to(s@, i as int, end as int, |c: char| ends_name(c)),
    decreases end - i,
{
    if i >= end {
        end
    } else {
        let c = s.get_char(i);
        if c == '"' || c == ';' {
            i
        } else {
            skip_to_name_end(s, i + 1, end)
        }
    }
}

/// The first position from `i` on, before `end`, that is not whitespace.
fn skip_whitespace(s: &str, i: usize, end: usize) -> (r: usize)
    requires
        i <= end <= s@.len(),
    ensures
        r == scan_to(s@, i as int, end as int, |c: char| !is_white(c)),
    decreases end - i,
{
    if i >= end {
        end
    } else if !char_is_whitespace(s.get_char(i)) {
        i
    } else {
        skip_whitespace(s, i + 1, end)
    }
}

/// The end of `[start, end)` once whitespace at its end is cut.
fn trim_end_of(s: &str, start: usize, end: usize) -> (r: usize)
    requires
        start <= end <= s@.len(),
    ensures
        r == trimmed_end(s@, start as int, end as int),
    decreases end - start,
{
    if end <= start {
        start
    } else if !char_is_whitespace(s.get_char(end - 1)) {
        end
    } else {
        trim_end_of(s, start, end - 1)
    }
}

/// The positions that `scan_to` gives lie between its bounds.
proof fn lemma_scan_to_bounds(s: Seq<char>, i: int, end: int, stop: spec_fn(char) -> bool)
    requires
        i <= end,
    ensures
        i <= scan_to(s, i, end, stop) <= end,
    decreases end - i,
{
    if i < end && !stop(s[i]) {
        lemma_scan_to_bounds(s, i + 1, end, stop);
    }
}

/// The end that `trimmed_end` gives lies between the bounds.
proof fn lemma_trimmed_end_bounds(s: Seq<char>, start: int, end: int)
    requires
        start <= end,
    ensures
        start <= trimmed_end(s, start, end) <= end,
    decreases end - start,
{
    if start < end && is_white(s[end - 1]) {
        lemma_trimmed_end_bounds(s, start, end - 1);
    }
}

/// A position where `find_filename` stops leaves room for the word.
proof fn lemma_find_filename_bounds(s: Seq<char>, i: int)
    ensures
        find_filename(s, i) matches Some(p) ==> i <= p && p + 8 <= s.len(),
    decreases s.len() - i,
{
    if i >= 0 && i + 8 <= s.len() && !filename_at(s, i) {
        lemma_find_filename_bounds(s, i + 1);
    }
}

/// The file name that a `Content-Disposition` header value gives.
pub fn file_name_from_disposition(disposition: &str) -> (r: Option<String>)
    ensures
        match disposition_name(disposition@) {
            Some(name) => r matches Some(v) && v@ == name,
            None => r is None,
        },
{
    let n = disposition.unicode_len();
    proof {
        lemma_find_filename_bounds(disposition@, 0);
    }
    match find_filename_in(disposition, n) {
        None => None,
        Some(p) => {
            let ghost s = disposition@;
            let j = skip_to_equals(disposition, p + 8, n);
            proof {
                lemma_scan_to_bounds(s, p + 8, n as int, |c: char| c == '=');
            }
            let k = skip_to_name(disposition, j, n);
            proof {
                lemma_scan_to_bounds(s, j as int, n as int, |c: char| begins_name(c));
            }
            let e = skip_to_name_end(disposition, k, n);
            proof {
                lemma_scan_to_bounds(s, k as int, n as int, |c: char| ends_name(c));
            }
            let a = skip_whitespace(disposition, k, e);
            proof {
                lemma_scan_to_bounds(s, k as int, e as int, |c: char| !is_white(c));
            }
            let b = trim_end_of(disposition, a, e);
            proof {
                lemma_trimmed_end_bounds(s, a as int, e as int);
            }
            if a < b {
                Some(String::from_str(disposition.substring_char(a, b)))
            } else {
                None
            }
        },
    }
}

/// The last segment whose extension is given and not empty.
pub open spec fn last_with_extension(segments: Seq<Seq<char>>, extensions: Seq<Option<Seq<char>>>) -> Option<
    Seq<char>,
>
    decreases segments.len(),
{
    if segments.len() == 0 || extensions.len() != segments.len() {
        None
    } else if extensions.last() matches Some(e) && e.len() > 0 {
        Some(segments.last())
    } else {
        last_with_extension(segments.drop_last(), extensions.drop_last())
    }
}

/// Relies on `Path::extension` of the segment read as a path, as text.
/// How a path is split depends on the platform, so nothing is stated of
/// the result.
#[verifier::external_body]
fn path_extension(segment: &str) -> (r: Option<String>)
{
    std::path::Path::new(segment).extension().and_then(|e| e.to_str()).map(|e| e.to_string())
}

/// The file name that the segments of an address path give, knowing the
/// extension of each: the last segment with a non-empty extension.
pub fn file_name_from_extensions(segments: &[&str], extensions: &[Option<String>]) -> (r: Option<String>)
    requires
        segments@.len() == extensions@.len(),
    ensures
        match last_with_extension(
            segments@.map_values(|s: &str| s@),
            extensions@.map_values(|e: Option<String>| crate::chocolatey::opt_text(e)),
        ) {
            Some(name) => r matches Some(v) && v@ == name,
            None => r is None,
        },
{
    let ghost segs = segments@.map_values(|s: &str| s@);
    let ghost exts = extensions@.map_values(|e: Option<String>| crate::chocolatey::opt_text(e));
    let mut i: usize = segments.len();
    assert(segs.take(i as int) =~= segs);
    assert(exts.take(i as int) =~= exts);
    while i > 0
        invariant
            i <= segments@.len(),
            segments@.len() == extensions@.len(),
            segs == segments@.map_values(|s: &str| s@),
            exts == extensions@.map_values(|e: Option<String>| crate::chocolatey::opt_text(e)),
            last_with_extension(segs, exts) == last_with_extension(
                segs.take(i as int),
                exts.take(i as int),
            ),
        decreases i,
    {
        proof {
            assert(segs.take(i as int).drop_last() =~= segs.take(i - 1));
            assert(exts.take(i as int).drop_last() =~= exts.take(i - 1));
            assert(segs.take(i as int).last() == segments@[i - 1]@);
            assert(exts.take(i as int).last() == crate::chocolatey::opt_text(extensions@[i - 1]));
        }
        let found = match &extensions[i - 1] {
            Some(e) => !e.as_str().is_empty(),
            None => false,
        };
        if found {
            return Some(String::from_str(segments[i - 1]));
        }
        i -= 1;
    }
    None
}

/// The file name that the segments of an address path give: the last
/// segment whose extension is not empty, if any. The extensions are those
/// that the platform reads.
pub fn file_name_from_segments(segments: &[&str]) -> (r: Option<String>)
    ensures
        r matches Some(v) ==> exists|i: int| 0 <= i < segments@.len() && v@ == (#[trigger] segments@[i])@,
{
    let mut extensions: Vec<Option<String>> = Vec::new();
    let mut i: usize = 0;
    while i < segments.len()
        invariant
            i <= segments@.len(),
            extensions@.len() == i,
        decreases segments@.len() - i,
    {
        extensions.push(path_extension(segments[i]));
        i += 1;
    }
    let r = file_name_from_extensions(segments, extensions.as_slice());
    proof {
        lemma_last_with_extension_is_a_segment(
            segments@.map_values(|s: &str| s@),
            extensions@.map_values(|e: Option<String>| crate::chocolatey::opt_text(e)),
        );
    }
    r
}

/// The file name that an optional `Content-Disposition` value gives.
pub open spec fn named_by_disposition(disposition: Option<&str>) -> Option<Seq<char>> {
    match disposition {
        Some(d) => disposition_name(d@),
        None => None,
    }
}

/// The name of a downloaded file: the one that the `Content-Disposition`
/// value gives, else the one that the segments of the address path give.
pub fn download_file_name(disposition: Option<&str>, segments: Option<&[&str]>) -> (r: Option<String>)
    ensures
        named_by_disposition(disposition) is Some ==> (r matches Some(v) && v@ == named_by_disposition(
            disposition,
        )->Some_0),
        named_by_disposition(disposition) is None ==> match segments {
            None => r is None,
            Some(segs) => r matches Some(v) ==> exists|i: int|
                0 <= i < segs@.len() && v@ == (#[trigger] segs@[i])@,
        },
{
    if let Some(d) = disposition {
        if let Some(name) = file_name_from_disposition(d) {
            return Some(name);
        }
    }
    match segments {
        Some(segs) => file_name_from_segments(segs),
        None => None,
    }
}

/// The segment that `last_with_extension` gives is one of the segments.
proof fn lemma_last_with_extension_is_a_segment(
    segments: Seq<Seq<char>>,
    extensions: Seq<Option<Seq<char>>>,
)
    ensures
        last_with_extension(segments, extensions) matches Some(v) ==> exists|i: int|
            0 <= i < segments.len() && v == segments[i],
    decreases segments.len(),
{
    if segments.len() > 0 && extensions.len() == segments.len() {
        if !(extensions.last() matches Some(e) && e.len() > 0) {
            lemma_last_with_extension_is_a_segment(segments.drop_last(), extensions.drop_last());
            if last_with_extension(segments, extensions) is Some {
                let v = last_with_extension(segments, extensions)->Some_0;
                let i = choose|i: int| 0 <= i < segments.drop_last().len() && v == segments.drop_last()[i];
                assert(v == segments[i]);
            }
        } else {
            assert(segments.last() == segments[segments.len() - 1]);
        }
    }
}

} // verus!
