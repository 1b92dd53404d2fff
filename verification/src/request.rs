//! The forms of a module request: relative to a directory, absolute, a
//! prefix of requests, or the name of a package.

use crate::text::chars_of;
use crate::text::head_to;
use vstd::prelude::*;

verus! {

/// Whether `c` parts the segments of a request: a slash or a backslash.
pub open spec fn is_separator(c: char) -> bool {
    c == '/' || c == '\\'
}

/// Whether `c` is a letter of the basic alphabet.
pub open spec fn is_drive_letter(c: char) -> bool {
    ('A' <= c && c <= 'Z') || ('a' <= c && c <= 'z')
}

/// A relative request is `.` or `..`, alone or followed by a slash.
pub open spec fn relative_request(s: Seq<char>) -> bool {
    &&& s.len() >= 1
    &&& s[0] == '.'
    &&& {
        ||| s.len() == 1
        ||| s[1] == '/'
        ||| (s[1] == '.' && (s.len() == 2 || s[2] == '/'))
    }
}

/// An absolute request begins with a slash, with a drive (a letter, a
/// colon and a backslash), or with two backslashes.
pub open spec fn absolute_request(s: Seq<char>) -> bool {
    ||| (s.len() >= 1 && s[0] == '/')
    ||| (s.len() >= 3 && is_drive_letter(s[0]) && s[1] == ':' && s[2] == '\\')
    ||| (s.len() >= 2 && s[0] == '\\' && s[1] == '\\')
}

/// A request that ends in a slash stands for all requests below it.
pub open spec fn prefix_request(s: Seq<char>) -> bool {
    s.len() > 0 && s.last() == '/'
}

/// The end of the segment of `s` that begins at `from`: the place of the
/// next separator, or the end of `s`.
pub open spec fn segment_end(s: Seq<char>, from: int) -> int
    decreases s.len() - from,
{
    if from < 0 || from >= s.len() || is_separator(s[from]) {
        from
    } else {
        segment_end(s, from + 1)
    }
}

/// The number of characters of `s` that name the package: the first
/// segment, and the second as well where the first is a scope (it begins
/// with `@`, holds more, and a second segment follows it). Zero where `s`
/// begins with no segment.
pub open spec fn package_name_len(s: Seq<char>) -> int {
    let first = segment_end(s, 0);
    let second = segment_end(s, first + 1);
    if first >= 2 && s[0] == '@' && first < s.len() && second > first + 1 {
        second
    } else {
        first
    }
}

/// The name of the package that a request asks for, if it begins with one.
pub open spec fn package_name(s: Seq<char>) -> Option<Seq<char>> {
    if package_name_len(s) > 0 {
        Some(s.subrange(0, package_name_len(s)))
    } else {
        None
    }
}

/// The end of a segment lies at or after its beginning and within the
/// text; no separator stands before it, and one stands at it unless the
/// text ends there.
pub proof fn law_segment_end(s: Seq<char>, from: int)
    requires
        0 <= from <= s.len(),
    ensures
        from <= segment_end(s, from) <= s.len(),
        forall|k: int| from <= k < segment_end(s, from) ==> !is_separator(#[trigger] s[k]),
        segment_end(s, from) < s.len() ==> is_separator(s[segment_end(s, from)]),
    decreases s.len() - from,
{
    if from < s.len() && !is_separator(s[from]) {
        law_segment_end(s, from + 1);
    }
}

fn is_sep(c: char) -> (b: bool)
    ensures
        b == is_separator(c),
{
    c == '/' || c == '\\'
}

fn is_letter(c: char) -> (b: bool)
    ensures
        b == is_drive_letter(c),
{
    ('A' <= c && c <= 'Z') || ('a' <= c && c <= 'z')
}

pub fn is_relative_request(request: &str) -> (b: bool)
    ensures
        b == relative_request(request@),
{
    let s = chars_of(request);
    let n: usize = s.len();
    if n == 0 || s[0] != '.' {
        return false;
    }
    if n == 1 || s[1] == '/' {
        return true;
    }
    s[1] == '.' && (n == 2 || s[2] == '/')
}

pub fn is_absolute_request(request: &str) -> (b: bool)
    ensures
        b == absolute_request(request@),
{
    let s = chars_of(request);
    let n: usize = s.len();
    if n >= 1 && s[0] == '/' {
        return true;
    }
    if n >= 3 && is_letter(s[0]) && s[1] == ':' && s[2] == '\\' {
        return true;
    }
    n >= 2 && s[0] == '\\' && s[1] == '\\'
}

pub fn is_prefix_request(request: &str) -> (b: bool)
    ensures
        b == prefix_request(request@),
{
    crate::text::ends_with_char(request, '/')
}

/// The end of the segment of `s` that begins at `from`.
fn find_segment_end(s: &Vec<char>, from: usize) -> (end: usize)
    requires
        from <= s@.len(),
    ensures
        end == segment_end(s@, from as int),
        from <= end <= s@.len(),
{
    let n: usize = s.len();
    let mut i: usize = from;
    while i < n && !is_sep(s[i])
        invariant
            from <= i <= n,
            n == s@.len(),
            segment_end(s@, i as int) == segment_end(s@, from as int),
        decreases n - i,
    {
        i = i + 1;
    }
    i
}

/// The name of the package that `request` asks for: `react` in
/// `react/jsx-runtime`, `@babel/core` in `@babel/core/lib/index.js`. None
/// where the request begins with a separator or is empty.
pub fn package_name_of(request: &str) -> (name: Option<String>)
    ensures
        match package_name(request@) {
            Some(text) => name is Some && name->Some_0@ == text,
            None => name is None,
        },
{
    let s = chars_of(request);
    let n: usize = s.len();
    let first = find_segment_end(&s, 0);
    if first == 0 {
        return None;
    }
    let mut len: usize = first;
    if first >= 2 && s[0] == '@' && first < n {
        let second = find_segment_end(&s, first + 1);
        if second > first + 1 {
            len = second;
        }
    }
    Some(head_to(request, len))
}

} // verus!
