//! The site name that a package declares in its `FASTN.ftd`.
//!
//! The name is taken from the first line that holds the package marker: it
//! is what follows the first colon of that line, without the white space
//! around it.

use vstd::prelude::*;
use crate::text::{chars_between, chars_of, contains, occurs_in, string_of};

verus! {

/// Why no site name was found.
#[derive(Debug)]
pub enum GetSiteNameFromFtdError {
    /// No line of the file declares a package.
    PackageNotFound,
    /// The file could not be opened, and why.
    CantOpenFASTNFile(String),
    /// The file could not be read, and why.
    CantReadFASTNFile(String),
}

/// How the attempt to read `FASTN.ftd` ended.
#[derive(Debug)]
pub enum FastnFile {
    /// The file could not be opened, and why.
    Unopened(String),
    /// The file was opened but could not be read as text, and why.
    Unread(String),
    /// The text of the file.
    Content(String),
}

/// The marker of the line that declares the package.
pub open spec fn package_marker() -> Seq<char> {
    "-- fastn.package: "@
}

/// Whether `c` is white space: a character with the Unicode property
/// `White_Space`.
pub open spec fn is_white_space(c: char) -> bool {
    let code = c as u32;
    ||| 0x09 <= code <= 0x0D
    ||| code == 0x20
    ||| code == 0x85
    ||| code == 0xA0
    ||| code == 0x1680
    ||| 0x2000 <= code <= 0x200A
    ||| code == 0x2028
    ||| code == 0x2029
    ||| code == 0x202F
    ||| code == 0x205F
    ||| code == 0x3000
}

/// The number of characters of `text` before its first `stop`, or its
/// length where it has none.
pub open spec fn run_before(text: Seq<char>, stop: char) -> nat
    decreases text.len(),
{
    if text.len() == 0 || text[0] == stop {
        0
    } else {
        1 + run_before(text.drop_first(), stop)
    }
}

/// The first line of `text` that holds the package marker, without its line
/// feed. Lines end at a line feed or at the end of the text.
pub open spec fn package_line(text: Seq<char>) -> Option<Seq<char>>
    decreases text.len(),
{
    let end = run_before(text, '\n') as int;
    if occurs_in(text.take(end), package_marker()) {
        Some(text.take(end))
    } else if end < text.len() {
        package_line(text.skip(end + 1))
    } else {
        None
    }
}

/// `s` without the white space at its start.
pub open spec fn trim_start(s: Seq<char>) -> Seq<char>
    decreases s.len(),
{
    if s.len() > 0 && is_white_space(s[0]) {
        trim_start(s.drop_first())
    } else {
        s
    }
}

/// `s` without the white space at its end.
pub open spec fn trim_end(s: Seq<char>) -> Seq<char>
    decreases s.len(),
{
    if s.len() > 0 && is_white_space(s.last()) {
        trim_end(s.drop_last())
    } else {
        s
    }
}

/// `s` without the white space around it.
pub open spec fn trim(s: Seq<char>) -> Seq<char> {
    trim_end(trim_start(s))
}

/// What follows the first colon of `line`; nothing, where it has none.
pub open spec fn after_colon(line: Seq<char>) -> Seq<char> {
    let colon = run_before(line, ':') as int;
    if colon < line.len() {
        line.skip(colon + 1)
    } else {
        Seq::empty()
    }
}

/// The site name that `text` declares, if it declares one.
pub open spec fn declared_site(text: Seq<char>) -> Option<Seq<char>> {
    match package_line(text) {
        Some(line) => Some(trim(after_colon(line))),
        None => None,
    }
}

/// Tests whether `c` is white space.
pub fn is_white_space_char(c: char) -> (white: bool)
    ensures
        white == is_white_space(c),
{
    let code: u32 = c as u32;
    (0x09 <= code && code <= 0x0D) || code == 0x20 || code == 0x85 || code == 0xA0 || code
        == 0x1680 || (0x2000 <= code && code <= 0x200A) || code == 0x2028 || code == 0x2029 || code
        == 0x202F || code == 0x205F || code == 0x3000
}

/// The position of the first `stop` in `chars` at or after `from`, or the
/// length of `chars` where there is none.
fn find_from(chars: &Vec<char>, from: usize, stop: char) -> (at: usize)
    requires
        from <= chars@.len(),
    ensures
        at == from + run_before(chars@.skip(from as int), stop),
        at <= chars@.len(),
{
    let mut at: usize = from;
    while at < chars.len() && chars[at] != stop
        invariant
            from <= at <= chars@.len(),
            from + run_before(chars@.skip(from as int), stop) == at + run_before(
                chars@.skip(at as int),
                stop,
            ),
        decreases chars@.len() - at,
    {
        assert(chars@.skip(at as int).drop_first() == chars@.skip(at + 1));
        at += 1;
    }
    at
}

/// Takes the white space off both ends of `chars`.
pub fn trimmed(chars: &Vec<char>) -> (text: String)
    ensures
        text@ == trim(chars@),
{
    let mut start: usize = 0;
    assert(chars@.skip(0) == chars@);
    while start < chars.len() && is_white_space_char(chars[start])
        invariant
            start <= chars@.len(),
            trim_start(chars@) == trim_start(chars@.skip(start as int)),
        decreases chars@.len() - start,
    {
        assert(chars@.skip(start as int).drop_first() == chars@.skip(start + 1));
        start += 1;
    }
    let mut end: usize = chars.len();
    assert(chars@.skip(start as int) == chars@.subrange(start as int, end as int));
    while end > start && is_white_space_char(chars[end - 1])
        invariant
            start <= end <= chars@.len(),
            trim(chars@) == trim_end(chars@.subrange(start as int, end as int)),
        decreases end - start,
    {
        assert(chars@.subrange(start as int, end as int).drop_last() == chars@.subrange(
            start as int,
            end - 1,
        ));
        end -= 1;
    }
    string_of(chars, start, end)
}

/// Finds the site name that the text of a `FASTN.ftd` declares.
pub fn site_name_in(fastn_content: &str) -> (name: Option<String>)
    ensures
        match name {
            Some(site) => declared_site(fastn_content@) == Some(site@),
            None => declared_site(fastn_content@) is None,
        },
{
    let chars = chars_of(fastn_content);
    let marker = chars_of("-- fastn.package: ");
    let mut start: usize = 0;
    assert(chars@.skip(0) == chars@);
    loop
        invariant
            start <= chars@.len(),
            chars@ == fastn_content@,
            marker@ == package_marker(),
            package_line(chars@) == package_line(chars@.skip(start as int)),
        decreases chars@.len() - start,
    {
        let ghost rest = chars@.skip(start as int);
        let end = find_from(&chars, start, '\n');
        let line = chars_between(&chars, start, end);
        assert(line@ == rest.take(end - start));
        if contains(&line, &marker) {
            let colon = find_from(&line, 0, ':');
            assert(line@.skip(0) == line@);
            let value = if colon < line.len() {
                chars_between(&line, colon + 1, line.len())
            } else {
                Vec::new()
            };
            assert(value@ == after_colon(line@));
            return Some(trimmed(&value));
        }
        if end >= chars.len() {
            return None;
        }
        assert(rest.skip(end - start + 1) == chars@.skip(end + 1));
        start = end + 1;
    }
}

/// The site name of the package whose `FASTN.ftd` was read as `file`.
///
/// A file that could not be opened or read gives the matching error with
/// the reason it came with; a text that declares no package gives
/// `PackageNotFound`.
pub fn get_site_name_from_ftd(file: &FastnFile) -> (result: Result<String, GetSiteNameFromFtdError>)
    ensures
        match (file, result) {
            (FastnFile::Unopened(why), Err(GetSiteNameFromFtdError::CantOpenFASTNFile(reason))) => reason@
                == why@,
            (FastnFile::Unread(why), Err(GetSiteNameFromFtdError::CantReadFASTNFile(reason))) => reason@
                == why@,
            (FastnFile::Content(text), Ok(site)) => declared_site(text@) == Some(site@),
            (FastnFile::Content(text), Err(GetSiteNameFromFtdError::PackageNotFound)) => declared_site(
                text@,
            ) is None,
            _ => false,
        },
{
    match file {
        FastnFile::Unopened(why) => Err(GetSiteNameFromFtdError::CantOpenFASTNFile(why.clone())),
        FastnFile::Unread(why) => Err(GetSiteNameFromFtdError::CantReadFASTNFile(why.clone())),
        FastnFile::Content(text) => match site_name_in(text.as_str()) {
            Some(site) => Ok(site),
            None => Err(GetSiteNameFromFtdError::PackageNotFound),
        },
    }
}

} // verus!
