//! Names of maps and of their files.

use vstd::prelude::*;
use vstd::string::*;

verus! {

/// The lower-case form of a text: what `str::to_lowercase` of the standard
/// library returns for it.
pub uninterp spec fn lowercase_of(text: Seq<char>) -> Seq<char>;

/// Calls `str::to_lowercase`. The result is a function of the text alone; the
/// contract gives it its name and claims nothing else of it.
#[verifier::external_body]
fn to_lowercase(text: &str) -> (r: String)
    ensures
        r@ == lowercase_of(text@),
{
    text.to_lowercase()
}

/// The view of an optional text.
pub open spec fn text_of(text: Option<&str>) -> Option<Seq<char>> {
    match text {
        Some(t) => Some(t@),
        None => None,
    }
}

/// The ending of every map file's name.
pub open spec fn map_suffix() -> Seq<char> {
    seq!['.', 'm', 'a', 'p']
}

/// Whether a text ends in `.map`.
pub open spec fn has_map_suffix(text: Seq<char>) -> bool {
    text.len() >= 4 && text.subrange(text.len() - 4, text.len() as int) == map_suffix()
}

/// A text without its ending `.map`, if it has one.
pub open spec fn without_map_suffix(text: Seq<char>) -> Seq<char> {
    if has_map_suffix(text) {
        text.subrange(0, text.len() - 4)
    } else {
        text
    }
}

/// The name of the file that holds the map of the given name.
pub open spec fn file_name_of(name: Seq<char>) -> Seq<char> {
    name + map_suffix()
}

/// The key under which a map of the given name is stored and looked up: the
/// name in lower case.
pub fn lookup_key(name: &str) -> (r: String)
    ensures
        r@ == lowercase_of(name@),
{
    to_lowercase(name)
}

/// Whether two texts are the same.
pub fn same_text(a: &str, b: &str) -> (r: bool)
    ensures
        r == (a@ == b@),
{
    String::from_str(a) == String::from_str(b)
}

/// Whether `text` ends in `.map`.
pub fn ends_with_map_suffix(text: &str) -> (r: bool)
    ensures
        r == has_map_suffix(text@),
{
    let n: usize = text.unicode_len();
    if n < 4 {
        return false;
    }
    let a: char = text.get_char(n - 4);
    let b: char = text.get_char(n - 3);
    let c: char = text.get_char(n - 2);
    let d: char = text.get_char(n - 1);
    let r = a == '.' && b == 'm' && c == 'a' && d == 'p';
    proof {
        if r {
            assert(text@.subrange(n - 4, n as int) =~= map_suffix());
        }
    }
    r
}

/// A text without its ending `.map`, if it has one.
pub fn strip_map_suffix(text: &str) -> (r: String)
    ensures
        r@ == without_map_suffix(text@),
{
    if ends_with_map_suffix(text) {
        let n: usize = text.unicode_len();
        String::from_str(text.substring_char(0, n - 4))
    } else {
        String::from_str(text)
    }
}

/// The stem of a submitted map's file: the name in lower case, without an
/// ending `.map`.
pub fn file_stem(name: &str) -> (r: String)
    ensures
        r@ == without_map_suffix(lowercase_of(name@)),
{
    let lower = to_lowercase(name);
    strip_map_suffix(lower.as_str())
}

/// The name of the file of the map `name`: the name followed by `.map`.
pub fn map_file_name(name: &str) -> (r: String)
    ensures
        r@ == file_name_of(name@),
{
    let mut r = String::from_str(name);
    r.append(".map");
    proof {
        reveal_strlit(".map");
    }
    r
}

/// A line without the carriage return that may end it.
pub open spec fn without_return(line: Seq<char>) -> Seq<char> {
    if line.len() > 0 && line.last() == '\r' {
        line.drop_last()
    } else {
        line
    }
}

/// What follows the last line feed of a text: the line that is still open.
pub open spec fn open_line(text: Seq<char>) -> Seq<char>
    decreases text.len(),
{
    if text.len() == 0 {
        text
    } else if text.last() == '\n' {
        Seq::empty()
    } else {
        open_line(text.drop_last()).push(text.last())
    }
}

/// The lines of a text that a line feed ends, each without the line feed
/// and without a carriage return before it.
pub open spec fn closed_lines(text: Seq<char>) -> Seq<Seq<char>>
    decreases text.len(),
{
    if text.len() == 0 {
        Seq::empty()
    } else if text.last() == '\n' {
        closed_lines(text.drop_last()).push(without_return(open_line(text.drop_last())))
    } else {
        closed_lines(text.drop_last())
    }
}

/// The lines of a text. A line ends at a line feed, or at a carriage return
/// followed by one; the end of the text ends the last line, which is left
/// out if it is empty.
pub open spec fn lines_of(text: Seq<char>) -> Seq<Seq<char>> {
    if open_line(text).len() == 0 {
        closed_lines(text)
    } else {
        closed_lines(text).push(open_line(text))
    }
}

/// The texts of a list of strings.
pub open spec fn texts(lines: Seq<String>) -> Seq<Seq<char>> {
    Seq::new(lines.len(), |i: int| lines[i]@)
}

/// Splits a text into its lines.
pub fn lines(text: &str) -> (out: Vec<String>)
    ensures
        texts(out@) == lines_of(text@),
{
    let n: usize = text.unicode_len();
    let mut out: Vec<String> = Vec::new();
    let mut start: usize = 0;
    let mut i: usize = 0;
    while i < n
        invariant
            start <= i <= n,
            n == text@.len(),
            texts(out@) == closed_lines(text@.take(i as int)),
            text@.subrange(start as int, i as int) == open_line(text@.take(i as int)),
        decreases n - i,
    {
        proof {
            assert(text@.take(i + 1).drop_last() =~= text@.take(i as int));
        }
        if text.get_char(i) == '\n' {
            let end: usize = if i > start && text.get_char(i - 1) == '\r' {
                i - 1
            } else {
                i
            };
            out.push(String::from_str(text.substring_char(start, end)));
            proof {
                assert(text@.subrange(start as int, end as int) =~= without_return(
                    text@.subrange(start as int, i as int),
                ));
            }
            start = i + 1;
        } else {
            proof {
                assert(text@.subrange(start as int, i + 1) =~= text@.subrange(
                    start as int,
                    i as int,
                ).push(text@[i as int]));
            }
        }
        i += 1;
    }
    proof {
        assert(text@.take(n as int) =~= text@);
    }
    if start < n {
        out.push(String::from_str(text.substring_char(start, n)));
    }
    out
}

/// A file name always leads back to its map: the name of `name`'s file ends
/// in `.map`, and without the ending it is `name`. So two maps never share a
/// file.
pub proof fn file_name_round_trip(name: Seq<char>)
    ensures
        has_map_suffix(file_name_of(name)),
        without_map_suffix(file_name_of(name)) == name,
{
    let f = file_name_of(name);
    assert(f.subrange(f.len() - 4, f.len() as int) =~= map_suffix());
}

} // verus!
