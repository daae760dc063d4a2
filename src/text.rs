//! Building the text of findings: decimal numbers, marked lines, and the two
//! std operations on text that the findings use.
use vstd::prelude::*;

verus! {

pub open spec fn text_of(s: Option<String>) -> Option<Seq<char>> {
    match s {
        Some(s) => Some(s@),
        None => None,
    }
}

/// Relies on String::push: the character is added at the end.
#[verifier::external_body]
pub(crate) fn push_char(s: &mut String, c: char)
    ensures
        final(s)@ == old(s)@.push(c),
{
    s.push(c)
}

/// Unicode's White_Space property, which std's `str::trim` goes by.
pub open spec fn is_white_space(c: char) -> bool {
    let u = c as u32;
    (0x9 <= u <= 0xd) || u == 0x20 || u == 0x85 || u == 0xa0 || u == 0x1680 || (0x2000 <= u
        <= 0x200a) || u == 0x2028 || u == 0x2029 || u == 0x202f || u == 0x205f || u == 0x3000
}

fn white_space(c: char) -> (r: bool)
    ensures
        r == is_white_space(c),
{
    let u = c as u32;
    (0x9 <= u && u <= 0xd) || u == 0x20 || u == 0x85 || u == 0xa0 || u == 0x1680 || (0x2000 <= u
        && u <= 0x200a) || u == 0x2028 || u == 0x2029 || u == 0x202f || u == 0x205f || u == 0x3000
}

/// The text without its leading white space.
pub open spec fn trim_start(s: Seq<char>) -> Seq<char>
    decreases s.len(),
{
    if s.len() > 0 && is_white_space(s[0]) {
        trim_start(s.drop_first())
    } else {
        s
    }
}

/// The text without its trailing white space.
pub open spec fn trim_end(s: Seq<char>) -> Seq<char>
    decreases s.len(),
{
    if s.len() > 0 && is_white_space(s.last()) {
        trim_end(s.drop_last())
    } else {
        s
    }
}

/// The text with leading and trailing white space removed.
pub open spec fn trimmed(s: Seq<char>) -> Seq<char> {
    trim_end(trim_start(s))
}

/// Removes leading and trailing white space, as std's `str::trim` does.
pub fn trim(s: &str) -> (r: String)
    ensures
        r@ == trimmed(s@),
{
    let n = s.unicode_len();
    let mut i: usize = 0;
    assert(s@.subrange(0, n as int) =~= s@);
    while i < n && white_space(s.get_char(i))
        invariant
            n == s@.len(),
            i <= n,
            trim_start(s@) == trim_start(s@.subrange(i as int, n as int)),
        decreases n - i,
    {
        assert(s@.subrange(i as int, n as int).drop_first() =~= s@.subrange(i + 1, n as int));
        i = i + 1;
    }
    assert(trim_start(s@) == s@.subrange(i as int, n as int));
    let mut j: usize = n;
    while j > i && white_space(s.get_char(j - 1))
        invariant
            n == s@.len(),
            i <= j <= n,
            trimmed(s@) == trim_end(s@.subrange(i as int, j as int)),
        decreases j - i,
    {
        assert(s@.subrange(i as int, j as int).drop_last() =~= s@.subrange(i as int, j - 1));
        j = j - 1;
    }
    s.substring_char(i, j).to_owned()
}

/// The part of the path after `base`, where `base` is a leading run of whole
/// components of `path`, as std compares paths.
pub uninterp spec fn path_relative_to(path: Seq<char>, base: Seq<char>) -> Option<Seq<char>>;

/// Relies on std::path::Path::strip_prefix: the result depends on the two texts
/// alone. A part of a UTF-8 path is UTF-8, so the conversion back loses nothing.
#[verifier::external_body]
pub(crate) fn strip_path_prefix(path: &str, base: &str) -> (r: Option<String>)
    ensures
        text_of(r) == path_relative_to(path@, base@),
{
    std::path::Path::new(path).strip_prefix(base).ok().map(|p| p.to_string_lossy().into_owned())
}

/// `path` made relative to `base` where it lies under it, else `path` itself.
pub open spec fn relative_or_whole(path: Seq<char>, base: Seq<char>) -> Seq<char> {
    match path_relative_to(path, base) {
        Some(p) => p,
        None => path,
    }
}

pub fn relative_path(path: &str, base: &str) -> (r: String)
    ensures
        r@ == relative_or_whole(path@, base@),
{
    match strip_path_prefix(path, base) {
        Some(p) => p,
        None => path.to_owned(),
    }
}

pub open spec fn digit_char(d: nat) -> char {
    if d == 0 { '0' }
    else if d == 1 { '1' }
    else if d == 2 { '2' }
    else if d == 3 { '3' }
    else if d == 4 { '4' }
    else if d == 5 { '5' }
    else if d == 6 { '6' }
    else if d == 7 { '7' }
    else if d == 8 { '8' }
    else { '9' }
}

/// The decimal digits of `n`, most significant first, with no leading zero.
pub open spec fn decimal(n: nat) -> Seq<char>
    decreases n,
{
    if n < 10 {
        seq![digit_char(n)]
    } else {
        decimal(n / 10).push(digit_char(n % 10))
    }
}

fn digit(d: u64) -> (c: char)
    requires
        d < 10,
    ensures
        c == digit_char(d as nat),
{
    if d == 0 { '0' }
    else if d == 1 { '1' }
    else if d == 2 { '2' }
    else if d == 3 { '3' }
    else if d == 4 { '4' }
    else if d == 5 { '5' }
    else if d == 6 { '6' }
    else if d == 7 { '7' }
    else if d == 8 { '8' }
    else { '9' }
}

/// Writes `n` in decimal at the end of `out`.
pub fn push_decimal(out: &mut String, n: u64)
    ensures
        final(out)@ == old(out)@ + decimal(n as nat),
    decreases n,
{
    if n >= 10 {
        push_decimal(out, n / 10);
    }
    push_char(out, digit(n % 10));
    assert(old(out)@ + decimal(n as nat) =~= out@);
}

/// `s` with `mark` before its first line and before each line that follows a
/// `\n`; no terminator after the last line.
pub open spec fn marked(mark: char, s: Seq<char>) -> Seq<char>
    decreases s.len(),
{
    if s.len() == 0 {
        seq![mark]
    } else if s.last() == '\n' {
        marked(mark, s.drop_last()) + seq!['\n', mark]
    } else {
        marked(mark, s.drop_last()).push(s.last())
    }
}

/// Each line of `s` with `mark` before it and `\n` after it; nothing for an
/// empty `s`.
pub open spec fn marked_lines(mark: char, s: Seq<char>) -> Seq<char> {
    if s.len() == 0 {
        Seq::empty()
    } else {
        marked(mark, s).push('\n')
    }
}

/// Writes each line of `s` at the end of `out`, with `mark` before it and `\n`
/// after it.
pub fn push_marked_lines(out: &mut String, mark: char, s: &str)
    ensures
        final(out)@ == old(out)@ + marked_lines(mark, s@),
{
    broadcast use vstd::string::group_string_axioms;

    let ghost start = out@;
    if s.is_empty() {
        assert(out@ =~= start + marked_lines(mark, s@));
        return;
    }
    push_char(out, mark);
    for c in it: s.chars()
        invariant
            it.seq() == s@,
            out@ == start + marked(mark, s@.subrange(0, it.index() as int)),
    {
        let ghost i = it.index() as int;
        assert(s@.subrange(0, i + 1).drop_last() =~= s@.subrange(0, i));
        if c == '\n' {
            push_char(out, '\n');
            push_char(out, mark);
        } else {
            push_char(out, c);
        }
        assert(out@ =~= start + marked(mark, s@.subrange(0, i + 1)));
    }
    assert(s@.subrange(0, s@.len() as int) =~= s@);
    push_char(out, '\n');
    assert(out@ =~= start + marked_lines(mark, s@));
}

} // verus!
