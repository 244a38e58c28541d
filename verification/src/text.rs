//! Text building blocks: decimal digits, prefixes, truncation, relative
//! times and line splitting.
use vstd::prelude::*;

verus! {

/// Whether two string slices hold the same characters.
pub(crate) fn str_eq(a: &str, b: &str) -> (r: bool)
    ensures
        r == (a@ == b@),
{
    a.to_owned() == b.to_owned()
}

} // verus!

verus! {

/// `String::push` from std: appends one character.
#[verifier::external_body]
pub(crate) fn push_char(s: &mut String, c: char)
    ensures
        final(s)@ == old(s)@.push(c),
{
    s.push(c);
}

/// The character of a decimal digit.
pub open spec fn digit_char(d: nat) -> char {
    if d == 0 {
        '0'
    } else if d == 1 {
        '1'
    } else if d == 2 {
        '2'
    } else if d == 3 {
        '3'
    } else if d == 4 {
        '4'
    } else if d == 5 {
        '5'
    } else if d == 6 {
        '6'
    } else if d == 7 {
        '7'
    } else if d == 8 {
        '8'
    } else {
        '9'
    }
}

/// The decimal numeral of `n`, without leading zeros.
pub open spec fn decimal(n: nat) -> Seq<char>
    decreases n,
{
    if n < 10 {
        seq![digit_char(n)]
    } else {
        decimal(n / 10).push(digit_char(n % 10))
    }
}

fn digit(d: u64) -> (c: char)
    requires
        d < 10,
    ensures
        c == digit_char(d as nat),
{
    match d {
        0 => '0',
        1 => '1',
        2 => '2',
        3 => '3',
        4 => '4',
        5 => '5',
        6 => '6',
        7 => '7',
        8 => '8',
        _ => '9',
    }
}

/// Appends the decimal numeral of `n`.
pub fn append_decimal(s: &mut String, n: u64)
    ensures
        final(s)@ == old(s)@ + decimal(n as nat),
    decreases n,
{
    if n >= 10 {
        append_decimal(s, n / 10);
    }
    push_char(s, digit(n % 10));
    proof {
        if n < 10 {
            assert(n % 10 == n);
        }
    }
}

/// The decimal numeral of `n` as a string.
pub fn decimal_string(n: u64) -> (r: String)
    ensures
        r@ == decimal(n as nat),
{
    let mut s = String::new();
    append_decimal(&mut s, n);
    proof {
        assert(Seq::<char>::empty() + decimal(n as nat) =~= decimal(n as nat));
    }
    s
}

/// Appends a string slice.
pub fn append_str(s: &mut String, t: &str)
    ensures
        final(s)@ == old(s)@ + t@,
{
    s.append(t);
}

} // verus!

verus! {

/// The first `n` characters of a text, or all of it when it is shorter.
pub open spec fn prefix_chars(s: Seq<char>, n: nat) -> Seq<char> {
    if s.len() <= n {
        s
    } else {
        s.take(n as int)
    }
}

/// Appends at most the first `n` characters of `t`.
pub fn append_prefix(s: &mut String, t: &str, n: usize)
    ensures
        final(s)@ == old(s)@ + prefix_chars(t@, n as nat),
{
    let len = t.unicode_len();
    if len <= n {
        append_str(s, t);
    } else {
        let p = t.substring_char(0, n);
        append_str(s, p);
    }
}

} // verus!

verus! {

/// Truncate a string to at most `max` chars, preserving UTF-8 boundaries.
pub fn truncate_str(s: &str, max: usize) -> (r: &str)
    ensures
        r@ == prefix_chars(s@, max as nat),
{
    let n = s.unicode_len();
    if n <= max {
        s
    } else {
        s.substring_char(0, max)
    }
}

/// The text cut from the left to `max` characters behind an ellipsis,
/// when it is longer than `max` and `max` is not 0.
pub open spec fn truncated_left(s: Seq<char>, max: nat) -> Seq<char> {
    if s.len() <= max || max == 0 {
        s
    } else {
        "…"@ + s.skip(s.len() - max + 1)
    }
}

/// Truncate from the left, prepending "…" if the name is too long.
pub fn truncate_left(s: &str, max: usize) -> (r: String)
    ensures
        r@ == truncated_left(s@, max as nat),
{
    let char_count = s.unicode_len();
    if char_count <= max || max == 0 {
        return s.to_string();
    }
    let skip = char_count - max + 1;  // +1 for the "…"
    let mut out = String::new();
    append_str(&mut out, "…");
    append_str(&mut out, s.substring_char(skip, char_count));
    proof {
        assert(s@.subrange(skip as int, char_count as int) =~= s@.skip(skip as int));
        assert(out@ =~= "…"@ + s@.skip(skip as int));
    }
    out
}

/// How long ago something happened, from the whole seconds since then:
/// seconds under a minute, minutes under an hour, hours and minutes under
/// a day, else days.
pub open spec fn ago_text(secs: nat) -> Seq<char> {
    if secs < 60 {
        decimal(secs) + "s ago"@
    } else if secs < 3600 {
        decimal(secs / 60) + "m ago"@
    } else if secs < 86400 {
        decimal(secs / 3600) + "h "@ + decimal((secs % 3600) / 60) + "m ago"@
    } else {
        decimal(secs / 86400) + "d ago"@
    }
}

/// Format an elapsed time as a human-readable relative time string.
pub fn format_ago(secs: u64) -> (r: String)
    ensures
        r@ == ago_text(secs as nat),
{
    let mut s = String::new();
    if secs < 60 {
        append_decimal(&mut s, secs);
        append_str(&mut s, "s ago");
    } else if secs < 3600 {
        append_decimal(&mut s, secs / 60);
        append_str(&mut s, "m ago");
    } else if secs < 86400 {
        append_decimal(&mut s, secs / 3600);
        append_str(&mut s, "h ");
        append_decimal(&mut s, (secs % 3600) / 60);
        append_str(&mut s, "m ago");
    } else {
        let days = secs / 86400;
        append_decimal(&mut s, days);
        append_str(&mut s, "d ago");
    }
    proof {
        assert(s@ =~= ago_text(secs as nat));
    }
    s
}

/// The lines of a text as `str::lines` splits it: at each line feed, with
/// one carriage return before it dropped; a last line without a line feed
/// counts only when it is not empty.
pub open spec fn lines_from(s: Seq<char>, done: Seq<Seq<char>>, cur: Seq<char>) -> Seq<Seq<char>>
    decreases s.len(),
{
    if s.len() == 0 {
        if cur.len() == 0 {
            done
        } else {
            done.push(cur)
        }
    } else if s[0] == '\n' {
        lines_from(s.drop_first(), done.push(strip_cr(cur)), Seq::empty())
    } else {
        lines_from(s.drop_first(), done, cur.push(s[0]))
    }
}

/// A line without the carriage return that ends it, if any.
pub open spec fn strip_cr(line: Seq<char>) -> Seq<char> {
    if line.len() > 0 && line.last() == '\r' {
        line.drop_last()
    } else {
        line
    }
}

pub open spec fn lines_of(s: Seq<char>) -> Seq<Seq<char>> {
    lines_from(s, Seq::empty(), Seq::empty())
}

/// The texts of a sequence of strings.
pub open spec fn string_views(v: Seq<String>) -> Seq<Seq<char>> {
    v.map_values(|l: String| l@)
}

/// Splits a text into its lines, as `str::lines` does.
pub fn split_lines(s: &str) -> (r: Vec<String>)
    ensures
        string_views(r@) == lines_of(s@),
{
    let mut done: Vec<String> = Vec::new();
    let mut cur = String::new();
    proof {
        broadcast use vstd::string::group_string_axioms;
        assert(s@.skip(0) =~= s@);
        assert(string_views(done@) =~= Seq::<Seq<char>>::empty());
    }
    for c in it: s.chars()
        invariant
            it.seq() == s@,
            lines_of(s@) == lines_from(
                s@.skip(it.index()),
                string_views(done@),
                cur@,
            ),
    {
        assert(s@.skip(it.index()).drop_first() =~= s@.skip(it.index() + 1));
        assert(s@.skip(it.index())[0] == c);
        if c == '\n' {
            let line = strip_cr_string(cur);
            let ghost before = done@;
            done.push(line);
            assert(string_views(done@) =~= string_views(before).push(
                strip_cr(cur@),
            ));
            cur = String::new();
            assert(cur@ =~= Seq::<char>::empty());
        } else {
            push_char(&mut cur, c);
        }
    }
    assert(s@.skip(s@.len() as int) =~= Seq::<char>::empty());
    if cur.as_str().unicode_len() > 0 {
        let ghost before = done@;
        let ghost last = cur@;
        done.push(cur);
        assert(string_views(done@) =~= string_views(before).push(last));
    }
    done
}

fn strip_cr_string(line: String) -> (r: String)
    ensures
        r@ == strip_cr(line@),
{
    let n = line.as_str().unicode_len();
    if n > 0 && line.as_str().get_char(n - 1) == '\r' {
        line.as_str().substring_char(0, n - 1).to_string()
    } else {
        line
    }
}

} // verus!
