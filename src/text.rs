use vstd::prelude::*;

verus! {

/// The decimal digit for `d < 10`.
pub open spec fn digit_char(d: nat) -> char {
    if d == 0 {
        '0'
    } else if d == 1 {
        '1'
    } else if d == 2 {
        '2'
    } else if d == 3 {
        '3'
    } else if d == 4 {
        '4'
    } else if d == 5 {
        '5'
    } else if d == 6 {
        '6'
    } else if d == 7 {
        '7'
    } else if d == 8 {
        '8'
    } else {
        '9'
    }
}

/// The decimal text of `n`, without sign or leading zeros.
pub open spec fn decimal(n: nat) -> Seq<char>
    decreases n,
{
    if n < 10 {
        seq![digit_char(n)]
    } else {
        decimal(n / 10).push(digit_char(n % 10))
    }
}

/// Relies on `String::push`: appends one character.
#[verifier::external_body]
pub fn push_char(s: &mut String, c: char)
    ensures
        final(s)@ == old(s)@.push(c),
{
    s.push(c);
}

fn digit(d: usize) -> (c: char)
    requires
        d < 10,
    ensures
        c == digit_char(d as nat),
{
    if d == 0 {
        '0'
    } else if d == 1 {
        '1'
    } else if d == 2 {
        '2'
    } else if d == 3 {
        '3'
    } else if d == 4 {
        '4'
    } else if d == 5 {
        '5'
    } else if d == 6 {
        '6'
    } else if d == 7 {
        '7'
    } else if d == 8 {
        '8'
    } else {
        '9'
    }
}

/// Appends the decimal text of `n`.
pub fn push_decimal(s: &mut String, n: usize)
    ensures
        final(s)@ == old(s)@ + decimal(n as nat),
{
    push_decimal_u64(s, n as u64);
}

/// Appends the decimal text of `n`.
pub fn push_decimal_u64(s: &mut String, n: u64)
    ensures
        final(s)@ == old(s)@ + decimal(n as nat),
    decreases n,
{
    if n >= 10 {
        push_decimal_u64(s, n / 10);
    }
    push_char(s, digit((n % 10) as usize));
    assert(s@ =~= old(s)@ + decimal(n as nat));
}

/// Appends `t` to `s`.
pub fn push_text(s: &mut String, t: &str)
    ensures
        final(s)@ == old(s)@ + t@,
{
    s.append(t);
}

/// Relies on `str::chars` collected into a `Vec`: the characters in order.
#[verifier::external_body]
pub fn chars_of(s: &str) -> (r: Vec<char>)
    ensures
        r@ == s@,
{
    s.chars().collect()
}

/// Unicode's White_Space property, as `char::is_whitespace` tests it.
pub open spec fn is_white(c: char) -> bool {
    let u = c as u32;
    (0x09 <= u <= 0x0d) || u == 0x20 || u == 0x85 || u == 0xa0 || u == 0x1680 || (0x2000 <= u
        <= 0x200a) || u == 0x2028 || u == 0x2029 || u == 0x202f || u == 0x205f || u == 0x3000
}

pub fn is_white_char(c: char) -> (r: bool)
    ensures
        r == is_white(c),
{
    let u = c as u32;
    (0x09 <= u && u <= 0x0d) || u == 0x20 || u == 0x85 || u == 0xa0 || u == 0x1680 || (0x2000 <= u
        && u <= 0x200a) || u == 0x2028 || u == 0x2029 || u == 0x202f || u == 0x205f || u == 0x3000
}

/// A line with nothing but white space (an empty line included).
pub open spec fn is_blank(line: Seq<char>) -> bool {
    forall|i: int| 0 <= i < line.len() ==> is_white(#[trigger] line[i])
}

pub fn is_blank_line(line: &str) -> (r: bool)
    ensures
        r == is_blank(line@),
{
    let cs = chars_of(line);
    let mut i: usize = 0;
    while i < cs.len()
        invariant
            i <= cs.len(),
            cs@ == line@,
            forall|j: int| 0 <= j < i ==> is_white(#[trigger] line@[j]),
        decreases cs.len() - i,
    {
        if !is_white_char(cs[i]) {
            return false;
        }
        i += 1;
    }
    true
}

/// A line without its final carriage return, if it has one.
pub open spec fn strip_cr(line: Seq<char>) -> Seq<char> {
    if line.len() > 0 && line.last() == '\r' {
        line.drop_last()
    } else {
        line
    }
}

/// The lines of `s[start..]` for a scan that stands at `i`, the current line
/// having begun at `start`.
pub open spec fn lines_from(s: Seq<char>, start: int, i: int) -> Seq<Seq<char>>
    decreases s.len() - i,
{
    if i >= s.len() {
        if start < s.len() {
            seq![s.subrange(start, s.len() as int)]
        } else {
            Seq::empty()
        }
    } else if s[i] == '\n' {
        seq![strip_cr(s.subrange(start, i))] + lines_from(s, i + 1, i + 1)
    } else {
        lines_from(s, start, i + 1)
    }
}

/// The lines of `s` as `str::lines` gives them: split at each line feed, a
/// carriage return just before a line feed taken off, and no empty line after a
/// final line feed.
pub open spec fn text_lines(s: Seq<char>) -> Seq<Seq<char>> {
    lines_from(s, 0, 0)
}

pub open spec fn views_of_strings(v: Seq<String>) -> Seq<Seq<char>> {
    v.map_values(|l: String| l@)
}

/// The text of `cs[start..end]`, without a final carriage return when `strip`.
fn line_text(cs: &Vec<char>, start: usize, end: usize, strip: bool) -> (r: String)
    requires
        start <= end <= cs.len(),
    ensures
        r@ == if strip {
            strip_cr(cs@.subrange(start as int, end as int))
        } else {
            cs@.subrange(start as int, end as int)
        },
{
    let mut stop = end;
    if strip && start < end && cs[end - 1] == '\r' {
        stop = end - 1;
    }
    let mut r = String::new();
    let mut k: usize = start;
    while k < stop
        invariant
            start <= k <= stop <= end <= cs.len(),
            r@ == cs@.subrange(start as int, k as int),
        decreases stop - k,
    {
        push_char(&mut r, cs[k]);
        k += 1;
        assert(r@ =~= cs@.subrange(start as int, k as int));
    }
    assert(r@ =~= if strip {
        strip_cr(cs@.subrange(start as int, end as int))
    } else {
        cs@.subrange(start as int, end as int)
    });
    r
}

/// The lines of `s`.
pub fn split_lines(s: &str) -> (r: Vec<String>)
    ensures
        views_of_strings(r@) == text_lines(s@),
{
    let cs = chars_of(s);
    let mut lines: Vec<String> = Vec::new();
    let mut start: usize = 0;
    let mut i: usize = 0;
    while i < cs.len()
        invariant
            start <= i <= cs.len(),
            cs@ == s@,
            views_of_strings(lines@) + lines_from(s@, start as int, i as int) == text_lines(s@),
        decreases cs.len() - i,
    {
        if cs[i] == '\n' {
            let line = line_text(&cs, start, i, true);
            proof {
                assert(views_of_strings(lines@.push(line)) =~= views_of_strings(lines@).push(line@));
                assert(lines_from(s@, start as int, i as int) == seq![line@] + lines_from(s@, i + 1, i + 1));
                assert(views_of_strings(lines@.push(line)) + lines_from(s@, i + 1, i + 1)
                    =~= views_of_strings(lines@) + lines_from(s@, start as int, i as int));
            }
            lines.push(line);
            start = i + 1;
        }
        i += 1;
    }
    if start < cs.len() {
        let line = line_text(&cs, start, cs.len(), false);
        proof {
            assert(views_of_strings(lines@.push(line)) =~= views_of_strings(lines@).push(line@));
            assert(views_of_strings(lines@.push(line)) =~= views_of_strings(lines@) + lines_from(s@, start as int, i as int));
        }
        lines.push(line);
    } else {
        assert(views_of_strings(lines@) =~= views_of_strings(lines@) + lines_from(s@, start as int, i as int));
    }
    lines
}

} // verus!
