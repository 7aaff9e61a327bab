//! Text helpers: decimal numerals, and splitting a text into lines and
//! joining lines again.

use vstd::prelude::*;

verus! {

/// `String::push` of std appends one char to the end of the string.
pub assume_specification[ String::push ](s: &mut String, ch: char)
    ensures
        final(s)@ == old(s)@.push(ch),
;

/// The char that writes the digit `d`, for `0 <= d <= 9`.
pub open spec fn digit_char(d: int) -> char {
    if d == 0 {
        '0'
    } else if d == 1 {
        '1'
    } else if d == 2 {
        '2'
    } else if d == 3 {
        '3'
    } else if d == 4 {
        '4'
    } else if d == 5 {
        '5'
    } else if d == 6 {
        '6'
    } else if d == 7 {
        '7'
    } else if d == 8 {
        '8'
    } else {
        '9'
    }
}

/// The decimal digits of `n`, most significant first, without leading zeros.
pub open spec fn decimal_digits(n: nat) -> Seq<char>
    decreases n,
{
    if n < 10 {
        seq![digit_char(n as int)]
    } else {
        decimal_digits(n / 10).push(digit_char((n % 10) as int))
    }
}

/// The decimal numeral of `n`: a minus sign, if `n` is negative, and the
/// digits of its magnitude.
pub open spec fn decimal(n: int) -> Seq<char> {
    if n < 0 {
        seq!['-'] + decimal_digits((-n) as nat)
    } else {
        decimal_digits(n as nat)
    }
}

fn digit_to_char(d: u8) -> (c: char)
    requires
        d <= 9,
    ensures
        c == digit_char(d as int),
{
    if d == 0 {
        '0'
    } else if d == 1 {
        '1'
    } else if d == 2 {
        '2'
    } else if d == 3 {
        '3'
    } else if d == 4 {
        '4'
    } else if d == 5 {
        '5'
    } else if d == 6 {
        '6'
    } else if d == 7 {
        '7'
    } else if d == 8 {
        '8'
    } else {
        '9'
    }
}

/// Writes `n` as a decimal numeral.
pub fn to_decimal(n: i128) -> (r: String)
    ensures
        r@ == decimal(n as int),
{
    let mut r = String::new();
    let mut m: u128 = if n < 0 {
        r.push('-');
        ((-(n + 1)) as u128) + 1
    } else {
        n as u128
    };
    let ghost sign = r@;
    let ghost magnitude = m as nat;
    // The digits from the least significant one up.
    let mut low: Vec<char> = Vec::new();
    while m >= 10
        invariant
            decimal_digits(magnitude) == decimal_digits(m as nat) + low@.reverse(),
        decreases m,
    {
        let d = digit_to_char((m % 10) as u8);
        proof {
            let rest = low@.reverse();
            assert(low@.push(d).reverse() =~= seq![d] + rest);
            assert(decimal_digits(m as nat) + rest =~= decimal_digits((m / 10) as nat) + (seq![d]
                + rest));
        }
        low.push(d);
        m = m / 10;
    }
    let first = digit_to_char(m as u8);
    r.push(first);
    let mut i: usize = low.len();
    while i > 0
        invariant
            i <= low.len(),
            r@ == sign + seq![first] + low@.reverse().take(low.len() - i),
        decreases i,
    {
        i = i - 1;
        proof {
            let rev = low@.reverse();
            let k = low.len() - i - 1;
            assert(rev[k] == low@[i as int]);
            assert(rev.take(k + 1) =~= rev.take(k).push(rev[k]));
        }
        r.push(low[i]);
    }
    proof {
        let rev = low@.reverse();
        assert(rev.take(low.len() as int) =~= rev);
        assert(decimal_digits(m as nat) =~= seq![first]);
        assert(r@ =~= sign + decimal_digits(magnitude));
    }
    r
}

/// The index of the first line feed of `s` at or after `from`, or the length
/// of `s` where there is none.
pub open spec fn line_end(s: Seq<char>, from: int) -> int
    decreases s.len() - from,
{
    if from < 0 || from >= s.len() {
        s.len() as int
    } else if s[from] == '\n' {
        from
    } else {
        line_end(s, from + 1)
    }
}

/// `line` without the carriage return at its end, if it has one.
pub open spec fn strip_cr(line: Seq<char>) -> Seq<char> {
    if line.len() > 0 && line.last() == '\r' {
        line.drop_last()
    } else {
        line
    }
}

/// The lines of `s` that start at or after `from`, where `from` is the
/// start of a line.
pub open spec fn lines_from(s: Seq<char>, from: int) -> Seq<Seq<char>>
    decreases s.len() - from,
{
    if from < 0 || from >= s.len() {
        seq![]
    } else {
        let end = line_end(s, from);
        if from <= end < s.len() {
            seq![strip_cr(s.subrange(from, end))] + lines_from(s, end + 1)
        } else {
            seq![s.subrange(from, s.len() as int)]
        }
    }
}

/// The lines of `s`. A line ends with a line feed, or with a carriage
/// return and a line feed; neither belongs to the line. The last line needs
/// no ending: a text that ends with a line ending has the same lines as the
/// text without it. A carriage return that no line feed follows is part of
/// its line.
pub open spec fn lines_of(s: Seq<char>) -> Seq<Seq<char>> {
    lines_from(s, 0)
}

/// The lines `ls` in one text, with `sep` between each two.
pub open spec fn joined(ls: Seq<Seq<char>>, sep: Seq<char>) -> Seq<char>
    decreases ls.len(),
{
    if ls.len() == 0 {
        seq![]
    } else if ls.len() == 1 {
        ls[0]
    } else {
        joined(ls.drop_last(), sep) + sep + ls.last()
    }
}

/// `line_end` lies between `from` and the end of the text, at a line feed
/// unless it is the end, and no line feed lies before it.
pub proof fn lemma_line_end(s: Seq<char>, from: int)
    requires
        0 <= from <= s.len(),
    ensures
        from <= line_end(s, from) <= s.len(),
        line_end(s, from) < s.len() ==> s[line_end(s, from)] == '\n',
        forall|i: int| from <= i < line_end(s, from) ==> s[i] != '\n',
    decreases s.len() - from,
{
    if from < s.len() && s[from] != '\n' {
        lemma_line_end(s, from + 1);
    }
}

/// The chars of `s`, one by one.
pub fn to_chars(s: &str) -> (v: Vec<char>)
    ensures
        v@ == s@,
{
    let mut v: Vec<char> = Vec::new();
    let chars = s.chars();
    for c in it: chars
        invariant
            it.seq() == s@,
            v@ == s@.take(it.index() as int),
    {
        v.push(c);
    }
    v
}

/// The text made of the chars of `v` from `from` up to `to`.
pub fn substring(v: &Vec<char>, from: usize, to: usize) -> (r: String)
    requires
        from <= to <= v.len(),
    ensures
        r@ == v@.subrange(from as int, to as int),
{
    let mut r = String::new();
    let mut i: usize = from;
    while i < to
        invariant
            from <= i <= to <= v.len(),
            r@ == v@.subrange(from as int, i as int),
        decreases to - i,
    {
        proof {
            assert(v@.subrange(from as int, i + 1) =~= v@.subrange(from as int, i as int).push(
                v@[i as int],
            ));
        }
        r.push(v[i]);
        i = i + 1;
    }
    r
}

fn find_line_end(v: &Vec<char>, from: usize) -> (end: usize)
    requires
        from <= v.len(),
    ensures
        end == line_end(v@, from as int),
        from <= end <= v.len(),
{
    let mut i: usize = from;
    while i < v.len() && v[i] != '\n'
        invariant
            from <= i <= v.len(),
            line_end(v@, from as int) == line_end(v@, i as int),
        decreases v.len() - i,
    {
        i = i + 1;
    }
    i
}

/// Splits `s` into its lines.
pub fn split_lines(s: &str) -> (ls: Vec<String>)
    ensures
        ls.deep_view() == lines_of(s@),
{
    let v = to_chars(s);
    let mut ls: Vec<String> = Vec::new();
    let mut start: usize = 0;
    while start < v.len()
        invariant
            start <= v.len(),
            v@ == s@,
            lines_of(s@) == ls.deep_view() + lines_from(s@, start as int),
        decreases v.len() - start,
    {
        let end = find_line_end(&v, start);
        let ghost before = ls.deep_view();
        if end == v.len() {
            let line = substring(&v, start, end);
            ls.push(line);
            proof {
                assert(ls.deep_view() =~= before.push(line@));
                assert(before + lines_from(s@, start as int) =~= before.push(line@)
                    + lines_from(s@, end as int));
            }
            start = end;
        } else {
            let stop = if end > start && v[end - 1] == '\r' {
                end - 1
            } else {
                end
            };
            let line = substring(&v, start, stop);
            ls.push(line);
            proof {
                let whole = s@.subrange(start as int, end as int);
                if end > start && v[end - 1] == '\r' {
                    assert(whole.drop_last() =~= s@.subrange(start as int, stop as int));
                }
                assert(line@ == strip_cr(whole));
                assert(ls.deep_view() =~= before.push(line@));
                assert(before + lines_from(s@, start as int) =~= before.push(line@)
                    + lines_from(s@, end + 1));
            }
            start = end + 1;
        }
    }
    proof {
        assert(ls.deep_view() + lines_from(s@, start as int) =~= ls.deep_view());
    }
    ls
}

/// Joins the lines of `ls` from index `from` on, with a line feed between
/// each two.
pub fn join_lines(ls: &Vec<String>, from: usize) -> (r: String)
    requires
        from <= ls.len(),
    ensures
        r@ == joined(ls.deep_view().skip(from as int), seq!['\n']),
{
    let mut r = String::new();
    let mut i: usize = from;
    let ghost rest = ls.deep_view().skip(from as int);
    while i < ls.len()
        invariant
            from <= i <= ls.len(),
            rest == ls.deep_view().skip(from as int),
            r@ == joined(rest.take(i - from), seq!['\n']),
        decreases ls.len() - i,
    {
        proof {
            let taken = rest.take(i - from + 1);
            assert(taken.drop_last() =~= rest.take(i - from));
            assert(taken.last() == ls@[i as int]@);
        }
        if i > from {
            r.push('\n');
        }
        r.append(ls[i].as_str());
        proof {
            let taken = rest.take(i - from + 1);
            let sep = seq!['\n'];
            if i > from {
                assert(r@ =~= joined(taken.drop_last(), sep) + sep + taken.last());
            } else {
                assert(r@ =~= taken[0]);
            }
        }
        i = i + 1;
    }
    proof {
        assert(rest.take(ls.len() - from) =~= rest);
    }
    r
}

/// From `start` on, `s` is made of plain lines: no carriage return stands
/// before a line feed, and the last char is no line feed.
pub open spec fn plain_from(s: Seq<char>, start: int) -> bool {
    &&& forall|i: int| start <= i < s.len() - 1 && #[trigger] s[i] == '\r' ==> s[i + 1] != '\n'
    &&& start < s.len() ==> s.last() != '\n'
}

/// Joining a first line and further lines: the first line, and before each
/// further line the separator.
pub proof fn lemma_joined_first(first: Seq<char>, rest: Seq<Seq<char>>, sep: Seq<char>)
    ensures
        joined(seq![first] + rest, sep) == if rest.len() == 0 {
            first
        } else {
            first + sep + joined(rest, sep)
        },
    decreases rest.len(),
{
    let all = seq![first] + rest;
    if rest.len() == 0 {
        assert(all =~= seq![first]);
    } else if rest.len() == 1 {
        assert(all.drop_last() =~= seq![first]);
        assert(joined(all.drop_last(), sep) == first);
    } else {
        lemma_joined_first(first, rest.drop_last(), sep);
        assert(all.drop_last() =~= seq![first] + rest.drop_last());
        assert(all.last() == rest.last());
        assert(joined(all, sep) =~= first + sep + joined(rest, sep));
    }
}

/// Splitting a text of plain lines and joining the lines with line feeds
/// gives the text again, from the start of any of its lines on.
pub proof fn lemma_join_plain_lines(s: Seq<char>, start: int, from: int)
    requires
        plain_from(s, start),
        0 <= start <= from <= s.len(),
    ensures
        joined(lines_from(s, from), seq!['\n']) == s.skip(from),
        from < s.len() ==> lines_from(s, from).len() > 0,
    decreases s.len() - from,
{
    let sep = seq!['\n'];
    if from < s.len() {
        lemma_line_end(s, from);
        let end = line_end(s, from);
        if end < s.len() {
            let line = s.subrange(from, end);
            assert(strip_cr(line) == line) by {
                if line.len() > 0 && line.last() == '\r' {
                    assert(s[end - 1] == '\r');
                }
            }
            let rest = lines_from(s, end + 1);
            lemma_join_plain_lines(s, start, end + 1);
            lemma_joined_first(line, rest, sep);
            assert(line + sep + s.skip(end + 1) =~= s.skip(from));
        } else {
            assert(s.subrange(from, s.len() as int) =~= s.skip(from));
        }
    } else {
        assert(s.skip(from) =~= Seq::<char>::empty());
    }
}

} // verus!
