//! Text primitives over character sequences: trimming, splitting into lines
//! and joining.

use vstd::prelude::*;

verus! {

/// Unicode `White_Space`, the set that `str::trim` strips.
pub open spec fn is_white(c: char) -> bool {
    ||| ('\u{9}' <= c && c <= '\u{d}')
    ||| c == ' '
    ||| c == '\u{85}'
    ||| c == '\u{a0}'
    ||| c == '\u{1680}'
    ||| ('\u{2000}' <= c && c <= '\u{200a}')
    ||| c == '\u{2028}'
    ||| c == '\u{2029}'
    ||| c == '\u{202f}'
    ||| c == '\u{205f}'
    ||| c == '\u{3000}'
}

pub fn char_is_white(c: char) -> (r: bool)
    ensures
        r == is_white(c),
{
    ('\u{9}' <= c && c <= '\u{d}') || c == ' ' || c == '\u{85}' || c == '\u{a0}' || c == '\u{1680}'
        || ('\u{2000}' <= c && c <= '\u{200a}') || c == '\u{2028}' || c == '\u{2029}'
        || c == '\u{202f}' || c == '\u{205f}' || c == '\u{3000}'
}

pub open spec fn trim_start(s: Seq<char>) -> Seq<char>
    decreases s.len(),
{
    if s.len() > 0 && is_white(s[0]) {
        trim_start(s.drop_first())
    } else {
        s
    }
}

pub open spec fn trim_end(s: Seq<char>) -> Seq<char>
    decreases s.len(),
{
    if s.len() > 0 && is_white(s.last()) {
        trim_end(s.drop_last())
    } else {
        s
    }
}

/// The text without leading and trailing white space.
pub open spec fn trimmed(s: Seq<char>) -> Seq<char> {
    trim_end(trim_start(s))
}

/// Strips leading and trailing white space.
pub fn trim(s: &str) -> (r: &str)
    ensures
        r@ == trimmed(s@),
{
    let n = s.unicode_len();
    let mut a: usize = 0;
    assert(s@.subrange(0, n as int) == s@);
    while a < n && char_is_white(s.get_char(a))
        invariant
            n == s@.len(),
            a <= n,
            trim_start(s@) == trim_start(s@.subrange(a as int, n as int)),
        decreases n - a,
    {
        assert(s@.subrange(a as int, n as int).drop_first() == s@.subrange(a + 1, n as int));
        a = a + 1;
    }
    assert(trim_start(s@) == s@.subrange(a as int, n as int));
    let mut b: usize = n;
    while b > a && char_is_white(s.get_char(b - 1))
        invariant
            n == s@.len(),
            a <= b <= n,
            trim_end(s@.subrange(a as int, n as int)) == trim_end(s@.subrange(a as int, b as int)),
        decreases b,
    {
        assert(s@.subrange(a as int, b as int).drop_last() == s@.subrange(a as int, b - 1));
        b = b - 1;
    }
    s.substring_char(a, b)
}

/// The views of a sequence of strings.
pub open spec fn views(v: Seq<String>) -> Seq<Seq<char>> {
    v.map_values(|x: String| x@)
}

/// The line ending that `str::lines` drops: `\n`, together with a `\r` just
/// before it.
pub open spec fn strip_cr(line: Seq<char>) -> Seq<char> {
    if line.len() > 0 && line.last() == '\r' {
        line.drop_last()
    } else {
        line
    }
}

/// The pieces between `\n` characters, as `str::split('\n')` gives them.
pub open spec fn split_nl(s: Seq<char>) -> Seq<Seq<char>>
    decreases s.len(),
{
    if s.len() == 0 {
        seq![seq![]]
    } else if s.last() == '\n' {
        split_nl(s.drop_last()).push(seq![])
    } else {
        let p = split_nl(s.drop_last());
        p.update(p.len() - 1, p.last().push(s.last()))
    }
}

/// The lines of a text, split as `str::lines` splits them: at each `\n`,
/// with a `\r` just before it dropped, and no empty line after a final `\n`.
pub open spec fn lines_of(s: Seq<char>) -> Seq<Seq<char>> {
    let p = split_nl(s);
    p.drop_last().map_values(|l: Seq<char>| strip_cr(l)) + if p.last().len() == 0 {
        Seq::<Seq<char>>::empty()
    } else {
        seq![p.last()]
    }
}

pub proof fn lemma_split_nl_nonempty(s: Seq<char>)
    ensures
        split_nl(s).len() >= 1,
    decreases s.len(),
{
    if s.len() > 0 {
        lemma_split_nl_nonempty(s.drop_last());
    }
}

/// Splits a text into lines.
pub fn lines(s: &str) -> (r: Vec<String>)
    ensures
        views(r@) == lines_of(s@),
{
    let n = s.unicode_len();
    let mut out: Vec<String> = Vec::new();
    let mut start: usize = 0;
    let mut i: usize = 0;
    proof {
        lemma_split_nl_nonempty(s@.subrange(0, 0));
    }
    while i < n
        invariant
            n == s@.len(),
            start <= i <= n,
            split_nl(s@.subrange(0, i as int)).len() >= 1,
            views(out@) == split_nl(s@.subrange(0, i as int)).drop_last().map_values(
                |l: Seq<char>| strip_cr(l),
            ),
            split_nl(s@.subrange(0, i as int)).last() == s@.subrange(start as int, i as int),
        decreases n - i,
    {
        let c = s.get_char(i);
        let ghost prev = s@.subrange(0, i as int);
        assert(s@.subrange(0, i + 1).drop_last() == prev);
        if c == '\n' {
            let line: &str = if i > start && s.get_char(i - 1) == '\r' {
                assert(s@.subrange(start as int, i as int).last() == s@[i - 1]);
                assert(s@.subrange(start as int, i as int).drop_last() == s@.subrange(
                    start as int,
                    i - 1,
                ));
                s.substring_char(start, i - 1)
            } else {
                s.substring_char(start, i)
            };
            let ghost seg = s@.subrange(start as int, i as int);
            assert(line@ == strip_cr(seg));
            assert(s@.subrange(0, i + 1).last() == '\n');
            assert(split_nl(s@.subrange(0, i + 1)) == split_nl(prev).push(seq![]));
            assert(split_nl(prev) =~= split_nl(prev).drop_last().push(seg));
            let ghost old_out = out@;
            out.push(String::from_str(line));
            assert(views(out@) =~= views(old_out).push(line@));
            start = i + 1;
            assert(views(out@) =~= split_nl(s@.subrange(0, i + 1)).drop_last().map_values(
                |l: Seq<char>| strip_cr(l),
            ));
        } else {
            assert(s@.subrange(start as int, i + 1) == s@.subrange(start as int, i as int).push(c));
            assert(views(out@) =~= split_nl(s@.subrange(0, i + 1)).drop_last().map_values(
                |l: Seq<char>| strip_cr(l),
            ));
        }
        i = i + 1;
    }
    assert(s@.subrange(0, n as int) == s@);
    if start < n {
        out.push(String::from_str(s.substring_char(start, n)));
    }
    assert(views(out@) =~= lines_of(s@));
    out
}

/// `parts` with `sep` between each two of them.
pub open spec fn joined(parts: Seq<Seq<char>>, sep: Seq<char>) -> Seq<char>
    decreases parts.len(),
{
    if parts.len() == 0 {
        seq![]
    } else if parts.len() == 1 {
        parts[0]
    } else {
        joined(parts.drop_last(), sep) + sep + parts.last()
    }
}

/// Joins texts with a separator between each two of them.
pub fn join(parts: &Vec<String>, sep: &str) -> (r: String)
    ensures
        r@ == joined(views(parts@), sep@),
{
    let mut out = String::new();
    let mut i: usize = 0;
    while i < parts.len()
        invariant
            i <= parts@.len(),
            out@ == joined(views(parts@.subrange(0, i as int)), sep@),
        decreases parts@.len() - i,
    {
        if i > 0 {
            out.append(sep);
        }
        out.append(parts[i].as_str());
        assert(views(parts@.subrange(0, i + 1)).drop_last() =~= views(parts@.subrange(0, i as int)));
        i = i + 1;
    }
    assert(parts@.subrange(0, parts@.len() as int) == parts@);
    out
}

} // verus!
