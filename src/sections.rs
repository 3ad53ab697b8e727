//! The delimited-section text format: `[[ ## name ## ]]` header lines, each
//! opening a section that runs to the next header.

use vstd::prelude::*;
use crate::json::str_eq;
use crate::text::{trim, trimmed, lines, lines_of, join, joined, views};

verus! {

/// A character of a header's name: an ASCII letter or digit, or `_`.
pub open spec fn is_word_char(c: char) -> bool {
    ('a' <= c && c <= 'z') || ('A' <= c && c <= 'Z') || ('0' <= c && c <= '9') || c == '_'
}

/// The end of the run of name characters that starts at `j`.
pub open spec fn word_end(s: Seq<char>, j: int) -> int
    decreases s.len() - j,
{
    if j < 0 || j >= s.len() || !is_word_char(s[j]) {
        j
    } else {
        word_end(s, j + 1)
    }
}

/// `[[ ## ` at `i`.
pub open spec fn opens_at(s: Seq<char>, i: int) -> bool {
    0 <= i && i + 6 <= s.len() && s[i] == '[' && s[i + 1] == '[' && s[i + 2] == ' ' && s[i + 3] == '#'
        && s[i + 4] == '#' && s[i + 5] == ' '
}

/// ` ## ]]` at `i`.
pub open spec fn closes_at(s: Seq<char>, i: int) -> bool {
    0 <= i && i + 6 <= s.len() && s[i] == ' ' && s[i + 1] == '#' && s[i + 2] == '#' && s[i + 3] == ' '
        && s[i + 4] == ']' && s[i + 5] == ']'
}

/// A header `[[ ## name ## ]]` starts at `i`.
pub open spec fn header_at(s: Seq<char>, i: int) -> bool {
    opens_at(s, i) && word_end(s, i + 6) > i + 6 && closes_at(s, word_end(s, i + 6))
}

/// The first position at or after `i` where a header starts.
pub open spec fn first_header(s: Seq<char>, i: int) -> Option<int>
    decreases s.len() - i,
{
    if i < 0 || i >= s.len() {
        None
    } else if header_at(s, i) {
        Some(i)
    } else {
        first_header(s, i + 1)
    }
}

/// The name of the first header in a line and the trimmed text after it.
pub open spec fn line_header(line: Seq<char>) -> Option<(Seq<char>, Seq<char>)> {
    let t = trimmed(line);
    match first_header(t, 0) {
        Some(i) => {
            let w = word_end(t, i + 6);
            Some((t.subrange(i + 6, w), trimmed(t.subrange(w + 6, t.len() as int))))
        },
        None => None,
    }
}

pub fn is_word_char_exec(c: char) -> (r: bool)
    ensures
        r == is_word_char(c),
{
    ('a' <= c && c <= 'z') || ('A' <= c && c <= 'Z') || ('0' <= c && c <= '9') || c == '_'
}

fn chars_of(s: &str) -> (r: Vec<char>)
    ensures
        r@ == s@,
{
    let n = s.unicode_len();
    let mut out: Vec<char> = Vec::new();
    let mut i: usize = 0;
    while i < n
        invariant
            n == s@.len(),
            i <= n,
            out@ == s@.subrange(0, i as int),
        decreases n - i,
    {
        out.push(s.get_char(i));
        assert(s@.subrange(0, i + 1) == s@.subrange(0, i as int).push(s@[i as int]));
        i = i + 1;
    }
    assert(s@.subrange(0, n as int) == s@);
    out
}

fn word_end_exec(s: &Vec<char>, j: usize) -> (r: usize)
    requires
        j <= s@.len(),
    ensures
        r as int == word_end(s@, j as int),
        j <= r <= s@.len(),
{
    let mut k = j;
    while k < s.len() && is_word_char_exec(s[k])
        invariant
            j <= k <= s@.len(),
            word_end(s@, j as int) == word_end(s@, k as int),
        decreases s@.len() - k,
    {
        k = k + 1;
    }
    k
}

fn opens_at_exec(s: &Vec<char>, i: usize) -> (r: bool)
    ensures
        r == opens_at(s@, i as int),
{
    i <= s.len() && s.len() - i >= 6 && s[i] == '[' && s[i + 1] == '[' && s[i + 2] == ' ' && s[i + 3] == '#'
        && s[i + 4] == '#' && s[i + 5] == ' '
}

fn closes_at_exec(s: &Vec<char>, i: usize) -> (r: bool)
    ensures
        r == closes_at(s@, i as int),
{
    i <= s.len() && s.len() - i >= 6 && s[i] == ' ' && s[i + 1] == '#' && s[i + 2] == '#' && s[i + 3] == ' '
        && s[i + 4] == ']' && s[i + 5] == ']'
}

/// Finds the first header of a line: its name and the trimmed text after it.
pub fn parse_header_line(line: &str) -> (r: Option<(String, String)>)
    ensures
        r matches Some(p) ==> line_header(line@) == Some((p.0@, p.1@)),
        r is None ==> line_header(line@) is None,
{
    let t = trim(line);
    let cs = chars_of(t);
    let n = cs.len();
    let mut i: usize = 0;
    while i < n
        invariant
            n == cs@.len(),
            cs@ == t@,
            t@ == trimmed(line@),
            i <= n,
            first_header(cs@, 0) == first_header(cs@, i as int),
        decreases n - i,
    {
        if opens_at_exec(&cs, i) {
            let w = word_end_exec(&cs, i + 6);
            if w > i + 6 && closes_at_exec(&cs, w) {
                assert(header_at(cs@, i as int));
                assert(first_header(cs@, i as int) == Some(i as int));
                assert(first_header(t@, 0) == Some(i as int));
                let name = t.substring_char(i + 6, w);
                let rest = trim(t.substring_char(w + 6, n));
                return Some((String::from_str(name), String::from_str(rest)));
            }
        }
        i = i + 1;
    }
    None
}

/// Where a section parse stands after some lines: the sections closed so
/// far, and the name and lines of the open one.
pub struct SectionState {
    pub entries: Seq<(Seq<char>, Seq<char>)>,
    pub key: Option<Seq<char>>,
    pub buf: Seq<Seq<char>>,
}

/// `entries` with `key` bound to `value`: a key already present keeps its
/// place and takes the new value; a new key goes last.
pub open spec fn insert_entry(entries: Seq<(Seq<char>, Seq<char>)>, key: Seq<char>, value: Seq<char>) -> Seq<(Seq<char>, Seq<char>)>
    decreases entries.len(),
{
    if entries.len() == 0 {
        seq![(key, value)]
    } else if entries[0].0 == key {
        seq![(key, value)] + entries.drop_first()
    } else {
        seq![entries[0]] + insert_entry(entries.drop_first(), key, value)
    }
}

/// The text of a section: its lines joined by newlines, then trimmed.
pub open spec fn section_text(buf: Seq<Seq<char>>) -> Seq<char> {
    trimmed(joined(buf, "\n"@))
}

/// The sections of a state once the open one is closed; lines before the
/// first header belong to no section and are dropped.
pub open spec fn close_section(st: SectionState) -> Seq<(Seq<char>, Seq<char>)> {
    match st.key {
        Some(k) => insert_entry(st.entries, k, section_text(st.buf)),
        None => st.entries,
    }
}

/// One line: a header line closes the open section and opens its own, with
/// the text after the header as its first line; another line goes to the
/// open section.
pub open spec fn section_step(st: SectionState, line: Seq<char>) -> SectionState {
    match line_header(line) {
        Some((name, rest)) => SectionState {
            entries: close_section(st),
            key: Some(name),
            buf: if rest.len() == 0 { seq![] } else { seq![rest] },
        },
        None => SectionState { buf: st.buf.push(line), ..st },
    }
}

pub open spec fn fold_sections(ls: Seq<Seq<char>>) -> SectionState
    decreases ls.len(),
{
    if ls.len() == 0 {
        SectionState { entries: seq![], key: None, buf: seq![] }
    } else {
        section_step(fold_sections(ls.drop_last()), ls.last())
    }
}

/// The sections of a completion, by name, each with its text; of two
/// sections with one name the later one's text stands.
pub open spec fn sections_of(text: Seq<char>) -> Seq<(Seq<char>, Seq<char>)> {
    close_section(fold_sections(lines_of(text)))
}

pub open spec fn pair_views(v: Seq<(String, String)>) -> Seq<(Seq<char>, Seq<char>)> {
    v.map_values(|p: (String, String)| (p.0@, p.1@))
}

fn insert_entry_exec(entries: &mut Vec<(String, String)>, key: String, value: String)
    ensures
        pair_views(final(entries)@) == insert_entry(pair_views(old(entries)@), key@, value@),
{
    let ghost es = pair_views(entries@);
    let mut i: usize = 0;
    assert(es.skip(0) == es);
    assert(es.subrange(0, 0) + insert_entry(es.skip(0), key@, value@) =~= insert_entry(es, key@, value@));
    while i < entries.len()
        invariant
            i <= entries@.len(),
            es == pair_views(entries@),
            es == pair_views(old(entries)@),
            insert_entry(es, key@, value@) == es.subrange(0, i as int) + insert_entry(es.skip(i as int), key@, value@),
        decreases entries@.len() - i,
    {
        assert(es.skip(i as int)[0] == es[i as int]);
        assert(es.skip(i as int).drop_first() == es.skip(i + 1));
        if str_eq(entries[i].0.as_str(), key.as_str()) {
            let ghost kv = (key@, value@);
            assert(insert_entry(es.skip(i as int), key@, value@) == seq![kv] + es.skip(i + 1));
            entries.set(i, (key, value));
            assert(pair_views(entries@) =~= es.update(i as int, kv));
            assert(es.update(i as int, kv) =~= es.subrange(0, i as int) + (seq![kv] + es.skip(i + 1)));
            assert(pair_views(entries@) =~= es.subrange(0, i as int) + insert_entry(es.skip(i as int), key@, value@));
            return;
        }
        assert(es.subrange(0, i + 1) == es.subrange(0, i as int).push(es[i as int]));
        assert(insert_entry(es.skip(i as int), key@, value@) == seq![es[i as int]] + insert_entry(es.skip(i + 1), key@, value@));
        assert(es.subrange(0, i as int) + insert_entry(es.skip(i as int), key@, value@) =~= es.subrange(0, i + 1) + insert_entry(es.skip(i + 1), key@, value@));
        i = i + 1;
    }
    assert(es.subrange(0, i as int) == es);
    entries.push((key, value));
    assert(pair_views(entries@) =~= es + seq![(key@, value@)]);
}

/// Splits a completion into its named sections.
pub fn parse_sections(completion: &str) -> (r: Vec<(String, String)>)
    ensures
        pair_views(r@) == sections_of(completion@),
{
    let ls = lines(completion);
    let mut entries: Vec<(String, String)> = Vec::new();
    let mut key: Option<String> = None;
    let mut buf: Vec<String> = Vec::new();
    let mut i: usize = 0;
    assert(views(ls@).subrange(0, 0) =~= Seq::<Seq<char>>::empty());
    assert(pair_views(entries@) =~= Seq::<(Seq<char>, Seq<char>)>::empty());
    assert(views(buf@) =~= Seq::<Seq<char>>::empty());
    while i < ls.len()
        invariant
            i <= ls@.len(),
            views(ls@) == lines_of(completion@),
            fold_sections(views(ls@).subrange(0, i as int)) == (SectionState {
                entries: pair_views(entries@),
                key: match key { Some(k) => Some(k@), None => None },
                buf: views(buf@),
            }),
        decreases ls@.len() - i,
    {
        assert(views(ls@).subrange(0, i + 1).drop_last() == views(ls@).subrange(0, i as int));
        assert(views(ls@).subrange(0, i + 1).last() == ls@[i as int]@);
        match parse_header_line(ls[i].as_str()) {
            Some((name, rest)) => {
                if let Some(k) = key {
                    let joined_text = join(&buf, "\n");
                    let text = trim(joined_text.as_str());
                    insert_entry_exec(&mut entries, k, String::from_str(text));
                }
                key = Some(name);
                buf = Vec::new();
                if rest.unicode_len() > 0 {
                    buf.push(rest);
                }
                assert(views(buf@) =~= (if rest@.len() == 0 { Seq::<Seq<char>>::empty() } else { seq![rest@] }));
            },
            None => {
                let ghost before = buf@;
                buf.push(ls[i].clone());
                assert(views(buf@) =~= views(before).push(ls@[i as int]@));
            },
        }
        i = i + 1;
    }
    assert(views(ls@).subrange(0, ls@.len() as int) == views(ls@));
    if let Some(k) = key {
        let joined_text = join(&buf, "\n");
                    let text = trim(joined_text.as_str());
        insert_entry_exec(&mut entries, k, String::from_str(text));
    }
    entries
}

} // verus!
