//! The delimited format read back: what the writer of an answer produces,
//! the section parser takes apart again.

use vstd::prelude::*;
use crate::text::{is_white, trim_start, trim_end, trimmed, split_nl, lines_of, strip_cr, joined, lemma_split_nl_nonempty};
use crate::sections::{
    is_word_char, word_end, opens_at, closes_at, header_at, first_header, line_header, SectionState, section_step,
    fold_sections, close_section, insert_entry, section_text, sections_of,
};
use crate::render::{header, present_parts, value_text};
use crate::json::{JsonValue, json_parse, spec_get, entries_get};
use crate::schema::FieldSpec;
use crate::adapters::{Adapter, ChatAdapter, ParseError, without_completed, record_of_sections, section_value};

verus! {

proof fn lemma_split_nl_concat(a: Seq<char>, b: Seq<char>)
    ensures
        split_nl(a + seq!['\n'] + b) == split_nl(a) + split_nl(b),
    decreases b.len(),
{
    lemma_split_nl_nonempty(a);
    let t = a + seq!['\n'] + b;
    if b.len() == 0 {
        assert(t.drop_last() =~= a);
        assert(split_nl(b) == seq![Seq::<char>::empty()]);
        assert(split_nl(t) =~= split_nl(a) + split_nl(b));
    } else {
        assert(t.drop_last() =~= a + seq!['\n'] + b.drop_last());
        assert(t.last() == b.last());
        lemma_split_nl_concat(a, b.drop_last());
        lemma_split_nl_nonempty(b.drop_last());
        assert(split_nl(t) =~= split_nl(a) + split_nl(b));
    }
}

proof fn lemma_split_nl_single(a: Seq<char>)
    requires
        forall|i: int| 0 <= i < a.len() ==> a[i] != '\n',
    ensures
        split_nl(a) == seq![a],
    decreases a.len(),
{
    if a.len() > 0 {
        lemma_split_nl_single(a.drop_last());
        assert(a.drop_last().push(a.last()) =~= a);
        assert(seq![a.drop_last()].update(0, a) =~= seq![a]);
    } else {
        assert(a =~= Seq::<char>::empty());
    }
}

proof fn lemma_word_end(s: Seq<char>, j: int, e: int)
    requires
        0 <= j <= e <= s.len(),
        forall|i: int| j <= i < e ==> is_word_char(s[i]),
        e == s.len() || !is_word_char(s[e]),
    ensures
        word_end(s, j) == e,
    decreases e - j,
{
    if j < e {
        lemma_word_end(s, j + 1, e);
    }
}

/// A name: one or more letters, digits or underscores.
pub open spec fn is_name(k: Seq<char>) -> bool {
    k.len() > 0 && forall|i: int| 0 <= i < k.len() ==> is_word_char(k[i])
}

proof fn lemma_header_line(k: Seq<char>)
    requires
        is_name(k),
    ensures
        line_header(header(k)) == Some((k, Seq::<char>::empty())),
        !header(k).contains('\n'),
        header(k).len() > 0,
        header(k).last() == ']',
{
    reveal_strlit("[[ ## ");
    reveal_strlit(" ## ]]");
    let h = header(k);
    let n = k.len() as int;
    assert(h.len() == n + 12);
    assert(h[0] == '[' && h[1] == '[' && h[2] == ' ' && h[3] == '#' && h[4] == '#' && h[5] == ' ');
    assert(h[n + 6] == ' ' && h[n + 7] == '#' && h[n + 8] == '#' && h[n + 9] == ' ' && h[n + 10] == ']' && h[n + 11] == ']');
    assert forall|i: int| 0 <= i < n implies h[6 + i] == k[i] by {}
    assert(trim_start(h) == h);
    assert(trim_end(h) == h);
    lemma_word_end(h, 6, 6 + n);
    assert(opens_at(h, 0));
    assert(closes_at(h, 6 + n));
    assert(header_at(h, 0));
    assert(first_header(h, 0) == Some(0int));
    assert(h.subrange(6, 6 + n) =~= k);
    assert(h.subrange(6 + n + 6, h.len() as int) =~= Seq::<char>::empty());
    assert(trimmed(Seq::<char>::empty()) == Seq::<char>::empty());
    assert(!h.contains('\n')) by {
        if h.contains('\n') {
            let i = choose|i: int| 0 <= i < h.len() && h[i] == '\n';
            if 6 <= i < 6 + n {
                assert(is_word_char(k[i - 6]));
            }
        }
    }
}

/// The sections of one field's section followed by the completion marker.
proof fn lemma_one_section(k: Seq<char>, v: Seq<char>)
    requires
        is_name(k),
        k != "completed"@,
        v.len() > 0,
        !v.contains('\n'),
        !is_white(v[0]),
        !is_white(v.last()),
        line_header(v) is None,
    ensures
        without_completed(sections_of(header(k) + "\n"@ + v + "\n\n"@ + header("completed"@))) == seq![(k, v)],
{
    reveal_strlit("\n");
    reveal_strlit("\n\n");
    reveal_strlit("completed");
    let c = "completed"@;
    assert(is_name(c)) by {
        assert forall|i: int| 0 <= i < c.len() implies is_word_char(c[i]) by {}
    }
    lemma_header_line(k);
    lemma_header_line(c);
    let h = header(k);
    let hc = header(c);
    let e = Seq::<char>::empty();
    let t = h + "\n"@ + v + "\n\n"@ + hc;
    assert(t =~= h + seq!['\n'] + (v + seq!['\n'] + (e + seq!['\n'] + hc)));
    assert forall|i: int| 0 <= i < h.len() implies h[i] != '\n' by {
        assert(!h.contains('\n'));
    }
    assert forall|i: int| 0 <= i < hc.len() implies hc[i] != '\n' by {
        assert(!hc.contains('\n'));
    }
    assert forall|i: int| 0 <= i < v.len() implies v[i] != '\n' by {}
    lemma_split_nl_single(h);
    lemma_split_nl_single(v);
    lemma_split_nl_single(e);
    lemma_split_nl_single(hc);
    lemma_split_nl_concat(e, hc);
    lemma_split_nl_concat(v, e + seq!['\n'] + hc);
    lemma_split_nl_concat(h, v + seq!['\n'] + (e + seq!['\n'] + hc));
    let p = split_nl(t);
    assert(p =~= seq![h, v, e, hc]);
    assert(strip_cr(h) == h);
    assert(strip_cr(v) == v);
    assert(strip_cr(e) == e);
    let ls = lines_of(t);
    assert(ls =~= seq![h, v, e, hc]);
    assert(ls.drop_last() =~= seq![h, v, e]);
    assert(seq![h, v, e].drop_last() =~= seq![h, v]);
    assert(seq![h, v].drop_last() =~= seq![h]);
    assert(seq![h].drop_last() =~= Seq::<Seq<char>>::empty());
    let init = SectionState { entries: seq![], key: None, buf: seq![] };
    assert(fold_sections(Seq::<Seq<char>>::empty()) == init);
    assert(trimmed(e) == e);
    assert(line_header(e) is None);
    let st1 = fold_sections(seq![h]);
    assert(st1 == SectionState { entries: seq![], key: Some(k), buf: seq![] });
    let st2 = fold_sections(seq![h, v]);
    assert(st2.buf =~= seq![v] && st2.key == Some(k) && st2.entries == Seq::<(Seq<char>, Seq<char>)>::empty());
    let st3 = fold_sections(seq![h, v, e]);
    assert(st3.buf =~= seq![v, e] && st3.key == Some(k) && st3.entries == Seq::<(Seq<char>, Seq<char>)>::empty());
    assert(joined(seq![v, e], "\n"@) =~= v + seq!['\n']) by {
        assert(seq![v, e].drop_last() =~= seq![v]);
    }
    let vn = v + seq!['\n'];
    assert(trim_start(vn) == vn);
    assert(vn.drop_last() =~= v);
    assert(trim_end(v) == v);
    assert(trim_end(vn) == v);
    assert(section_text(seq![v, e]) == v);
    let st4 = fold_sections(ls);
    assert(st4.entries == insert_entry(Seq::<(Seq<char>, Seq<char>)>::empty(), k, v));
    assert(st4.entries =~= seq![(k, v)]);
    assert(st4.key == Some(c));
    let secs = sections_of(t);
    assert(secs == insert_entry(seq![(k, v)], c, section_text(st4.buf)));
    assert(seq![(k, v)].drop_first() =~= Seq::<(Seq<char>, Seq<char>)>::empty());
    assert(insert_entry(seq![(k, v)].drop_first(), c, section_text(st4.buf)) == seq![(c, section_text(st4.buf))]);
    assert(secs =~= seq![(k, v), (c, section_text(st4.buf))]);
    assert(secs.drop_last() =~= seq![(k, v)]);
    assert(seq![(k, v)].drop_last() =~= Seq::<(Seq<char>, Seq<char>)>::empty());
    assert(without_completed(Seq::<(Seq<char>, Seq<char>)>::empty()) == Seq::<(Seq<char>, Seq<char>)>::empty());
    assert(without_completed(seq![(k, v)]) =~= seq![(k, v)]);
    assert(secs.last().0 == "completed"@);
    assert(without_completed(secs) == without_completed(seq![(k, v)]));
}

/// A record of one single-line string field, written as the answer that a
/// completion should give, reads back through the section parser to that
/// record: the same name, and a string with the same text. The text must
/// not be JSON, must have no white space at either end, and must not hold a
/// header.
pub proof fn chat_single_line_string_field_reads_back(
    adapter: ChatAdapter,
    fields: Seq<FieldSpec>,
    outputs: JsonValue,
    key: String,
    value: String,
)
    requires
        fields.len() == 1,
        fields[0].name == key@,
        outputs matches JsonValue::Object(es) && es@ == seq![(key, JsonValue::Str(value))],
        is_name(key@),
        key@ != "completed"@,
        value@.len() > 0,
        !value@.contains('\n'),
        !is_white(value@[0]),
        !is_white(value@.last()),
        line_header(value@) is None,
        json_parse(value@) is None,
    ensures
        adapter.parsed(adapter.assistant_text(outputs, fields), Ok::<JsonValue, ParseError>(outputs)),
{
    reveal_strlit("\n\n");
    let es = outputs->Object_0;
    assert(entries_get(es@, key@) == Some(JsonValue::Str(value)));
    assert(spec_get(outputs, key@) == Some(JsonValue::Str(value)));
    assert(fields.drop_last() =~= Seq::<FieldSpec>::empty());
    let part = header(key@) + "\n"@ + value@;
    assert(present_parts(fields.drop_last(), outputs, true) == Seq::<Seq<char>>::empty());
    assert(fields.last() == fields[0]);
    assert(value_text(JsonValue::Str(value)) == value@);
    assert(present_parts(fields, outputs, true) =~= seq![part]);
    let parts = seq![part].push(header("completed"@));
    assert(parts.drop_last() =~= seq![part]);
    assert(joined(seq![part], "\n\n"@) == part);
    assert(parts.last() == header("completed"@));
    assert(adapter.assistant_text(outputs, fields) == joined(parts, "\n\n"@));
    assert(adapter.assistant_text(outputs, fields) == part + "\n\n"@ + header("completed"@));
    lemma_one_section(key@, value@);
    let w = without_completed(sections_of(adapter.assistant_text(outputs, fields)));
    assert(w == seq![(key@, value@)]);
    assert(section_value(JsonValue::Str(value), value@));
    assert(record_of_sections(es@, w));
}

} // verus!
