//! Comma-separated rows: quoting, and reading a row back into its fields.
use vstd::prelude::*;
use crate::text::{chars_of, concat3, contains_char, joined, replace_char, replaced, texts};

verus! {

/// Whether a text can stand in a row without quotes.
pub open spec fn plain(s: Seq<char>) -> bool {
    !s.contains(',') && !s.contains('"') && !s.contains('\n')
}

/// A field as a row holds it: as it is where it is plain, else in quotes with
/// each quote inside doubled.
pub open spec fn escaped(s: Seq<char>) -> Seq<char> {
    if plain(s) {
        s
    } else {
        seq!['"'] + replaced(s, '"', seq!['"', '"']) + seq!['"']
    }
}

/// A field as a row holds it.
pub fn csv_escape(value: &str) -> (r: String)
    ensures
        r@ == escaped(value@),
{
    if contains_char(value, ',') || contains_char(value, '"') || contains_char(value, '\n') {
        let inner = replace_char(value, '"', "\"\"");
        proof {
            reveal_strlit("\"\"");
            reveal_strlit("\"");
            assert("\"\""@ =~= seq!['"', '"']);
            assert("\""@ =~= seq!['"']);
        }
        concat3("\"", inner.as_str(), "\"")
    } else {
        value.to_string()
    }
}

/// The fields of what is left of a row, where `open` has been read of the
/// field at hand. A comma outside quotes ends a field; a quote opens or closes
/// a quoted stretch, and two of them inside one stand for one.
pub open spec fn fields_from(s: Seq<char>, quoted: bool, open: Seq<char>) -> Seq<Seq<char>>
    decreases s.len(),
{
    if s.len() == 0 {
        seq![open]
    } else if s[0] == '"' && quoted && s.len() > 1 && s[1] == '"' {
        fields_from(s.skip(2), true, open.push('"'))
    } else if s[0] == '"' {
        fields_from(s.skip(1), !quoted, open)
    } else if s[0] == ',' && !quoted {
        seq![open] + fields_from(s.skip(1), false, Seq::empty())
    } else {
        fields_from(s.skip(1), quoted, open.push(s[0]))
    }
}

/// The fields of a row.
pub open spec fn fields_of(line: Seq<char>) -> Seq<Seq<char>> {
    fields_from(line, false, Seq::empty())
}

/// The fields of a row.
pub fn parse_csv_line(line: &str) -> (r: Vec<String>)
    ensures
        texts(r@) == fields_of(line@),
{
    let v = chars_of(line);
    let mut fields: Vec<String> = Vec::new();
    let mut current = String::new();
    let mut quoted = false;
    let mut i: usize = 0;
    assert(line@.skip(0) =~= line@);
    assert(texts(fields@) + fields_from(line@.skip(0), false, Seq::empty()) =~= fields_of(line@));
    while i < v.len()
        invariant
            v@ == line@,
            i <= v@.len(),
            texts(fields@) + fields_from(
                line@.skip(i as int),
                quoted,
                current@,
            ) == fields_of(line@),
        decreases v.len() - i,
    {
        let c = v[i];
        let ghost rest = line@.skip(i as int);
        let ghost before = texts(fields@);
        let ghost open = current@;
        assert(rest[0] == c);
        assert(rest.skip(1) =~= line@.skip(i as int + 1));
        if c == '"' && quoted && i + 1 < v.len() && v[i + 1] == '"' {
            assert(rest[1] == '"');
            assert(rest.skip(2) =~= line@.skip(i as int + 2));
            current.push('"');
            i += 2;
        } else if c == '"' {
            quoted = !quoted;
            i += 1;
        } else if c == ',' && !quoted {
            fields.push(current);
            current = String::new();
            assert(texts(fields@) =~= before.push(open));
            assert(texts(fields@) + fields_from(rest.skip(1), false, Seq::empty()) =~= before + (
            seq![open] + fields_from(rest.skip(1), false, Seq::empty())));
            i += 1;
        } else {
            current.push(c);
            i += 1;
        }
    }
    let ghost before = texts(fields@);
    let ghost open = current@;
    assert(line@.skip(i as int).len() == 0);
    fields.push(current);
    assert(texts(fields@) =~= before + seq![open]);
    fields
}

proof fn lemma_replaced_front(s: Seq<char>, from: char, to: Seq<char>)
    requires
        s.len() > 0,
    ensures
        replaced(s, from, to) == (if s[0] == from { to } else { seq![s[0]] }) + replaced(
            s.skip(1),
            from,
            to,
        ),
    decreases s.len(),
{
    let head = if s[0] == from { to } else { seq![s[0]] };
    if s.len() == 1 {
        assert(s.drop_last() =~= Seq::<char>::empty());
        assert(s.skip(1) =~= Seq::<char>::empty());
        assert(replaced(s, from, to) =~= head + replaced(s.skip(1), from, to));
    } else {
        lemma_replaced_front(s.drop_last(), from, to);
        assert(s.drop_last().skip(1) =~= s.skip(1).drop_last());
        let tail = if s.last() == from { to } else { seq![s.last()] };
        assert(s.skip(1).last() == s.last());
        assert(head + replaced(s.skip(1).drop_last(), from, to) + tail =~= head + (replaced(
            s.skip(1).drop_last(),
            from,
            to,
        ) + tail));
    }
}

proof fn lemma_plain_field(s: Seq<char>, rest: Seq<char>, open: Seq<char>)
    requires
        plain(s),
    ensures
        fields_from(s + rest, false, open) == fields_from(rest, false, open + s),
    decreases s.len(),
{
    if s.len() == 0 {
        assert(s + rest =~= rest);
        assert(open + s =~= open);
    } else {
        let t = s.skip(1);
        assert(s.contains(s[0]));
        assert(plain(t)) by {
            assert forall|i: int| 0 <= i < t.len() implies s.contains(#[trigger] t[i]) by {
                assert(t[i] == s[i + 1]);
            }
        }
        lemma_plain_field(t, rest, open.push(s[0]));
        assert((s + rest).skip(1) =~= t + rest);
        assert(open.push(s[0]) + t =~= open + s);
    }
}

proof fn lemma_quoted_field(s: Seq<char>, rest: Seq<char>, open: Seq<char>)
    requires
        rest.len() > 0 ==> rest[0] != '"',
    ensures
        fields_from(replaced(s, '"', seq!['"', '"']) + seq!['"'] + rest, true, open)
            == fields_from(rest, false, open + s),
    decreases s.len(),
{
    let dq = seq!['"', '"'];
    let all = replaced(s, '"', dq) + seq!['"'] + rest;
    if s.len() == 0 {
        assert(all =~= seq!['"'] + rest);
        assert(all[0] == '"');
        assert(all.skip(1) =~= rest);
        assert(open + s =~= open);
        if all.len() > 1 {
            assert(all[1] == rest[0]);
        }
    } else {
        lemma_replaced_front(s, '"', dq);
        let t = s.skip(1);
        let next = replaced(t, '"', dq) + seq!['"'] + rest;
        lemma_quoted_field(t, rest, open.push(s[0]));
        assert(open.push(s[0]) + t =~= open + s);
        if s[0] == '"' {
            assert(all =~= dq + next);
            assert(all[0] == '"' && all[1] == '"');
            assert(all.skip(2) =~= next);
        } else {
            assert(all =~= seq![s[0]] + next);
            assert(all[0] == s[0]);
            assert(all.skip(1) =~= next);
        }
    }
}

/// An escaped field that a row goes on after is read back as it was.
pub proof fn lemma_escaped_field(s: Seq<char>, rest: Seq<char>)
    requires
        rest.len() > 0 ==> rest[0] == ',',
    ensures
        fields_from(escaped(s) + rest, false, Seq::empty()) == fields_from(rest, false, s),
{
    assert(Seq::<char>::empty() + s =~= s);
    if plain(s) {
        lemma_plain_field(s, rest, Seq::empty());
    } else {
        let body = replaced(s, '"', seq!['"', '"']);
        let all = escaped(s) + rest;
        assert(all =~= seq!['"'] + (body + seq!['"'] + rest));
        assert(all[0] == '"');
        assert(all.skip(1) =~= body + seq!['"'] + rest);
        lemma_quoted_field(s, rest, Seq::empty());
    }
}

/// A row: its fields, each escaped, with commas between them.
pub open spec fn row_text(fields: Seq<Seq<char>>) -> Seq<char> {
    joined(fields.map_values(|f: Seq<char>| escaped(f)), seq![','])
}

proof fn lemma_row_tail(fields: Seq<Seq<char>>, rest: Seq<char>)
    requires
        fields.len() > 0,
        rest.len() > 0 ==> rest[0] == ',',
    ensures
        fields_from(row_text(fields) + rest, false, Seq::empty()) == fields.drop_last()
            + fields_from(rest, false, fields.last()),
    decreases fields.len(),
{
    let e = fields.map_values(|f: Seq<char>| escaped(f));
    if fields.len() == 1 {
        lemma_escaped_field(fields[0], rest);
        assert(row_text(fields) == escaped(fields[0]));
        assert(fields.drop_last() + fields_from(rest, false, fields.last()) =~= fields_from(
            rest,
            false,
            fields.last(),
        ));
    } else {
        let init = fields.drop_last();
        assert(e.drop_last() =~= init.map_values(|f: Seq<char>| escaped(f)));
        let more = seq![','] + (escaped(fields.last()) + rest);
        assert(row_text(fields) + rest =~= row_text(init) + more);
        lemma_row_tail(init, more);
        assert(more.skip(1) =~= escaped(fields.last()) + rest);
        lemma_escaped_field(fields.last(), rest);
        assert(init.drop_last() + (seq![init.last()] + fields_from(rest, false, fields.last()))
            =~= fields.drop_last() + fields_from(rest, false, fields.last()));
    }
}

/// Reading a row gives back the fields that it was made of, whatever they
/// hold.
pub proof fn law_row_reads_back(fields: Seq<Seq<char>>)
    requires
        fields.len() > 0,
    ensures
        fields_of(row_text(fields)) == fields,
{
    lemma_row_tail(fields, Seq::empty());
    assert(row_text(fields) + Seq::<char>::empty() =~= row_text(fields));
    assert(fields.drop_last() + seq![fields.last()] =~= fields);
}

} // verus!
