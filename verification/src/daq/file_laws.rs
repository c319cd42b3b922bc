//! What the driver's lists are read as, and what the files that samples go to
//! say of their channels.
use vstd::prelude::*;
use apache_avro::Schema;
use crate::daq::avro_writer::{json_name, record_fields, schema_json, schema_outcome};
use crate::daq::device::{daqmx_list, entries_of};
use crate::daq::error::DaqmxError;
use crate::number::{decimal, decimal_signed};
use crate::text::{joined, pieces, replaced, trimmed};
use crate::text_laws::{
    law_joined_texts_stand_in_order, law_replacing_goes_by_characters, lemma_pieces_front,
};

verus! {

proof fn lemma_entries_front(first: Seq<char>, rest: Seq<Seq<char>>)
    ensures
        entries_of(seq![first] + rest) == if trimmed(first).len() == 0 {
            entries_of(rest)
        } else {
            seq![trimmed(first)] + entries_of(rest)
        },
    decreases rest.len(),
{
    let all = seq![first] + rest;
    if rest.len() == 0 {
        assert(all.drop_last() =~= Seq::<Seq<char>>::empty());
        assert(all.last() == first);
        assert(rest =~= Seq::<Seq<char>>::empty());
        assert(entries_of(rest) =~= Seq::<Seq<char>>::empty());
        assert(entries_of(all.drop_last()) =~= Seq::<Seq<char>>::empty());
        assert(Seq::<Seq<char>>::empty().push(trimmed(first)) =~= seq![trimmed(first)]);
        assert(seq![trimmed(first)] + entries_of(rest) =~= seq![trimmed(first)]);
    } else {
        lemma_entries_front(first, rest.drop_last());
        assert(all.drop_last() =~= seq![first] + rest.drop_last());
        assert(all.last() == rest.last());
        if trimmed(first).len() > 0 {
            assert(entries_of(all) =~= seq![trimmed(first)] + entries_of(rest));
        }
    }
}

/// A list of the driver is read entry by entry: what stands before the first
/// comma, without the white space around it, comes first, and the entries of
/// what follows behind it. An entry of which nothing is left is none.
pub proof fn law_driver_lists_are_split_at_commas(entry: Seq<char>, rest: Seq<char>)
    requires
        !entry.contains(','),
    ensures
        trimmed(entry).len() > 0 ==> daqmx_list(entry.push(',') + rest) == seq![trimmed(entry)]
            + daqmx_list(rest),
        trimmed(entry).len() == 0 ==> daqmx_list(entry.push(',') + rest) == daqmx_list(rest),
        trimmed(entry).len() > 0 ==> daqmx_list(entry) == seq![trimmed(entry)],
        trimmed(entry).len() == 0 ==> daqmx_list(entry).len() == 0,
{
    lemma_pieces_front(entry, rest, ',');
    lemma_entries_front(entry, pieces(rest, ','));
    let none = Seq::<Seq<char>>::empty();
    lemma_entries_front(entry, none);
    assert(seq![entry] + none =~= seq![entry]);
    assert(entries_of(none) =~= none);
    assert(seq![trimmed(entry)] + none =~= seq![trimmed(entry)]);
}

/// What is said of an error of the driver.
pub proof fn law_driver_errors_in_words(m: Seq<char>, code: i32)
    ensures
        DaqmxError::LibraryNotFound(m).words() == "DAQmx library not found: "@ + m,
        (DaqmxError::DaqmxCall { code, message: m }).words() == "DAQmx error (code "@
            + decimal_signed(code as int) + "): "@ + m,
        DaqmxError::<Seq<char>>::NoDevices.words() == "No DAQmx devices found"@,
{
}

/// A channel's name stands in the schema character by character, with a
/// backslash before each backslash and each quote.
pub proof fn law_names_are_quoted_in_the_schema(name: Seq<char>, c: char)
    ensures
        json_name(Seq::empty()).len() == 0,
        c != '\\' && c != '"' ==> json_name(name.push(c)) == json_name(name).push(c),
        json_name(name.push('\\')) == json_name(name) + "\\\\"@,
        json_name(name.push('"')) == json_name(name) + "\\\""@,
{
    let two = "\\\\"@;
    let quote = "\\\""@;
    reveal_strlit("\\\\");
    reveal_strlit("\\\"");
    let none = Seq::<char>::empty();
    law_replacing_goes_by_characters(none, none, c, '\\', two);
    law_replacing_goes_by_characters(none, none, c, '"', quote);
    assert(none + none =~= none);
    let inner = replaced(name, '\\', two);
    law_replacing_goes_by_characters(name, seq![c], c, '\\', two);
    law_replacing_goes_by_characters(name, seq!['\\'], '\\', '\\', two);
    law_replacing_goes_by_characters(name, seq!['"'], '"', '\\', two);
    assert(name + seq![c] =~= name.push(c));
    assert(name + seq!['\\'] =~= name.push('\\'));
    assert(name + seq!['"'] =~= name.push('"'));
    law_replacing_goes_by_characters(inner, seq![c], c, '"', quote);
    law_replacing_goes_by_characters(inner, seq!['"'], '"', '"', quote);
    law_replacing_goes_by_characters(inner, two, '\\', '"', quote);
    law_replacing_goes_by_characters(seq!['\\'], seq!['\\'], '\\', '"', quote);
    assert(two =~= seq!['\\'] + seq!['\\']);
    assert(replaced(two, '"', quote) =~= two);
    if c != '\\' && c != '"' {
        assert(json_name(name) + seq![c] =~= json_name(name).push(c));
    }
}

/// Whether a schema's text is `fields` between the braces.
pub open spec fn holds_fields(json: Seq<char>, fields: Seq<char>) -> bool {
    json
        == "{\"type\":\"record\",\"name\":\"DaqSample\",\"namespace\":\"mprofiler.daq\",\"fields\":["@
        + fields + "]}"@
}

/// A file of samples has a record whose first field is the time. Each channel
/// adds one field behind those of the channels before it, which is numbered in
/// order and says the channel's name. A schema that cannot be used says why.
pub proof fn law_each_channel_is_a_field_of_the_record(
    names: Seq<Seq<char>>,
    name: Seq<char>,
    fields: Seq<char>,
    parsed: Result<Schema, Seq<char>>,
    r: Result<Schema, String>,
)
    ensures
        holds_fields(schema_json(Seq::empty()), "{\"name\":\"timestamp_s\",\"type\":\"double\"}"@),
        holds_fields(schema_json(names), fields) ==> holds_fields(
            schema_json(names.push(name)),
            fields + ","@ + ("{\"name\":\"ch_"@ + decimal(names.len())
                + "\",\"type\":\"double\",\"doc\":\""@ + json_name(name) + "\"}"@),
        ),
        schema_outcome(parsed, r) ==> (r is Ok <==> parsed is Ok),
        schema_outcome(parsed, r) && parsed is Ok ==> r->Ok_0 == parsed->Ok_0,
        schema_outcome(parsed, r) && parsed is Err ==> r->Err_0@ == "Avro schema error: "@
            + parsed->Err_0,
{
    let none = Seq::<Seq<char>>::empty();
    let time = "{\"name\":\"timestamp_s\",\"type\":\"double\"}"@;
    assert(record_fields(none) =~= seq![time]);
    let before = record_fields(names);
    let after = record_fields(names.push(name));
    assert(after =~= before.push(after.last()));
    law_joined_texts_stand_in_order(before, after.last(), ","@);
    let head =
        "{\"type\":\"record\",\"name\":\"DaqSample\",\"namespace\":\"mprofiler.daq\",\"fields\":["@;
    let tail = "]}"@;
    if holds_fields(schema_json(names), fields) {
        let all = head + fields + tail;
        let same = head + joined(before, ","@) + tail;
        assert(fields =~= all.subrange(head.len() as int, all.len() - tail.len()));
        assert(joined(before, ","@) =~= same.subrange(
            head.len() as int,
            same.len() - tail.len(),
        ));
        assert(fields == joined(before, ","@));
    }
}

} // verus!
