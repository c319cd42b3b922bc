//! Samples as Avro records: the schema for a set of channels, and the records
//! of a chunk.
use apache_avro::Schema;
use vstd::prelude::*;
use crate::daq::reader::{columns, longest, sample_count};
use crate::number::{decimal, decimal_text};
use crate::text::{
    concat2, concat3, concat4, ends_with, join, joined, replace_char, replaced, texts,
};

verus! {

/// A schema of `apache_avro`.
#[verifier::external_type_specification]
#[verifier::external_body]
pub struct ExSchema(Schema);

/// What `apache_avro` makes of the text of a schema: the schema, or what it
/// says is wrong with it.
pub uninterp spec fn parsed_schema(json: Seq<char>) -> Result<Schema, Seq<char>>;

/// `Schema::parse_str`, with the text of its error: the schema that a JSON
/// text describes, under the name `parsed_schema`. It takes only texts of
/// `schema_json`: other texts can hold aliases on which the function panics.
#[verifier::external_body]
fn parse_schema(json: &str) -> (r: Result<Schema, String>)
    requires
        is_schema_json(json@),
    ensures
        match parsed_schema(json@) {
            Ok(s) => r is Ok && r->Ok_0 == s,
            Err(m) => r is Err && r->Err_0@ == m,
        },
{
    Schema::parse_str(json).map_err(|e| e.to_string())
}

/// A name as it stands in a JSON text, with its backslashes and quotes
/// escaped.
pub open spec fn json_name(name: Seq<char>) -> Seq<char> {
    replaced(replaced(name, '\\', "\\\\"@), '"', "\\\""@)
}

/// The field of a channel, under a name made of its position; the channel's
/// own name goes with it.
pub open spec fn channel_field(names: Seq<Seq<char>>, i: int) -> Seq<char> {
    "{\"name\":\"ch_"@ + decimal(i as nat) + "\",\"type\":\"double\",\"doc\":\""@ + json_name(
        names[i],
    ) + "\"}"@
}

/// The fields of a record: the time, then one for each channel.
pub open spec fn record_fields(names: Seq<Seq<char>>) -> Seq<Seq<char>> {
    seq!["{\"name\":\"timestamp_s\",\"type\":\"double\"}"@] + Seq::new(
        names.len(),
        |i: int| channel_field(names, i),
    )
}

/// The text of the schema for a set of channels.
pub open spec fn schema_json(names: Seq<Seq<char>>) -> Seq<char> {
    "{\"type\":\"record\",\"name\":\"DaqSample\",\"namespace\":\"mprofiler.daq\",\"fields\":["@
        + joined(record_fields(names), ","@) + "]}"@
}

/// Whether a text is that of a schema for some set of channels.
pub open spec fn is_schema_json(json: Seq<char>) -> bool {
    exists|names: Seq<Seq<char>>| json == #[trigger] schema_json(names)
}

/// The text of the schema for a set of channels.
pub fn schema_text(channel_names: &Vec<String>) -> (s: String)
    ensures
        s@ == schema_json(texts(channel_names@)),
{
    let ghost names = texts(channel_names@);
    let mut fields: Vec<String> = Vec::new();
    fields.push("{\"name\":\"timestamp_s\",\"type\":\"double\"}".to_string());
    let mut i: usize = 0;
    assert(texts(fields@) =~= record_fields(names).take(1));
    while i < channel_names.len()
        invariant
            names == texts(channel_names@),
            i <= channel_names@.len(),
            texts(fields@) == record_fields(names).take(i as int + 1),
        decreases channel_names.len() - i,
    {
        let once = replace_char(channel_names[i].as_str(), '\\', "\\\\");
        let escaped = replace_char(once.as_str(), '"', "\\\"");
        let mut field = concat4(
            "{\"name\":\"ch_",
            decimal_text(i as u64).as_str(),
            "\",\"type\":\"double\",\"doc\":\"",
            escaped.as_str(),
        );
        field.append("\"}");
        let ghost before = texts(fields@);
        proof {
            assert(names[i as int] == channel_names@[i as int]@);
            assert(field@ == channel_field(names, i as int));
            assert(record_fields(names)[i + 1] == channel_field(names, i as int));
        }
        fields.push(field);
        assert(texts(fields@) =~= before.push(field@));
        assert(texts(fields@) =~= record_fields(names).take(i as int + 2));
        i += 1;
    }
    assert(record_fields(names).take(names.len() as int + 1) =~= record_fields(names));
    concat3(
        "{\"type\":\"record\",\"name\":\"DaqSample\",\"namespace\":\"mprofiler.daq\",\"fields\":[",
        join(&fields, ",").as_str(),
        "]}",
    )
}

/// The schema for a set of channels.
pub fn build_schema(channel_names: &Vec<String>) -> (r: Result<Schema, String>)
    ensures
        schema_outcome(parsed_schema(schema_json(texts(channel_names@))), r),
{
    let json = schema_text(channel_names);
    schema_result(parse_schema(json.as_str()))
}

/// Whether samples are written to a file as Avro records: they are where its
/// name ends in `.avro`.
pub fn is_avro_path(path: &str) -> (r: bool)
    ensures
        r == (path@.len() >= 5 && path@.skip(path@.len() - 5) == ".avro"@),
{
    proof {
        reveal_strlit(".avro");
    }
    ends_with(path, ".avro")
}

/// What a parsed schema is to the caller: the schema, or an error that says
/// where it comes from.
pub open spec fn schema_outcome(
    parsed: Result<Schema, Seq<char>>,
    r: Result<Schema, String>,
) -> bool {
    match parsed {
        Ok(s) => r is Ok && r->Ok_0 == s,
        Err(m) => r is Err && r->Err_0@ == "Avro schema error: "@ + m,
    }
}

/// What a parsed schema is to the caller.
pub fn schema_result(parsed: Result<Schema, String>) -> (r: Result<Schema, String>)
    ensures
        schema_outcome(
            match parsed {
                Ok(s) => Ok(s),
                Err(m) => Err(m@),
            },
            r,
        ),
{
    match parsed {
        Ok(s) => Ok(s),
        Err(m) => Err(concat2("Avro schema error: ", m.as_str())),
    }
}

/// One record of a chunk: a value for each channel, and `missing` for a
/// channel that has no sample there.
pub open spec fn record_at<T>(
    chunk: Seq<Seq<T>>,
    channel_count: nat,
    missing: T,
    s: int,
) -> Seq<T> {
    Seq::new(
        channel_count,
        |c: int|
            if c < chunk.len() && s < chunk[c].len() {
                chunk[c][s]
            } else {
                missing
            },
    )
}

/// The records of a chunk, one for each sample of its longest channel.
pub open spec fn records_of<T>(chunk: Seq<Seq<T>>, channel_count: nat, missing: T) -> Seq<Seq<T>> {
    Seq::new(longest(chunk), |s: int| record_at(chunk, channel_count, missing, s))
}

/// The records of a chunk.
pub fn chunk_records<T: Copy>(chunk: &Vec<Vec<T>>, channel_count: usize, missing: T) -> (r: Vec<
    Vec<T>,
>)
    ensures
        columns(r@) == records_of(columns(chunk@), channel_count as nat, missing),
{
    let ghost all = columns(chunk@);
    let n: usize = sample_count(chunk);
    let mut r: Vec<Vec<T>> = Vec::new();
    let mut s: usize = 0;
    assert(columns(r@) =~= records_of(all, channel_count as nat, missing).take(0));
    while s < n
        invariant
            all == columns(chunk@),
            n == longest(all),
            s <= n,
            columns(r@) == records_of(all, channel_count as nat, missing).take(s as int),
        decreases n - s,
    {
        let ghost wanted = record_at(all, channel_count as nat, missing, s as int);
        let mut record: Vec<T> = Vec::new();
        let mut c: usize = 0;
        while c < channel_count
            invariant
                all == columns(chunk@),
                wanted == record_at(all, channel_count as nat, missing, s as int),
                c <= channel_count,
                record@ == wanted.take(c as int),
            decreases channel_count - c,
        {
            let value: T = if c < chunk.len() && s < chunk[c].len() {
                chunk[c][s]
            } else {
                missing
            };
            assert(c < chunk@.len() ==> all[c as int] == chunk@[c as int]@);
            record.push(value);
            assert(wanted.take(c as int + 1) =~= wanted.take(c as int).push(wanted[c as int]));
            c += 1;
        }
        assert(wanted.take(channel_count as int) =~= wanted);
        let ghost before = columns(r@);
        r.push(record);
        assert(columns(r@) =~= before.push(wanted));
        assert(columns(r@) =~= records_of(all, channel_count as nat, missing).take(s as int + 1));
        s += 1;
    }
    assert(records_of(all, channel_count as nat, missing).take(n as int) =~= records_of(
        all,
        channel_count as nat,
        missing,
    ));
    r
}

} // verus!
