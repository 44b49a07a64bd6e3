//! Delimited text: one record of fields rendered as comma-separated bytes.

use vstd::prelude::*;

verus! {

/// A `csv::Writer` with default settings that writes into a vector of bytes.
/// What it holds is known through `finished_records` and `pending_fields`
/// alone.
#[verifier::external_body]
pub struct RecordWriter {
    inner: csv::Writer<Vec<u8>>,
}

/// The records that a writer has terminated so far, each as its fields.
pub uninterp spec fn finished_records(w: RecordWriter) -> Seq<Seq<Seq<char>>>;

/// The fields written since the last terminator.
pub uninterp spec fn pending_fields(w: RecordWriter) -> Seq<Seq<char>>;

/// The bytes that a writer with default settings yields for the given
/// terminated records followed by the given fields of an open record.
pub uninterp spec fn delimited_bytes(finished: Seq<Seq<Seq<char>>>, pending: Seq<Seq<char>>) -> Seq<u8>;

/// `csv::Writer::from_writer` over an empty vector: a writer with default
/// settings that has written nothing.
#[verifier::external_body]
pub(crate) fn new_writer() -> (w: RecordWriter)
    ensures
        finished_records(w) == Seq::<Seq<Seq<char>>>::empty(),
        pending_fields(w) == Seq::<Seq<char>>::empty(),
{
    RecordWriter { inner: csv::Writer::from_writer(Vec::new()) }
}

/// `csv::Writer::write_field`: the field joins the open record, and no record
/// is terminated. The call reports success: the only failure that the writer
/// passes on from here is one of its destination, and a vector takes every
/// write.
#[verifier::external_body]
pub(crate) fn write_field(w: &mut RecordWriter, field: &str) -> (ok: bool)
    ensures
        ok,
        finished_records(*final(w)) == finished_records(*old(w)),
        pending_fields(*final(w)) == pending_fields(*old(w)).push(field@),
{
    w.inner.write_field(field).is_ok()
}

/// `csv::Writer::write_record` with no field, which terminates the open
/// record. A writer with default settings refuses a record whose number of
/// fields differs from that of the first one, so such a call is left out; any
/// other reports success, as the destination is a vector.
#[verifier::external_body]
pub(crate) fn end_record(w: &mut RecordWriter) -> (ok: bool)
    requires
        finished_records(*old(w)).len() > 0 ==> finished_records(*old(w))[0].len()
            == pending_fields(*old(w)).len(),
    ensures
        ok,
        finished_records(*final(w)) == finished_records(*old(w)).push(pending_fields(*old(w))),
        pending_fields(*final(w)) == Seq::<Seq<char>>::empty(),
{
    w.inner.write_record(None::<&[u8]>).is_ok()
}

/// `csv::Writer::into_inner`: flushes and hands back the vector, which always
/// succeeds with a vector. The contract gives its bytes the name
/// `delimited_bytes`: they depend on the records and fields written alone.
#[verifier::external_body]
pub(crate) fn into_bytes(w: RecordWriter) -> (out: Option<Vec<u8>>)
    ensures
        out is Some,
        out matches Some(bytes) ==> bytes@ == delimited_bytes(finished_records(w), pending_fields(w)),
{
    w.inner.into_inner().ok()
}

/// The texts of a list of strings.
pub open spec fn texts(fields: Seq<String>) -> Seq<Seq<char>> {
    fields.map_values(|s: String| s@)
}

/// The bytes of one terminated record: what a fresh writer yields after the
/// fields and the terminator.
pub open spec fn record_bytes(fields: Seq<Seq<char>>) -> Seq<u8> {
    delimited_bytes(seq![fields], Seq::<Seq<char>>::empty())
}

/// The bytes of the beginning of a record that was never terminated: nothing
/// where no field was written, else what a fresh writer yields after the
/// fields alone.
pub open spec fn partial_record_bytes(fields: Seq<Seq<char>>) -> Seq<u8> {
    if fields.len() == 0 {
        Seq::<u8>::empty()
    } else {
        delimited_bytes(Seq::<Seq<Seq<char>>>::empty(), fields)
    }
}

fn write_fields(w: &mut RecordWriter, fields: &Vec<String>)
    ensures
        finished_records(*final(w)) == finished_records(*old(w)),
        pending_fields(*final(w)) == pending_fields(*old(w)) + texts(fields@),
{
    let mut i: usize = 0;
    while i < fields.len()
        invariant
            i <= fields.len(),
            finished_records(*w) == finished_records(*old(w)),
            pending_fields(*w) == pending_fields(*old(w)) + texts(fields@).take(i as int),
        decreases fields.len() - i,
    {
        write_field(w, fields[i].as_str());
        proof {
            assert(texts(fields@).take(i + 1) == texts(fields@).take(i as int).push(fields@[i as int]@));
        }
        i += 1;
    }
    proof {
        assert(texts(fields@).take(i as int) == texts(fields@));
    }
}

/// Renders `fields` as one terminated record.
pub fn encode_record(fields: &Vec<String>) -> (out: Vec<u8>)
    ensures
        out@ == record_bytes(texts(fields@)),
{
    let mut w = new_writer();
    write_fields(&mut w, fields);
    end_record(&mut w);
    proof {
        assert(pending_fields(w) == Seq::<Seq<char>>::empty());
        assert(Seq::<Seq<char>>::empty() + texts(fields@) == texts(fields@));
        assert(finished_records(w) == seq![texts(fields@)]);
    }
    match into_bytes(w) {
        Some(bytes) => bytes,
        None => Vec::new(),
    }
}

/// Renders `fields` as the beginning of a record, without a terminator.
pub fn encode_partial_record(fields: &Vec<String>) -> (out: Vec<u8>)
    ensures
        out@ == partial_record_bytes(texts(fields@)),
{
    if fields.len() == 0 {
        return Vec::new();
    }
    let mut w = new_writer();
    write_fields(&mut w, fields);
    proof {
        assert(Seq::<Seq<char>>::empty() + texts(fields@) == texts(fields@));
    }
    match into_bytes(w) {
        Some(bytes) => bytes,
        None => Vec::new(),
    }
}

} // verus!
