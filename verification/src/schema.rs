//! The columns of a table, the place of its timestamp column, and the header
//! record.

use vstd::prelude::*;
use crate::delimited::texts;

verus! {

/// Whether a column of this name holds epoch seconds for which a readable
/// timestamp is derived.
pub open spec fn is_timestamp_name(name: Seq<char>) -> bool {
    name == "sm_timestamp"@ || name == "timestamp"@
}

/// The place of the timestamp column: the first column with a timestamp name.
pub open spec fn timestamp_position(names: Seq<Seq<char>>) -> Option<int>
    decreases names.len(),
{
    if names.len() == 0 {
        None
    } else {
        match timestamp_position(names.drop_last()) {
            Some(p) => Some(p),
            None => if is_timestamp_name(names.last()) {
                Some(names.len() - 1)
            } else {
                None
            },
        }
    }
}

/// The header record: the column names, with `timestamp_parsed` right after
/// the timestamp column where there is one.
pub open spec fn header_fields(names: Seq<Seq<char>>) -> Seq<Seq<char>> {
    match timestamp_position(names) {
        Some(p) => names.insert(p + 1, "timestamp_parsed"@),
        None => names,
    }
}

/// The timestamp position is an index of a column with a timestamp name, and
/// no column before it has one; there is none only where no column has one.
pub proof fn lemma_timestamp_position(names: Seq<Seq<char>>)
    ensures
        match timestamp_position(names) {
            Some(p) => 0 <= p < names.len() && is_timestamp_name(names[p]) && forall|j: int|
                0 <= j < p ==> !is_timestamp_name(#[trigger] names[j]),
            None => forall|j: int| 0 <= j < names.len() ==> !is_timestamp_name(#[trigger] names[j]),
        },
    decreases names.len(),
{
    if names.len() > 0 {
        let front = names.drop_last();
        lemma_timestamp_position(front);
        assert forall|j: int| 0 <= j < front.len() implies front[j] == names[j] by {}
        match timestamp_position(front) {
            Some(p) => {
                assert(front[p] == names[p]);
                assert forall|j: int| 0 <= j < p implies !is_timestamp_name(#[trigger] names[j]) by {
                    assert(front[j] == names[j]);
                }
            },
            None => {
                assert forall|j: int| 0 <= j < names.len() - 1 implies !is_timestamp_name(
                    #[trigger] names[j],
                ) by {
                    assert(front[j] == names[j]);
                }
            },
        }
    }
}

/// A timestamp column found among the first `k` names is the table's.
pub proof fn lemma_timestamp_position_kept(names: Seq<Seq<char>>, k: int)
    requires
        0 <= k <= names.len(),
        timestamp_position(names.take(k)) is Some,
    ensures
        timestamp_position(names) == timestamp_position(names.take(k)),
    decreases names.len() - k,
{
    if k == names.len() {
        assert(names.take(k) == names);
    } else {
        assert(names.take(k + 1).drop_last() == names.take(k));
        lemma_timestamp_position_kept(names, k + 1);
    }
}

/// The header has one field per column, and one more where a timestamp is
/// derived; the added field stands right after the timestamp column.
pub proof fn lemma_header_shape(names: Seq<Seq<char>>)
    ensures
        match timestamp_position(names) {
            Some(p) => header_fields(names).len() == names.len() + 1 && header_fields(names)[p]
                == names[p] && header_fields(names)[p + 1] == "timestamp_parsed"@,
            None => header_fields(names) == names,
        },
{
    lemma_timestamp_position(names);
}

/// The column names of one table, in order, with the place of the timestamp
/// column.
pub struct ColumnSchema {
    names: Vec<String>,
    timestamp: Option<usize>,
}

impl ColumnSchema {
    #[verifier::type_invariant]
    spec fn well_formed(&self) -> bool {
        match self.timestamp {
            Some(p) => timestamp_position(texts(self.names@)) == Some(p as int),
            None => timestamp_position(texts(self.names@)) is None,
        }
    }

    /// The column names.
    pub closed spec fn columns(&self) -> Seq<Seq<char>> {
        texts(self.names@)
    }

    /// The schema of a table with the given column names.
    pub fn new(names: Vec<String>) -> (out: ColumnSchema)
        ensures
            out.columns() == texts(names@),
    {
        let aliases = (String::from_str("sm_timestamp"), String::from_str("timestamp"));
        let mut found: Option<usize> = None;
        let mut i: usize = 0;
        while i < names.len() && found.is_none()
            invariant
                i <= names.len(),
                aliases.0@ == "sm_timestamp"@,
                aliases.1@ == "timestamp"@,
                match found {
                    Some(p) => timestamp_position(texts(names@)) == Some(p as int),
                    None => timestamp_position(texts(names@).take(i as int)) is None,
                },
            decreases names.len() - i + (if found is None { 1int } else { 0int }),
        {
            proof {
                let next = texts(names@).take(i + 1);
                assert(next.drop_last() == texts(names@).take(i as int));
                assert(next.last() == names@[i as int]@);
            }
            if names[i] == aliases.0 || names[i] == aliases.1 {
                found = Some(i);
                proof {
                    lemma_timestamp_position_kept(texts(names@), i + 1);
                }
            } else {
                i += 1;
            }
        }
        proof {
            if found is None {
                assert(texts(names@).take(i as int) == texts(names@));
            }
        }
        ColumnSchema { names, timestamp: found }
    }

    /// The number of columns.
    pub fn column_count(&self) -> (out: usize)
        ensures
            out == self.columns().len(),
    {
        self.names.len()
    }

    /// The place of the timestamp column, if the table has one.
    pub fn timestamp_column(&self) -> (out: Option<usize>)
        ensures
            out is Some == timestamp_position(self.columns()) is Some,
            out matches Some(p) ==> timestamp_position(self.columns()) == Some(p as int),
    {
        proof {
            use_type_invariant(self);
        }
        self.timestamp
    }

    /// The header record of the table's output.
    pub fn header(&self) -> (out: Vec<String>)
        ensures
            texts(out@) == header_fields(self.columns()),
    {
        proof {
            use_type_invariant(self);
            lemma_timestamp_position(texts(self.names@));
        }
        let mut out: Vec<String> = Vec::new();
        let mut i: usize = 0;
        while i < self.names.len()
            invariant
                i <= self.names.len(),
                out@.len() == i,
                texts(out@) == texts(self.names@).take(i as int),
            decreases self.names.len() - i,
        {
            let ghost before = out@;
            out.push(self.names[i].clone());
            proof {
                assert forall|j: int| 0 <= j < i + 1 implies texts(out@)[j] == texts(
                    self.names@,
                ).take(i + 1)[j] by {
                    if j < i {
                        assert(texts(before)[j] == texts(self.names@).take(i as int)[j]);
                    }
                }
                assert(texts(out@) =~= texts(self.names@).take(i + 1));
            }
            i += 1;
        }
        proof {
            assert(texts(self.names@).take(i as int) == texts(self.names@));
        }
        match self.timestamp {
            Some(p) => {
                let ghost before = out@;
                out.insert(p + 1, String::from_str("timestamp_parsed"));
                proof {
                    assert(texts(out@) =~= texts(before).insert(p + 1, "timestamp_parsed"@));
                }
            },
            None => {},
        }
        out
    }
}

} // verus!
