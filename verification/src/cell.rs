//! One typed cell of a row, and its text.

use vstd::prelude::*;
use vstd::utf8::{decode_utf8, valid_utf8};
use crate::text::{byte_list, byte_list_text, integer_text, signed_decimal};

verus! {

/// One cell of a row, by the type the database gave it.
#[derive(Clone, Debug, PartialEq, Eq)]
pub enum Cell {
    /// No value.
    Null,
    /// An integer.
    Integer(i64),
    /// A real number, as the decimal text that stands for it.
    Real(String),
    /// Text, as the bytes the database holds; they need not be valid UTF-8.
    Text(Vec<u8>),
    /// Binary data.
    Blob(Vec<u8>),
}

/// The text of a cell: `null` for no value, the decimal numeral of an integer,
/// the text of a real number as given, text as it stands, and binary data as a
/// bracketed list of its bytes. Text that is not valid UTF-8 has none.
pub open spec fn cell_text(cell: Cell) -> Option<Seq<char>> {
    match cell {
        Cell::Null => Some("null"@),
        Cell::Integer(value) => Some(signed_decimal(value as int)),
        Cell::Real(text) => Some(text@),
        Cell::Text(bytes) => if valid_utf8(bytes@) {
            Some(decode_utf8(bytes@))
        } else {
            None
        },
        Cell::Blob(bytes) => Some(byte_list(bytes@)),
    }
}

/// `std::str::from_utf8`, with the text copied into a `String`: the text that
/// the bytes encode, or nothing where they are not valid UTF-8.
#[verifier::external_body]
pub(crate) fn decode_text(bytes: &Vec<u8>) -> (out: Option<String>)
    ensures
        out is Some == valid_utf8(bytes@),
        out matches Some(text) ==> text@ == decode_utf8(bytes@),
{
    match std::str::from_utf8(bytes) {
        Ok(text) => Some(text.to_owned()),
        Err(_) => None,
    }
}

impl Cell {
    /// The text of this cell, or `None` for text that is not valid UTF-8.
    pub fn text(&self) -> (out: Option<String>)
        ensures
            out is Some == cell_text(*self) is Some,
            out matches Some(text) ==> cell_text(*self) == Some(text@),
    {
        match self {
            Cell::Null => Some(String::from_str("null")),
            Cell::Integer(value) => Some(integer_text(*value)),
            Cell::Real(text) => Some(text.clone()),
            Cell::Text(bytes) => decode_text(bytes),
            Cell::Blob(bytes) => Some(byte_list_text(bytes)),
        }
    }
}

} // verus!
