//! Reading header keywords: each supported scalar type knows which
//! engine read decodes it, and how the engine's raw reply becomes a
//! typed value.

use vstd::prelude::*;
use crate::datatype::DataType;
use crate::errors::{engine_error, is_engine_error, Error};
use crate::fitsfile::FitsFile;
use crate::stringutils::{buf_to_string, spec_decode_c};

verus! {

/// The engine-defined maximum length of a keyword value string,
/// terminating NUL included: the buffer size a keyword string read must
/// be given.
pub const MAX_VALUE_LENGTH: usize = 71;

/// A keyword lookup, ready to hand to the engine: the keyword's name
/// (matched case-insensitively by the engine) and the wire type to
/// decode its value as.
#[derive(Debug, PartialEq)]
pub struct KeyCommand {
    /// The keyword's name.
    pub name: String,
    /// The wire type whose keyword read the engine should perform.
    pub data_type: DataType,
}

/// The raw value a keyword read hands back, as the engine returned it.
#[derive(Debug, PartialEq)]
pub enum KeyValue {
    /// The reply of a logical keyword read.
    Logical(i32),
    /// The reply of an integer keyword read.
    Integer(i64),
    /// The reply of a string keyword read: the NUL-terminated buffer the
    /// engine filled.
    Text(Vec<u8>),
}

/// A scalar that can be read from a header keyword: it knows its wire
/// type and how to decode the engine's reply.
pub trait ReadsKey: Sized {
    /// The wire type whose keyword read this scalar decodes.
    spec fn spec_key_type() -> DataType;

    /// The reply has the shape this scalar decodes, and decodes cleanly.
    spec fn spec_key_ok(raw: KeyValue) -> bool;

    /// `v` is exactly what the reply `raw` decodes to.
    spec fn spec_key_post(raw: KeyValue, v: Self) -> bool;

    /// The wire type whose keyword read this scalar decodes.
    fn key_type() -> (d: DataType)
        ensures
            d == Self::spec_key_type(),
    ;

    /// Decode the engine's keyword reply.  A non-zero status voids the
    /// reply and is translated; a reply of the wrong shape, or one whose
    /// bytes are not text, is a checked error distinct from any engine
    /// failure.
    fn read_key(raw: KeyValue, status: i32) -> (r: Result<Self, Error>)
        ensures
            status != 0 ==> (r matches Err(e) && is_engine_error(e, status)),
            status == 0 ==> match r {
                Ok(v) => Self::spec_key_ok(raw) && Self::spec_key_post(raw, v),
                Err(e) => !Self::spec_key_ok(raw) && !(e matches Error::Fits(_)),
            },
    ;
}

impl ReadsKey for i32 {
    open spec fn spec_key_type() -> DataType {
        DataType::TLOGICAL
    }

    open spec fn spec_key_ok(raw: KeyValue) -> bool {
        raw is Logical
    }

    open spec fn spec_key_post(raw: KeyValue, v: i32) -> bool {
        raw matches KeyValue::Logical(w) && v == w
    }

    fn key_type() -> DataType {
        DataType::TLOGICAL
    }

    fn read_key(raw: KeyValue, status: i32) -> Result<i32, Error> {
        if status != 0 {
            return Err(engine_error(status));
        }
        match raw {
            KeyValue::Logical(v) => Ok(v),
            _ => Err(Error::Message("engine reply does not match the keyword type".to_owned())),
        }
    }
}

impl ReadsKey for i64 {
    open spec fn spec_key_type() -> DataType {
        DataType::TLONG
    }

    open spec fn spec_key_ok(raw: KeyValue) -> bool {
        raw is Integer
    }

    open spec fn spec_key_post(raw: KeyValue, v: i64) -> bool {
        raw matches KeyValue::Integer(w) && v == w
    }

    fn key_type() -> DataType {
        DataType::TLONG
    }

    fn read_key(raw: KeyValue, status: i32) -> Result<i64, Error> {
        if status != 0 {
            return Err(engine_error(status));
        }
        match raw {
            KeyValue::Integer(v) => Ok(v),
            _ => Err(Error::Message("engine reply does not match the keyword type".to_owned())),
        }
    }
}

impl ReadsKey for String {
    open spec fn spec_key_type() -> DataType {
        DataType::TSTRING
    }

    open spec fn spec_key_ok(raw: KeyValue) -> bool {
        raw matches KeyValue::Text(b) && spec_decode_c(b@) is Some
    }

    open spec fn spec_key_post(raw: KeyValue, v: String) -> bool {
        raw matches KeyValue::Text(b) && spec_decode_c(b@) == Some(v@)
    }

    fn key_type() -> DataType {
        DataType::TSTRING
    }

    fn read_key(raw: KeyValue, status: i32) -> Result<String, Error> {
        if status != 0 {
            return Err(engine_error(status));
        }
        match raw {
            KeyValue::Text(b) => match buf_to_string(&b) {
                Ok(s) => Ok(s),
                Err(e) => Err(e),
            },
            _ => Err(Error::Message("engine reply does not match the keyword type".to_owned())),
        }
    }
}

/// Round trip of a written keyword: a text with no NUL character that
/// the engine stored as its UTF-8 bytes, padded with any number of
/// trailing NULs, is decodable, and whatever a string keyword read
/// decodes from that buffer is exactly the text that was written.
pub proof fn lemma_written_keyword_reads_back(s: Seq<char>, padding: nat, raw: KeyValue, v: String)
    requires
        forall|i: int| 0 <= i < s.len() ==> s[i] as u32 != 0,
        raw matches KeyValue::Text(b) && b@ == vstd::utf8::encode_utf8(s) + Seq::new(
            padding,
            |i: int| 0u8,
        ),
    ensures
        <String as ReadsKey>::spec_key_ok(raw),
        <String as ReadsKey>::spec_key_post(raw, v) ==> v@ == s,
{
    crate::stringutils::lemma_keyword_text_round_trip(s, padding);
}

impl FitsFile {
    /// Plan a keyword lookup: the engine should read the named keyword
    /// as `T`'s wire type.
    pub fn read_key_command<T: ReadsKey>(&self, name: &str) -> (c: KeyCommand)
        ensures
            c.name@ == name@,
            c.data_type == T::spec_key_type(),
    {
        KeyCommand { name: name.to_owned(), data_type: T::key_type() }
    }

    /// Finish a keyword read: decode the engine's reply as `T`.
    pub fn read_key<T: ReadsKey>(&self, raw: KeyValue, status: i32) -> (r: Result<T, Error>)
        ensures
            status != 0 ==> (r matches Err(e) && is_engine_error(e, status)),
            status == 0 ==> match r {
                Ok(v) => T::spec_key_ok(raw) && T::spec_key_post(raw, v),
                Err(e) => !T::spec_key_ok(raw) && !(e matches Error::Fits(_)),
            },
    {
        T::read_key(raw, status)
    }
}

} // verus!
