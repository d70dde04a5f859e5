//! The closed set of scalar wire types the engine understands, and the
//! mapping from a column's one-letter format code to a wire type.

use vstd::prelude::*;
use crate::errors::Error;

verus! {

/// A wire type: the engine's tag for the on-disk encoding of a scalar.
#[derive(Debug, Clone, Copy, PartialEq, Eq, Structural)]
pub enum DataType {
    TBIT,
    TBYTE,
    TLOGICAL,
    TSTRING,
    TUSHORT,
    TSHORT,
    TUINT,
    TINT,
    TULONG,
    TLONG,
    TFLOAT,
    TLONGLONG,
    TDOUBLE,
    TCOMPLEX,
    TDBLCOMPLEX,
}

impl DataType {
    /// The integer code the engine uses for this wire type.
    pub open spec fn spec_code(self) -> i32 {
        match self {
            DataType::TBIT => 1,
            DataType::TBYTE => 11,
            DataType::TLOGICAL => 14,
            DataType::TSTRING => 16,
            DataType::TUSHORT => 20,
            DataType::TSHORT => 21,
            DataType::TUINT => 30,
            DataType::TINT => 31,
            DataType::TULONG => 40,
            DataType::TLONG => 41,
            DataType::TFLOAT => 42,
            DataType::TLONGLONG => 81,
            DataType::TDOUBLE => 82,
            DataType::TCOMPLEX => 83,
            DataType::TDBLCOMPLEX => 163,
        }
    }

    /// The integer code the engine uses for this wire type.
    pub fn code(self) -> (c: i32)
        ensures
            c == self.spec_code(),
    {
        match self {
            DataType::TBIT => 1,
            DataType::TBYTE => 11,
            DataType::TLOGICAL => 14,
            DataType::TSTRING => 16,
            DataType::TUSHORT => 20,
            DataType::TSHORT => 21,
            DataType::TUINT => 30,
            DataType::TINT => 31,
            DataType::TULONG => 40,
            DataType::TLONG => 41,
            DataType::TFLOAT => 42,
            DataType::TLONGLONG => 81,
            DataType::TDOUBLE => 82,
            DataType::TCOMPLEX => 83,
            DataType::TDBLCOMPLEX => 163,
        }
    }
}

/// The wire type that a one-letter column format code denotes, if any.
pub open spec fn spec_data_type_of(typechar: Seq<char>) -> Option<DataType> {
    if typechar.len() != 1 {
        None
    } else if typechar[0] == 'X' {
        Some(DataType::TBIT)
    } else if typechar[0] == 'B' {
        Some(DataType::TBYTE)
    } else if typechar[0] == 'L' {
        Some(DataType::TLOGICAL)
    } else if typechar[0] == 'A' {
        Some(DataType::TSTRING)
    } else if typechar[0] == 'I' {
        Some(DataType::TSHORT)
    } else if typechar[0] == 'J' {
        Some(DataType::TLONG)
    } else if typechar[0] == 'E' {
        Some(DataType::TFLOAT)
    } else if typechar[0] == 'D' {
        Some(DataType::TDOUBLE)
    } else if typechar[0] == 'C' {
        Some(DataType::TCOMPLEX)
    } else if typechar[0] == 'M' {
        Some(DataType::TDBLCOMPLEX)
    } else if typechar[0] == 'K' {
        Some(DataType::TLONGLONG)
    } else {
        None
    }
}

/// Map a column's one-letter format code to its wire type.  A code with no
/// mapped wire type is a checked error carrying the code itself.
pub fn typechar_to_data_type(typechar: &str) -> (r: Result<DataType, Error>)
    ensures
        spec_data_type_of(typechar@) matches Some(d) ==> r == Ok::<DataType, Error>(d),
        spec_data_type_of(typechar@) is None ==> (r matches Err(Error::UnsupportedType(t))
            && t@ == typechar@),
{
    if typechar.unicode_len() == 1 {
        match typechar.get_char(0) {
            'X' => Ok(DataType::TBIT),
            'B' => Ok(DataType::TBYTE),
            'L' => Ok(DataType::TLOGICAL),
            'A' => Ok(DataType::TSTRING),
            'I' => Ok(DataType::TSHORT),
            'J' => Ok(DataType::TLONG),
            'E' => Ok(DataType::TFLOAT),
            'D' => Ok(DataType::TDOUBLE),
            'C' => Ok(DataType::TCOMPLEX),
            'M' => Ok(DataType::TDBLCOMPLEX),
            'K' => Ok(DataType::TLONGLONG),
            _ => Err(Error::UnsupportedType(typechar.to_owned())),
        }
    } else {
        Err(Error::UnsupportedType(typechar.to_owned()))
    }
}

} // verus!
