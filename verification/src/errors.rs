//! Structured errors, and the translation of engine status codes into them.
//!
//! Every call into the storage engine yields an integer status code beside
//! its result: 0 means the result is valid, anything else means the result
//! must be discarded.  This module turns a non-zero status into a
//! [`FitsError`] carrying the engine's canonical description of the code,
//! and defines the other error kinds this layer can raise on its own,
//! before any engine call is issued.

use vstd::prelude::*;
use core::ops::Range;

verus! {

/// A failure reported by the storage engine: the non-zero status code it
/// returned, together with the canonical textual description of that code.
#[derive(Debug, PartialEq, Eq)]
pub struct FitsError {
    /// The engine's status code; 0 means success and is never wrapped here.
    pub status: i32,
    /// The canonical description of `status`, fixed once at construction.
    pub message: String,
}

/// A range requested by the caller that this layer rejected before any
/// engine call was issued.
#[derive(Debug, PartialEq, Eq)]
pub struct IndexError {
    /// What was wrong with the request.
    pub message: String,
    /// The range the caller asked for.
    pub given: Range<usize>,
}

/// Everything that can go wrong in this layer.
#[derive(Debug, PartialEq, Eq)]
pub enum Error {
    /// The engine returned a non-zero status.
    Fits(FitsError),
    /// The caller asked for an invalid range; rejected before reaching the
    /// engine.
    Index(IndexError),
    /// Generic errors described by a plain string, among them a unit
    /// classification that does not match the operation requested, and an
    /// unrecognized unit-type discriminator.
    Message(String),
    /// Bytes handed back by the engine that do not decode as text; carries
    /// the offending bytes.
    Utf8(Vec<u8>),
    /// A table column whose wire type has no scalar type mapped to it;
    /// carries the column's format code.
    UnsupportedType(String),
}

impl From<FitsError> for Error {
    /// Wrap an engine failure as this layer's error type.
    fn from(error: FitsError) -> (r: Error) {
        Error::Fits(error)
    }
}

impl vstd::std_specs::convert::FromSpecImpl<FitsError> for Error {
    open spec fn obeys_from_spec() -> bool {
        true
    }

    open spec fn from_spec(t: FitsError) -> Error {
        Error::Fits(t)
    }
}

impl From<IndexError> for Error {
    /// Wrap a rejected range as this layer's error type.
    fn from(error: IndexError) -> (r: Error) {
        Error::Index(error)
    }
}

impl vstd::std_specs::convert::FromSpecImpl<IndexError> for Error {
    open spec fn obeys_from_spec() -> bool {
        true
    }

    open spec fn from_spec(t: IndexError) -> Error {
        Error::Index(t)
    }
}

/// The canonical description of an engine status code, exactly as the
/// engine's own error-text lookup gives it.  Unrecognized codes map to a
/// generic description, so translation itself cannot fail.
pub open spec fn spec_status_message(status: i32) -> Seq<char> {
    if status == 0 {
        "OK - no error"@
    } else if status == 1 {
        "non-CFITSIO program error"@
    } else if status == 101 {
        "same input and output files"@
    } else if status == 103 {
        "attempt to open too many files"@
    } else if status == 104 {
        "could not open the named file"@
    } else if status == 105 {
        "couldn't create the named file"@
    } else if status == 106 {
        "error writing to FITS file"@
    } else if status == 107 {
        "tried to move past end of file"@
    } else if status == 108 {
        "error reading from FITS file"@
    } else if status == 110 {
        "could not close the file"@
    } else if status == 111 {
        "array dimensions too big"@
    } else if status == 112 {
        "cannot write to readonly file"@
    } else if status == 113 {
        "could not allocate memory"@
    } else if status == 114 {
        "invalid fitsfile pointer"@
    } else if status == 115 {
        "NULL input pointer"@
    } else if status == 116 {
        "error seeking file position"@
    } else if status == 121 {
        "invalid URL prefix"@
    } else if status == 122 {
        "too many I/O drivers"@
    } else if status == 123 {
        "I/O driver init failed"@
    } else if status == 124 {
        "no I/O driver for this URLtype"@
    } else if status == 125 {
        "parse error in input file URL"@
    } else if status == 126 {
        "parse error in range list"@
    } else if status == 201 {
        "header already has keywords"@
    } else if status == 202 {
        "keyword not found in header"@
    } else if status == 203 {
        "keyword number out of bounds"@
    } else if status == 204 {
        "keyword value is undefined"@
    } else if status == 205 {
        "string missing closing quote"@
    } else if status == 206 {
        "error in indexed keyword name"@
    } else if status == 207 {
        "illegal character in keyword"@
    } else if status == 208 {
        "required keywords out of order"@
    } else if status == 209 {
        "keyword value not positive int"@
    } else if status == 210 {
        "END keyword not found"@
    } else if status == 211 {
        "illegal BITPIX keyword value"@
    } else if status == 212 {
        "illegal NAXIS keyword value"@
    } else if status == 213 {
        "illegal NAXISn keyword value"@
    } else if status == 216 {
        "illegal TFIELDS keyword value"@
    } else if status == 217 {
        "negative table row size"@
    } else if status == 218 {
        "negative number of rows"@
    } else if status == 219 {
        "named column not found"@
    } else if status == 225 {
        "first keyword not XTENSION"@
    } else if status == 226 {
        "CHDU not an ASCII table"@
    } else if status == 227 {
        "CHDU not a binary table"@
    } else if status == 233 {
        "CHDU not an IMAGE extension"@
    } else if status == 235 {
        "CHDU not a table extension"@
    } else if status == 236 {
        "column exceeds width of table"@
    } else if status == 237 {
        "more than 1 matching col. name"@
    } else if status == 251 {
        "unknown FITS extension type"@
    } else if status == 261 {
        "illegal TFORM format code"@
    } else if status == 262 {
        "unknown TFORM datatype code"@
    } else if status == 301 {
        "illegal HDU number"@
    } else if status == 302 {
        "column number < 1 or > tfields"@
    } else if status == 306 {
        "negative number of elements"@
    } else if status == 307 {
        "bad first row number"@
    } else if status == 308 {
        "bad first element number"@
    } else if status == 320 {
        "illegal number of dimensions"@
    } else if status == 321 {
        "1st pixel no. > last pixel no."@
    } else if status == 323 {
        "illegal axis length < 1"@
    } else {
        "unknown error status"@
    }
}

/// Translate an engine status code into its canonical description.
/// Unrecognized codes get the generic description: translation never fails.
pub fn status_to_string(status: i32) -> (r: String)
    ensures
        r@ == spec_status_message(status),
{
    let text: &str = if status == 0 {
        "OK - no error"
    } else if status == 1 {
        "non-CFITSIO program error"
    } else if status == 101 {
        "same input and output files"
    } else if status == 103 {
        "attempt to open too many files"
    } else if status == 104 {
        "could not open the named file"
    } else if status == 105 {
        "couldn't create the named file"
    } else if status == 106 {
        "error writing to FITS file"
    } else if status == 107 {
        "tried to move past end of file"
    } else if status == 108 {
        "error reading from FITS file"
    } else if status == 110 {
        "could not close the file"
    } else if status == 111 {
        "array dimensions too big"
    } else if status == 112 {
        "cannot write to readonly file"
    } else if status == 113 {
        "could not allocate memory"
    } else if status == 114 {
        "invalid fitsfile pointer"
    } else if status == 115 {
        "NULL input pointer"
    } else if status == 116 {
        "error seeking file position"
    } else if status == 121 {
        "invalid URL prefix"
    } else if status == 122 {
        "too many I/O drivers"
    } else if status == 123 {
        "I/O driver init failed"
    } else if status == 124 {
        "no I/O driver for this URLtype"
    } else if status == 125 {
        "parse error in input file URL"
    } else if status == 126 {
        "parse error in range list"
    } else if status == 201 {
        "header already has keywords"
    } else if status == 202 {
        "keyword not found in header"
    } else if status == 203 {
        "keyword number out of bounds"
    } else if status == 204 {
        "keyword value is undefined"
    } else if status == 205 {
        "string missing closing quote"
    } else if status == 206 {
        "error in indexed keyword name"
    } else if status == 207 {
        "illegal character in keyword"
    } else if status == 208 {
        "required keywords out of order"
    } else if status == 209 {
        "keyword value not positive int"
    } else if status == 210 {
        "END keyword not found"
    } else if status == 211 {
        "illegal BITPIX keyword value"
    } else if status == 212 {
        "illegal NAXIS keyword value"
    } else if status == 213 {
        "illegal NAXISn keyword value"
    } else if status == 216 {
        "illegal TFIELDS keyword value"
    } else if status == 217 {
        "negative table row size"
    } else if status == 218 {
        "negative number of rows"
    } else if status == 219 {
        "named column not found"
    } else if status == 225 {
        "first keyword not XTENSION"
    } else if status == 226 {
        "CHDU not an ASCII table"
    } else if status == 227 {
        "CHDU not a binary table"
    } else if status == 233 {
        "CHDU not an IMAGE extension"
    } else if status == 235 {
        "CHDU not a table extension"
    } else if status == 236 {
        "column exceeds width of table"
    } else if status == 237 {
        "more than 1 matching col. name"
    } else if status == 251 {
        "unknown FITS extension type"
    } else if status == 261 {
        "illegal TFORM format code"
    } else if status == 262 {
        "unknown TFORM datatype code"
    } else if status == 301 {
        "illegal HDU number"
    } else if status == 302 {
        "column number < 1 or > tfields"
    } else if status == 306 {
        "negative number of elements"
    } else if status == 307 {
        "bad first row number"
    } else if status == 308 {
        "bad first element number"
    } else if status == 320 {
        "illegal number of dimensions"
    } else if status == 321 {
        "1st pixel no. > last pixel no."
    } else if status == 323 {
        "illegal axis length < 1"
    } else {
        "unknown error status"
    };
    text.to_owned()
}

/// Holds when `e` is exactly the structured error that the non-zero engine
/// status `status` translates into.
pub open spec fn is_fits_error(e: FitsError, status: i32) -> bool {
    &&& e.status == status
    &&& e.message@ == spec_status_message(status)
}

/// Holds when `e` wraps exactly the structured error for engine status
/// `status`.
pub open spec fn is_engine_error(e: Error, status: i32) -> bool {
    e matches Error::Fits(f) && is_fits_error(f, status)
}

/// Branch on an engine status: status 0 hands `value` through, any other
/// status is translated into a structured error carrying its description.
pub fn fits_try<T>(status: i32, value: T) -> (r: Result<T, FitsError>)
    ensures
        status == 0 ==> r == Ok::<T, FitsError>(value),
        status != 0 ==> (r matches Err(e) && is_fits_error(e, status)),
{
    if status == 0 {
        Ok(value)
    } else {
        Err(FitsError { status, message: status_to_string(status) })
    }
}

/// The structured error for a non-zero engine status, already wrapped as
/// this layer's error type.
pub fn engine_error(status: i32) -> (r: Error)
    ensures
        is_engine_error(r, status),
{
    Error::Fits(FitsError { status, message: status_to_string(status) })
}

} // verus!
