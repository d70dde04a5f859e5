//! Reading table columns: resolving a column name to the engine's
//! 1-based column ordinal, planning the bulk read, checking what comes
//! back, and iterating over all columns of a table in order.

use vstd::prelude::*;
use crate::datatype::{spec_data_type_of, typechar_to_data_type, DataType};
use crate::errors::{engine_error, is_engine_error, Error, IndexError};
use crate::fitsfile::{ColumnDescription, FitsFile, HduInfo};

verus! {

/// A bulk column read, ready to hand to the engine: all rows of one
/// column, starting at the engine's first row.
#[derive(Debug, Clone, Copy, PartialEq, Eq, Structural)]
pub struct ColumnReadCommand {
    /// The engine's 1-based column number.
    pub column_number: i32,
    /// The engine's 1-based first row to read; always 1 here.
    pub first_row: i64,
    /// The engine's 1-based first element within the row; always 1 here.
    pub first_element: i64,
    /// How many values to read: the table's row count.
    pub num_elements: i64,
    /// The wire type of the scalar being read.
    pub data_type: DataType,
}

/// A scalar that can be read out of a table column: it knows its wire
/// type and the null sentinel the read buffer is pre-filled with.
pub trait ReadsCol: Sized {
    /// The null sentinel for this scalar.
    spec fn spec_null() -> Self;

    /// The wire type the engine reads this scalar as.
    spec fn spec_col_type() -> DataType;

    /// The null sentinel for this scalar.
    fn null_value() -> (r: Self)
        ensures
            r == Self::spec_null(),
    ;

    /// The wire type the engine reads this scalar as.
    fn col_type() -> (d: DataType)
        ensures
            d == Self::spec_col_type(),
    ;
}

impl ReadsCol for i32 {
    open spec fn spec_null() -> i32 {
        0
    }

    open spec fn spec_col_type() -> DataType {
        DataType::TINT
    }

    fn null_value() -> i32 {
        0
    }

    fn col_type() -> DataType {
        DataType::TINT
    }
}

impl ReadsCol for u32 {
    open spec fn spec_null() -> u32 {
        0
    }

    open spec fn spec_col_type() -> DataType {
        DataType::TUINT
    }

    fn null_value() -> u32 {
        0
    }

    fn col_type() -> DataType {
        DataType::TUINT
    }
}

impl ReadsCol for i64 {
    open spec fn spec_null() -> i64 {
        0
    }

    open spec fn spec_col_type() -> DataType {
        DataType::TLONG
    }

    fn null_value() -> i64 {
        0
    }

    fn col_type() -> DataType {
        DataType::TLONG
    }
}

impl ReadsCol for u64 {
    open spec fn spec_null() -> u64 {
        0
    }

    open spec fn spec_col_type() -> DataType {
        DataType::TULONG
    }

    fn null_value() -> u64 {
        0
    }

    fn col_type() -> DataType {
        DataType::TULONG
    }
}

/// Some column of the table bears this name.
pub open spec fn spec_has_column(cds: Seq<ColumnDescription>, name: Seq<char>) -> bool {
    exists|i: int| 0 <= i < cds.len() && (#[trigger] cds[i]).name@ == name
}

/// The buffer a bulk column read fills: one null sentinel per row, so the
/// engine overwrites exactly `num_rows` slots.
pub fn col_buffer<T: ReadsCol>(num_rows: usize) -> (r: Vec<T>)
    ensures
        r@.len() == num_rows,
        forall|i: int| 0 <= i < num_rows ==> r@[i] == T::spec_null(),
{
    let mut out: Vec<T> = Vec::new();
    let mut i: usize = 0;
    while i < num_rows
        invariant
            0 <= i <= num_rows,
            out@.len() == i,
            forall|j: int| 0 <= j < i ==> out@[j] == T::spec_null(),
        decreases num_rows - i,
    {
        out.push(T::null_value());
        i += 1;
    }
    out
}

impl FitsFile {
    /// Plan a bulk read of the named column of the currently selected
    /// table: resolve the name to the engine's 1-based column number by a
    /// linear scan for the first exact match, and span all rows starting
    /// at row 1.  A unit that is not a table, and a name no column bears,
    /// are checked errors; no engine call is planned for them.
    ///
    /// The column's own format code is not compared against `T`'s wire
    /// type: the engine converts between scalar representations on the
    /// fly, and rejects with its own status what it cannot convert.
    #[verifier::loop_isolation(false)]
    pub fn read_col_command<T: ReadsCol>(&self, name: &str) -> (r: Result<
        ColumnReadCommand,
        Error,
    >)
        ensures
            self.hdu_info is ImageInfo ==> (r matches Err(Error::Message(m)) && m@
                == "cannot read a column: the current unit is an image, not a table"@),
            self.hdu_info matches HduInfo::TableInfo { column_descriptions: cds, num_rows } ==> {
                &&& !spec_has_column(cds@, name@) ==> (r matches Err(Error::Message(m)) && m@
                    == "named column not found in the current table"@)
                &&& r matches Ok(cmd) ==> {
                    &&& spec_has_column(cds@, name@)
                    &&& 0 <= cmd.column_number - 1 < cds@.len()
                    &&& cds@[cmd.column_number - 1].name@ == name@
                    &&& forall|j: int|
                        0 <= j < cmd.column_number - 1 ==> (#[trigger] cds@[j]).name@ != name@
                    &&& cmd.first_row == 1
                    &&& cmd.first_element == 1
                    &&& cmd.num_elements == num_rows
                    &&& cmd.data_type == T::spec_col_type()
                }
                &&& spec_has_column(cds@, name@) && r is Err ==> (r matches Err(Error::Index(_)))
                &&& (exists|i: int|
                    0 <= i < cds@.len() && i + 1 <= i32::MAX && (#[trigger] cds@[i]).name@
                        == name@) && num_rows <= i64::MAX ==> r is Ok
            },
    {
        match &self.hdu_info {
            HduInfo::ImageInfo { .. } => Err(
                Error::Message(
                    "cannot read a column: the current unit is an image, not a table".to_owned(),
                ),
            ),
            HduInfo::TableInfo { column_descriptions, num_rows } => {
                let needle: String = name.to_owned();
                let mut i: usize = 0;
                while i < column_descriptions.len()
                    invariant
                        0 <= i <= column_descriptions@.len(),
                        forall|j: int|
                            0 <= j < i ==> (#[trigger] column_descriptions@[j]).name@ != name@,
                        needle@ == name@,
                    decreases column_descriptions@.len() - i,
                {
                    let desc = &column_descriptions[i];
                    if desc.name.eq(&needle) {
                        if i > (i32::MAX - 1) as usize {
                            return Err(
                                Error::Index(
                                    IndexError {
                                        message:
                                            "column ordinal not addressable by the engine".to_owned(),
                                        given: i..i,
                                    },
                                ),
                            );
                        }
                        if (*num_rows as u64) > (i64::MAX as u64) {
                            proof {
                                assert(i64::MAX as u64 == i64::MAX);
                            }
                            return Err(
                                Error::Index(
                                    IndexError {
                                        message:
                                            "row count not addressable by the engine".to_owned(),
                                        given: 0..*num_rows,
                                    },
                                ),
                            );
                        }
                        proof {
                            assert(i64::MAX as u64 == i64::MAX);
                        }
                        return Ok(
                            ColumnReadCommand {
                                column_number: (i as i32) + 1,
                                first_row: 1,
                                first_element: 1,
                                num_elements: *num_rows as i64,
                                data_type: T::col_type(),
                            },
                        );
                    }
                    i += 1;
                }
                Err(Error::Message("named column not found in the current table".to_owned()))
            },
        }
    }

    /// Finish a bulk column read: the engine filled `data` in place and
    /// reported `status`.  A non-zero status voids the data; data of the
    /// wrong length (the engine never does this on success) is rejected
    /// rather than handed on.
    pub fn read_col<T: ReadsCol>(&self, data: Vec<T>, status: i32) -> (r: Result<Vec<T>, Error>)
        ensures
            self.hdu_info is ImageInfo ==> (r matches Err(Error::Message(m)) && m@
                == "cannot read a column: the current unit is an image, not a table"@),
            self.hdu_info matches HduInfo::TableInfo { column_descriptions, num_rows } ==> {
                &&& status != 0 ==> (r matches Err(e) && is_engine_error(e, status))
                &&& status == 0 && data@.len() == num_rows ==> r == Ok::<Vec<T>, Error>(data)
                &&& status == 0 && data@.len() != num_rows ==> (r matches Err(Error::Message(m))
                    && m@ == "engine returned a column of the wrong length"@)
            },
            r matches Ok(v) ==> (self.hdu_info matches HduInfo::TableInfo {
                column_descriptions,
                num_rows,
            } && v@.len() == num_rows),
    {
        match &self.hdu_info {
            HduInfo::ImageInfo { .. } => Err(
                Error::Message(
                    "cannot read a column: the current unit is an image, not a table".to_owned(),
                ),
            ),
            HduInfo::TableInfo { column_descriptions: _, num_rows } => {
                if status != 0 {
                    return Err(engine_error(status));
                }
                if data.len() != *num_rows {
                    return Err(
                        Error::Message("engine returned a column of the wrong length".to_owned()),
                    );
                }
                Ok(data)
            },
        }
    }

    /// An iterator over the columns of the currently selected table, in
    /// descriptor order.  Construction against a unit that is not a
    /// table is a checked error.
    pub fn columns<'a>(&'a self) -> (r: Result<ColumnIterator<'a>, Error>)
        ensures
            self.hdu_info is ImageInfo ==> (r matches Err(Error::Message(m)) && m@
                == "cannot iterate columns: the current unit is an image, not a table"@),
            self.hdu_info matches HduInfo::TableInfo { column_descriptions, num_rows } ==> (r
                matches Ok(it) && it.current == 0 && it.column_descriptions@ == column_descriptions@
                && it.num_rows == num_rows),
    {
        ColumnIterator::new(self)
    }
}

/// What one iterator step asks the engine to do: read all rows of the
/// named column, as the given scalar wire type.
#[derive(Debug, PartialEq)]
pub struct ColumnRequest {
    /// The column's name, copied from its descriptor.
    pub name: String,
    /// The wire type the column's format code maps to.
    pub data_type: DataType,
    /// The bulk read spanning all rows of this column.
    pub command: ColumnReadCommand,
}

/// The column wire types the iterator can produce payloads for.
pub open spec fn spec_iter_supported(dt: DataType) -> bool {
    dt == DataType::TSHORT || dt == DataType::TLONG || dt == DataType::TFLOAT || dt
        == DataType::TDOUBLE
}

/// A lazy, single-pass walk over the columns of one table, in descriptor
/// order: each step plans the bulk read of the next unconsumed column.
/// The fields are exposed for specification only; treat them as
/// read-only.
#[derive(Debug)]
pub struct ColumnIterator<'a> {
    /// Position of the next unconsumed column descriptor.
    pub current: usize,
    /// The table's column descriptors, in on-disk order.
    pub column_descriptions: &'a Vec<ColumnDescription>,
    /// The table's row count; every planned read spans all of it.
    pub num_rows: usize,
}

impl<'a> ColumnIterator<'a> {
    /// Build an iterator over the columns of the table `fits_file`
    /// currently selects.  A unit that is not a table is a checked
    /// error.
    pub fn new(fits_file: &'a FitsFile) -> (r: Result<ColumnIterator<'a>, Error>)
        ensures
            fits_file.hdu_info is ImageInfo ==> (r matches Err(Error::Message(m)) && m@
                == "cannot iterate columns: the current unit is an image, not a table"@),
            fits_file.hdu_info matches HduInfo::TableInfo { column_descriptions, num_rows } ==> (r
                matches Ok(it) && it.current == 0 && it.column_descriptions@ == column_descriptions@
                && it.num_rows == num_rows),
    {
        match &fits_file.hdu_info {
            HduInfo::ImageInfo { .. } => Err(
                Error::Message(
                    "cannot iterate columns: the current unit is an image, not a table".to_owned(),
                ),
            ),
            HduInfo::TableInfo { column_descriptions, num_rows } => Ok(
                ColumnIterator { current: 0, column_descriptions, num_rows: *num_rows },
            ),
        }
    }

    /// Take the next unconsumed column descriptor, map its format code to
    /// a wire type, and plan the matching bulk read.  Yields one request
    /// per column, in descriptor order, then nothing.  A format code with
    /// no supported scalar mapping is a checked error, not silently
    /// skipped.
    pub fn next(&mut self) -> (r: Option<Result<ColumnRequest, Error>>)
        ensures
            final(self).column_descriptions == old(self).column_descriptions,
            final(self).num_rows == old(self).num_rows,
            old(self).current >= old(self).column_descriptions@.len() ==> r is None && *final(self)
                == *old(self),
            old(self).current < old(self).column_descriptions@.len() ==> final(self).current == old(
                self,
            ).current + 1 && (r matches Some(inner) && {
                let desc = old(self).column_descriptions@[old(self).current as int];
                match spec_data_type_of(desc.data_type@) {
                    Some(dt) => {
                        if !spec_iter_supported(dt) {
                            inner matches Err(Error::UnsupportedType(t)) && t@ == desc.data_type@
                        } else if old(self).current + 1 <= i32::MAX && old(self).num_rows
                            <= i64::MAX {
                            inner matches Ok(req) && req.name@ == desc.name@ && req.data_type == dt
                                && req.command == (ColumnReadCommand {
                                column_number: (old(self).current + 1) as i32,
                                first_row: 1,
                                first_element: 1,
                                num_elements: old(self).num_rows as i64,
                                data_type: dt,
                            })
                        } else {
                            inner matches Err(Error::Index(_))
                        }
                    },
                    None => inner matches Err(Error::UnsupportedType(t)) && t@ == desc.data_type@,
                }
            }),
    {
        if self.current >= self.column_descriptions.len() {
            return None;
        }
        let desc = &self.column_descriptions[self.current];
        let position = self.current;
        self.current = self.current + 1;
        let dt = match typechar_to_data_type(desc.data_type.as_str()) {
            Ok(dt) => dt,
            Err(e) => {
                return Some(Err(e));
            },
        };
        let supported = match dt {
            DataType::TSHORT => true,
            DataType::TLONG => true,
            DataType::TFLOAT => true,
            DataType::TDOUBLE => true,
            _ => false,
        };
        if !supported {
            return Some(Err(Error::UnsupportedType(desc.data_type.clone())));
        }
        if position > (i32::MAX - 1) as usize {
            return Some(
                Err(
                    Error::Index(
                        IndexError {
                            message: "column ordinal not addressable by the engine".to_owned(),
                            given: position..position,
                        },
                    ),
                ),
            );
        }
        if (self.num_rows as u64) > (i64::MAX as u64) {
            proof {
                assert(i64::MAX as u64 == i64::MAX);
            }
            return Some(
                Err(
                    Error::Index(
                        IndexError {
                            message: "row count not addressable by the engine".to_owned(),
                            given: 0..self.num_rows,
                        },
                    ),
                ),
            );
        }
        proof {
            assert(i64::MAX as u64 == i64::MAX);
        }
        Some(
            Ok(
                ColumnRequest {
                    name: desc.name.clone(),
                    data_type: dt,
                    command: ColumnReadCommand {
                        column_number: (position as i32) + 1,
                        first_row: 1,
                        first_element: 1,
                        num_elements: self.num_rows as i64,
                        data_type: dt,
                    },
                },
            ),
        )
    }
}

} // verus!
