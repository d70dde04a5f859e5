//! The file session and its cursor: classification of the currently
//! selected header/data unit, cursor moves by ordinal or by name, and the
//! 0-based/1-based boundary conversion.
//!
//! The engine holds the file and the real cursor.  Each operation here is
//! split in two verified halves: one builds the exact request the engine
//! must receive (a [`HduMove`], or a 1-based unit number), the other turns
//! the engine's raw report — an integer discriminator, axis lengths,
//! column name and format buffers, and a status code — into a
//! classification or an error.

use vstd::prelude::*;
use crate::errors::{engine_error, is_engine_error, Error, IndexError};
use crate::stringutils::{buf_to_string, spec_c_contents, spec_decode_c};

verus! {

/// What a unit holds: an ordered table of named columns, or an
/// N-dimensional image.
#[derive(Debug, PartialEq)]
pub enum HduInfo {
    ImageInfo {
        /// Number of axes.
        dimensions: usize,
        /// Length of each axis, in axis order; one entry per dimension.
        shape: Vec<usize>,
    },
    TableInfo {
        /// The table's columns, in on-disk order.
        column_descriptions: Vec<ColumnDescription>,
        /// Number of rows in the table.
        num_rows: usize,
    },
}

/// One column of a table unit: its name and its one-letter format code.
#[derive(Debug, PartialEq)]
pub struct ColumnDescription {
    /// The column's name, unique within its table (the engine enforces
    /// uniqueness, not this layer).
    pub name: String,
    /// The column's format code, such as "J", "E" or "D".
    pub data_type: String,
}

/// The raw report the engine gives about one unit, before this layer has
/// checked any of it: the per-kind answers of the engine's introspection
/// calls, verbatim.
#[derive(Debug)]
pub enum RawHdu {
    Image {
        /// The reported axis count.
        dimensions: i32,
        /// The reported axis lengths.
        shape: Vec<i64>,
    },
    Table {
        /// The reported row count.
        num_rows: i64,
        /// Per column, the NUL-terminated buffer holding its name.
        column_names: Vec<Vec<u8>>,
        /// Per column, the NUL-terminated buffer holding its format code.
        column_types: Vec<Vec<u8>>,
    },
}

/// The two kinds of unit this layer understands.
#[derive(Debug, Clone, Copy, PartialEq, Eq, Structural)]
pub enum UnitKind {
    Image,
    Table,
}

/// Decide what a unit-type discriminator read from the engine means:
/// 0 is an image, 1 and 2 are the two on-disk table encodings, anything
/// else is a checked error (an engine/layer version mismatch).  A non-zero
/// status voids the discriminator and wins.
pub fn unit_kind(hdu_type: i32, status: i32) -> (r: Result<UnitKind, Error>)
    ensures
        status != 0 ==> (r matches Err(e) && is_engine_error(e, status)),
        status == 0 && hdu_type == 0 ==> r == Ok::<UnitKind, Error>(UnitKind::Image),
        status == 0 && (hdu_type == 1 || hdu_type == 2) ==> r == Ok::<UnitKind, Error>(
            UnitKind::Table,
        ),
        status == 0 && !(0 <= hdu_type <= 2) ==> (r matches Err(Error::Message(m)) && m@
            == "unrecognized unit type discriminator"@),
{
    if status != 0 {
        Err(engine_error(status))
    } else if hdu_type == 0 {
        Ok(UnitKind::Image)
    } else if hdu_type == 1 || hdu_type == 2 {
        Ok(UnitKind::Table)
    } else {
        Err(Error::Message("unrecognized unit type discriminator".to_owned()))
    }
}

/// Both per-column buffer lists have one entry per column, and every
/// buffer decodes as text.
pub open spec fn spec_cols_decodable(names: Seq<Vec<u8>>, types: Seq<Vec<u8>>) -> bool {
    &&& names.len() == types.len()
    &&& forall|i: int|
        0 <= i < names.len() ==> (#[trigger] spec_decode_c(names[i]@)) is Some && spec_decode_c(
            types[i]@,
        ) is Some
}

/// The engine's raw report is consistent and representable: axis counts
/// and lengths and row counts are non-negative and fit the address space,
/// and every column buffer decodes as text.
pub open spec fn raw_well_formed(raw: RawHdu) -> bool {
    match raw {
        RawHdu::Image { dimensions, shape } => {
            &&& dimensions >= 0
            &&& shape@.len() == dimensions
            &&& forall|i: int| 0 <= i < shape@.len() ==> 0 <= #[trigger] shape@[i] <= usize::MAX
        },
        RawHdu::Table { num_rows, column_names, column_types } => {
            &&& 0 <= num_rows <= usize::MAX
            &&& spec_cols_decodable(column_names@, column_types@)
        },
    }
}

/// `info` is exactly the classification of the well-formed report `raw`.
pub open spec fn info_matches(raw: RawHdu, info: HduInfo) -> bool {
    match raw {
        RawHdu::Image { dimensions, shape } => {
            &&& info matches HduInfo::ImageInfo { dimensions: d, shape: s }
            &&& d == dimensions as usize
            &&& s@.len() == shape@.len()
            &&& forall|i: int| 0 <= i < shape@.len() ==> #[trigger] s@[i] == shape@[i] as usize
        },
        RawHdu::Table { num_rows, column_names, column_types } => {
            &&& info matches HduInfo::TableInfo { column_descriptions: cds, num_rows: nr }
            &&& nr == num_rows as usize
            &&& cds@.len() == column_names@.len()
            &&& forall|i: int|
                0 <= i < cds@.len() ==> spec_decode_c(column_names@[i]@) == Some(
                    (#[trigger] cds@[i]).name@,
                ) && spec_decode_c(column_types@[i]@) == Some(cds@[i].data_type@)
        },
    }
}

/// The description of the first inconsistency in a raw report, if any;
/// column buffers that fail to decode are not covered here (they raise a
/// text error instead).
pub open spec fn spec_classify_fault(raw: RawHdu) -> Option<Seq<char>> {
    match raw {
        RawHdu::Image { dimensions, shape } => {
            if dimensions < 0 {
                Some("image unit reported a negative axis count"@)
            } else if shape@.len() != dimensions {
                Some("image unit shape does not match its axis count"@)
            } else if exists|i: int|
                0 <= i < shape@.len() && !(0 <= #[trigger] shape@[i] <= usize::MAX) {
                Some("image unit reported an axis length out of range"@)
            } else {
                None
            }
        },
        RawHdu::Table { num_rows, column_names, column_types } => {
            if !(0 <= num_rows <= usize::MAX) {
                Some("table unit reported a row count out of range"@)
            } else if column_names@.len() != column_types@.len() {
                Some("table unit reported mismatched column name and type lists"@)
            } else {
                None
            }
        },
    }
}

/// The buffer at position `i` is the first one of the report that does
/// not decode as text, and `b` is its offending contents.
pub open spec fn spec_col_fault_at(
    names: Seq<Vec<u8>>,
    types: Seq<Vec<u8>>,
    i: int,
    b: Seq<u8>,
) -> bool {
    &&& 0 <= i < names.len()
    &&& forall|j: int|
        0 <= j < i ==> (#[trigger] spec_decode_c(names[j]@)) is Some && spec_decode_c(
            types[j]@,
        ) is Some
    &&& if spec_decode_c(names[i]@) is None {
        b == spec_c_contents(names[i]@)
    } else {
        &&& spec_decode_c(types[i]@) is None
        &&& b == spec_c_contents(types[i]@)
    }
}

/// `b` is the contents of the first column buffer of the report that does
/// not decode as text.
pub open spec fn spec_utf8_fault(raw: RawHdu, b: Seq<u8>) -> bool {
    &&& raw matches RawHdu::Table { num_rows, column_names, column_types }
    &&& exists|i: int| spec_col_fault_at(column_names@, column_types@, i, b)
}

/// The full contract of classification: relates the engine's raw report
/// and accumulated status to the classification or error that
/// [`fetch_hdu_info`] returns.  A non-zero status wins over everything;
/// then the report's own consistency is checked; then its column buffers
/// are decoded, first failure first.
pub open spec fn classify_post(raw: RawHdu, status: i32, r: Result<HduInfo, Error>) -> bool {
    match r {
        Ok(info) => status == 0 && raw_well_formed(raw) && info_matches(raw, info),
        Err(e) => match e {
            Error::Fits(f) => status != 0 && crate::errors::is_fits_error(f, status),
            Error::Message(m) => status == 0 && spec_classify_fault(raw) == Some(m@),
            Error::Utf8(b) => status == 0 && spec_classify_fault(raw) is None && spec_utf8_fault(
                raw,
                b@,
            ),
            _ => false,
        },
    }
}

/// Classify a unit from the engine's raw report and the status its
/// introspection calls accumulated.  A non-zero status is translated and
/// returned instead of any partially assembled classification.
#[verifier::loop_isolation(false)]
pub fn fetch_hdu_info(raw: RawHdu, status: i32) -> (r: Result<HduInfo, Error>)
    ensures
        classify_post(raw, status, r),
        r is Ok <==> status == 0 && raw_well_formed(raw),
{
    if status != 0 {
        return Err(engine_error(status));
    }
    match raw {
        RawHdu::Image { dimensions, shape } => {
            if dimensions < 0 {
                return Err(Error::Message("image unit reported a negative axis count".to_owned()));
            }
            if shape.len() != dimensions as usize {
                return Err(
                    Error::Message("image unit shape does not match its axis count".to_owned()),
                );
            }
            let mut out: Vec<usize> = Vec::new();
            let mut i: usize = 0;
            while i < shape.len()
                invariant
                    0 <= i <= shape@.len(),
                    out@.len() == i,
                    forall|j: int| 0 <= j < i ==> 0 <= #[trigger] shape@[j] <= usize::MAX,
                    forall|j: int| 0 <= j < i ==> #[trigger] out@[j] == shape@[j] as usize,
                decreases shape@.len() - i,
            {
                let v = shape[i];
                if v < 0 || (v as u64) > (usize::MAX as u64) {
                    proof {
                        assert(usize::MAX as u64 == usize::MAX);
                        assert(v >= 0 ==> v as u64 == v);
                        assert(!(0 <= shape@[i as int] <= usize::MAX));
                    }
                    return Err(
                        Error::Message(
                            "image unit reported an axis length out of range".to_owned(),
                        ),
                    );
                }
                proof {
                    assert(usize::MAX as u64 == usize::MAX);
                    assert(v as u64 == v);
                    assert(0 <= shape@[i as int] <= usize::MAX);
                }
                out.push(v as usize);
                i += 1;
            }
            Ok(HduInfo::ImageInfo { dimensions: dimensions as usize, shape: out })
        },
        RawHdu::Table { num_rows, column_names, column_types } => {
            if num_rows < 0 || (num_rows as u64) > (usize::MAX as u64) {
                proof {
                    assert(usize::MAX as u64 == usize::MAX);
                    assert(num_rows >= 0 ==> num_rows as u64 == num_rows);
                }
                return Err(
                    Error::Message("table unit reported a row count out of range".to_owned()),
                );
            }
            proof {
                assert(usize::MAX as u64 == usize::MAX);
                assert(num_rows as u64 == num_rows);
                assert(0 <= num_rows <= usize::MAX);
            }
            if column_names.len() != column_types.len() {
                return Err(
                    Error::Message(
                        "table unit reported mismatched column name and type lists".to_owned(),
                    ),
                );
            }
            let mut descs: Vec<ColumnDescription> = Vec::new();
            let mut i: usize = 0;
            while i < column_names.len()
                invariant
                    0 <= i <= column_names@.len(),
                    column_names@.len() == column_types@.len(),
                    descs@.len() == i,
                    forall|j: int|
                        0 <= j < i ==> (#[trigger] spec_decode_c(column_names@[j]@)) is Some
                            && spec_decode_c(column_types@[j]@) is Some,
                    forall|j: int|
                        0 <= j < i ==> spec_decode_c(column_names@[j]@) == Some(
                            (#[trigger] descs@[j]).name@,
                        ) && spec_decode_c(column_types@[j]@) == Some(descs@[j].data_type@),
                decreases column_names@.len() - i,
            {
                let name = match buf_to_string(&column_names[i]) {
                    Ok(n) => n,
                    Err(e) => {
                        proof {
                            assert(spec_col_fault_at(
                                column_names@,
                                column_types@,
                                i as int,
                                spec_c_contents(column_names@[i as int]@),
                            ));
                        }
                        return Err(e);
                    },
                };
                let data_type = match buf_to_string(&column_types[i]) {
                    Ok(t) => t,
                    Err(e) => {
                        proof {
                            assert(spec_col_fault_at(
                                column_names@,
                                column_types@,
                                i as int,
                                spec_c_contents(column_types@[i as int]@),
                            ));
                        }
                        return Err(e);
                    },
                };
                descs.push(ColumnDescription { name, data_type });
                i += 1;
            }
            Ok(HduInfo::TableInfo { column_descriptions: descs, num_rows: num_rows as usize })
        },
    }
}

/// Classification is a function of the engine's report alone.  Two
/// classifications of equal reports — repeated queries of an unmoved
/// cursor, or queries after reaching one unit by ordinal and by name —
/// agree on everything observable.
pub proof fn lemma_classification_deterministic(
    raw1: RawHdu,
    status1: i32,
    r1: Result<HduInfo, Error>,
    raw2: RawHdu,
    status2: i32,
    r2: Result<HduInfo, Error>,
)
    requires
        raw1 == raw2,
        status1 == status2,
        classify_post(raw1, status1, r1),
        classify_post(raw2, status2, r2),
    ensures
        r1 is Ok <==> r2 is Ok,
        r1 is Ok && r2 is Ok ==> hdu_info_same(r1->Ok_0, r2->Ok_0),
{
    if r1 is Ok && r2 is Ok {
        let info1 = r1->Ok_0;
        let info2 = r2->Ok_0;
        match raw1 {
            RawHdu::Image { dimensions, shape } => {
                match (info1, info2) {
                    (
                        HduInfo::ImageInfo { dimensions: d1, shape: s1 },
                        HduInfo::ImageInfo { dimensions: d2, shape: s2 },
                    ) => {
                        assert(s1@ =~= s2@);
                    },
                    _ => {},
                }
            },
            RawHdu::Table { num_rows, column_names, column_types } => {
                match (info1, info2) {
                    (
                        HduInfo::TableInfo { column_descriptions: c1, num_rows: n1 },
                        HduInfo::TableInfo { column_descriptions: c2, num_rows: n2 },
                    ) => {
                        assert forall|i: int| 0 <= i < c1@.len() implies (#[trigger] c1@[i]).name@
                            == (#[trigger] c2@[i]).name@ && c1@[i].data_type@
                            == c2@[i].data_type@ by {
                            assert(spec_decode_c(column_names@[i]@) == Some(c1@[i].name@));
                            assert(spec_decode_c(column_names@[i]@) == Some(c2@[i].name@));
                            assert(spec_decode_c(column_types@[i]@) == Some(c1@[i].data_type@));
                            assert(spec_decode_c(column_types@[i]@) == Some(c2@[i].data_type@));
                        }
                    },
                    _ => {},
                }
            },
        }
    }
}

/// The two classifications describe the same unit: same variant, same
/// dimensions and shape, or same row count and the same column names and
/// format codes in the same order.
pub open spec fn hdu_info_same(a: HduInfo, b: HduInfo) -> bool {
    match (a, b) {
        (
            HduInfo::ImageInfo { dimensions: d1, shape: s1 },
            HduInfo::ImageInfo { dimensions: d2, shape: s2 },
        ) => d1 == d2 && s1@ == s2@,
        (
            HduInfo::TableInfo { column_descriptions: c1, num_rows: n1 },
            HduInfo::TableInfo { column_descriptions: c2, num_rows: n2 },
        ) => {
            &&& n1 == n2
            &&& c1@.len() == c2@.len()
            &&& forall|i: int|
                0 <= i < c1@.len() ==> (#[trigger] c1@[i]).name@ == (#[trigger] c2@[i]).name@
                    && c1@[i].data_type@ == c2@[i].data_type@
        },
        _ => false,
    }
}

/// A cursor move, ready to hand to the engine: either an absolute 1-based
/// unit number, or a case-insensitive name search over any unit kind.
#[derive(Debug, PartialEq)]
pub enum HduMove {
    Absolute {
        /// The engine's 1-based unit number.
        hdu_number: i32,
    },
    ByName {
        /// The unit name to search for; the engine matches it
        /// case-insensitively.
        name: String,
        /// The engine's code for "any unit kind".
        hdu_type: i32,
        /// The version discriminator; 0 asks for any version.
        ext_version: i32,
    },
}

/// Convert a 0-based unit ordinal of this API to the engine's 1-based
/// unit number.  An ordinal the engine cannot address is a checked error,
/// never an overflow.
pub fn ordinal_to_hdu_number(ordinal: usize) -> (r: Result<i32, Error>)
    ensures
        ordinal + 1 <= i32::MAX ==> (r matches Ok(n) && n == ordinal + 1),
        ordinal + 1 > i32::MAX ==> (r matches Err(Error::Index(e)) && e.message@
            == "unit ordinal not addressable by the engine"@ && e.given.start == ordinal
            && e.given.end == ordinal),
{
    if ordinal <= (i32::MAX - 1) as usize {
        Ok((ordinal as i32) + 1)
    } else {
        Err(
            Error::Index(
                IndexError {
                    message: "unit ordinal not addressable by the engine".to_owned(),
                    given: ordinal..ordinal,
                },
            ),
        )
    }
}

/// Convert the engine's 1-based current-unit number to this API's 0-based
/// ordinal.
pub fn hdu_number_to_ordinal(hdu_number: i32) -> (r: Result<usize, Error>)
    ensures
        hdu_number >= 1 ==> (r matches Ok(o) && o == hdu_number - 1),
        hdu_number < 1 ==> (r matches Err(Error::Message(m)) && m@
            == "engine reported a unit number below 1"@),
{
    if hdu_number >= 1 {
        Ok((hdu_number - 1) as usize)
    } else {
        Err(Error::Message("engine reported a unit number below 1".to_owned()))
    }
}

/// Round trip of the addressing boundary: converting an ordinal to the
/// engine's 1-based numbering and reading it back yields the ordinal.
/// Moving to a valid ordinal and asking for the current position returns
/// exactly that ordinal.
pub proof fn lemma_ordinal_round_trip(ordinal: usize, n: i32, back: usize)
    requires
        n == ordinal + 1,
        back == n - 1,
    ensures
        back == ordinal,
{
}

/// Any way of describing a unit to move the cursor to: an ordinal, or a
/// name to search for.
pub trait DescribesHdu {
    /// Whether the engine can address this description at all.
    spec fn spec_representable(&self) -> bool;

    /// Holds when `m` is exactly the engine move this description
    /// denotes.
    spec fn spec_describes(&self, m: HduMove) -> bool;

    /// Build the engine cursor move this description denotes.
    fn change_hdu(&self) -> (r: Result<HduMove, Error>)
        ensures
            self.spec_representable() ==> (r matches Ok(m) && self.spec_describes(m)),
            !self.spec_representable() ==> (r matches Err(Error::Index(_))),
    ;
}

impl DescribesHdu for usize {
    /// A 0-based ordinal is representable when its 1-based counterpart
    /// fits the engine's unit numbering.
    open spec fn spec_representable(&self) -> bool {
        *self + 1 <= i32::MAX
    }

    open spec fn spec_describes(&self, m: HduMove) -> bool {
        m matches HduMove::Absolute { hdu_number } && hdu_number == *self + 1
    }

    fn change_hdu(&self) -> (r: Result<HduMove, Error>) {
        match ordinal_to_hdu_number(*self) {
            Ok(n) => Ok(HduMove::Absolute { hdu_number: n }),
            Err(e) => Err(e),
        }
    }
}

impl<'a> DescribesHdu for &'a str {
    /// A name search can always be addressed to the engine.
    open spec fn spec_representable(&self) -> bool {
        true
    }

    /// The search asks for any unit kind (code -1) and any version.
    open spec fn spec_describes(&self, m: HduMove) -> bool {
        m matches HduMove::ByName { name, hdu_type, ext_version } && name@ == self@ && hdu_type
            == -1 && ext_version == 0
    }

    fn change_hdu(&self) -> (r: Result<HduMove, Error>) {
        Ok(HduMove::ByName { name: (*self).to_owned(), hdu_type: -1, ext_version: 0 })
    }
}

/// The creation of a new table unit, ready to hand to the engine: the
/// unit's name and its column schema, in column order.
#[derive(Debug, PartialEq)]
pub struct TableCreateCommand {
    /// The new unit's name.
    pub extname: String,
    /// The engine's code for a binary table unit.
    pub hdu_type: i32,
    /// How many rows the new table starts with; always 0 here.
    pub initial_rows: i64,
    /// The column names, in column order.
    pub column_names: Vec<String>,
    /// The column format codes, in column order.
    pub column_types: Vec<String>,
}

/// One session over one file: the file's path, and the classification of
/// the unit the cursor currently selects, recomputed fresh on every move.
/// The engine's handle backing the session lives with the caller that
/// drives the engine; duplication of a session is done by opening the
/// same path again, never by sharing a handle.
#[derive(Debug)]
pub struct FitsFile {
    /// The path this session was opened with.
    pub filename: String,
    /// Classification of the currently selected unit.
    pub hdu_info: HduInfo,
}

impl FitsFile {
    /// Finish opening a session: classify the first unit from the
    /// engine's report.  If that classification fails, the whole open
    /// fails.
    pub fn open(filename: &str, raw: RawHdu, status: i32) -> (r: Result<FitsFile, Error>)
        ensures
            r matches Ok(f) ==> f.filename@ == filename@ && classify_post(
                raw,
                status,
                Ok::<HduInfo, Error>(f.hdu_info),
            ),
            r matches Err(e) ==> classify_post(raw, status, Err::<HduInfo, Error>(e)),
            r is Ok <==> status == 0 && raw_well_formed(raw),
    {
        match fetch_hdu_info(raw, status) {
            Ok(info) => Ok(FitsFile { filename: filename.to_owned(), hdu_info: info }),
            Err(e) => Err(e),
        }
    }

    /// Finish creating a session over a fresh file: the engine has just
    /// written the minimal first unit, an image with zero axes, so the
    /// new session's cursor selects exactly that.
    pub fn create(path: &str, status: i32) -> (r: Result<FitsFile, Error>)
        ensures
            status == 0 ==> (r matches Ok(f) && f.filename@ == path@ && (f.hdu_info
                matches HduInfo::ImageInfo { dimensions: 0, shape } && shape@.len() == 0)),
            status != 0 ==> (r matches Err(e) && is_engine_error(e, status)),
    {
        if status != 0 {
            return Err(engine_error(status));
        }
        Ok(
            FitsFile {
                filename: path.to_owned(),
                hdu_info: HduInfo::ImageInfo { dimensions: 0, shape: Vec::new() },
            },
        )
    }

    /// Build the cursor move for a unit description; the engine performs
    /// it.  Delegates to the description itself.
    pub fn change_hdu<T: DescribesHdu>(&self, hdu_description: T) -> (r: Result<HduMove, Error>)
        ensures
            hdu_description.spec_representable() ==> (r matches Ok(m)
                && hdu_description.spec_describes(m)),
            !hdu_description.spec_representable() ==> (r matches Err(Error::Index(_))),
    {
        hdu_description.change_hdu()
    }

    /// Plan the creation of a new binary table unit: hand the engine the
    /// unit's name and the column names and format codes, in column
    /// order, starting with no rows.
    pub fn create_table(
        &self,
        extname: String,
        table_description: &Vec<ColumnDescription>,
    ) -> (c: TableCreateCommand)
        ensures
            c.extname == extname,
            c.hdu_type == 2,
            c.initial_rows == 0,
            c.column_names@.len() == table_description@.len(),
            c.column_types@.len() == table_description@.len(),
            forall|i: int|
                0 <= i < table_description@.len() ==> (#[trigger] c.column_names@[i])@
                    == table_description@[i].name@ && c.column_types@[i]@
                    == table_description@[i].data_type@,
    {
        let mut column_names: Vec<String> = Vec::new();
        let mut column_types: Vec<String> = Vec::new();
        let mut i: usize = 0;
        while i < table_description.len()
            invariant
                0 <= i <= table_description@.len(),
                column_names@.len() == i,
                column_types@.len() == i,
                forall|j: int|
                    0 <= j < i ==> (#[trigger] column_names@[j])@ == table_description@[j].name@
                        && column_types@[j]@ == table_description@[j].data_type@,
            decreases table_description@.len() - i,
        {
            let desc = &table_description[i];
            column_names.push(desc.name.clone());
            column_types.push(desc.data_type.clone());
            i += 1;
        }
        TableCreateCommand { extname, hdu_type: 2, initial_rows: 0, column_names, column_types }
    }

    /// Finish a cursor move: take the move's status and the engine's
    /// report about the newly selected unit, and store that unit's fresh
    /// classification.  On a failed move the stored classification is
    /// left as it was, but the engine's cursor position after a failure
    /// is engine-defined: callers must not assume the prior unit is still
    /// selected.
    pub fn hdu(&mut self, move_status: i32, raw: RawHdu, status: i32) -> (r: Result<(), Error>)
        ensures
            final(self).filename == old(self).filename,
            move_status != 0 ==> (r matches Err(e) && is_engine_error(e, move_status))
                && *final(self) == *old(self),
            move_status == 0 ==> match r {
                Ok(_) => classify_post(raw, status, Ok::<HduInfo, Error>(final(self).hdu_info)),
                Err(e) => classify_post(raw, status, Err::<HduInfo, Error>(e))
                    && *final(self) == *old(self),
            },
            r is Ok <==> move_status == 0 && status == 0 && raw_well_formed(raw),
    {
        if move_status != 0 {
            return Err(engine_error(move_status));
        }
        match fetch_hdu_info(raw, status) {
            Ok(info) => {
                self.hdu_info = info;
                Ok(())
            },
            Err(e) => Err(e),
        }
    }
}

} // verus!
