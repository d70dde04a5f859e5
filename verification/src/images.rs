//! Reading image pixels: a contiguous section of the flattened pixel
//! order, or an axis-aligned rectangle of a 2-D image.  Both planners do
//! all 0-based/1-based conversion and bounds validation before anything
//! reaches the engine.

use vstd::prelude::*;
use crate::datatype::DataType;
use crate::errors::{engine_error, is_engine_error, Error, IndexError};
use crate::fitsfile::{FitsFile, HduInfo};

verus! {

/// A pixel position in a 2-D image, 0-based on both axes.
#[derive(Debug, Clone, Copy, PartialEq, Eq, Structural)]
pub struct Coordinate {
    /// Position along the first (fastest-varying) axis.
    pub x: usize,
    /// Position along the second axis.
    pub y: usize,
}

/// A contiguous read in the image's flattened pixel order, ready to hand
/// to the engine.
#[derive(Debug, Clone, Copy, PartialEq, Eq, Structural)]
pub struct SectionReadCommand {
    /// The engine's 1-based number of the first pixel to read.
    pub first_pixel: i64,
    /// How many pixels to read.
    pub num_elements: i64,
    /// The wire type of the scalar being read.
    pub data_type: DataType,
}

/// A rectangular read from a 2-D image, ready to hand to the engine;
/// both corners are the engine's 1-based pixel coordinates, inclusive.
#[derive(Debug, Clone, Copy, PartialEq, Eq)]
pub struct RegionReadCommand {
    /// The engine's 1-based coordinates of the lower-left corner.
    pub first_pixel: (i64, i64),
    /// The engine's 1-based coordinates of the upper-right corner,
    /// inclusive.
    pub last_pixel: (i64, i64),
    /// Step along each axis; always one, no sub-sampling.
    pub increments: (i64, i64),
    /// How many pixels the rectangle holds, both bounds inclusive.
    pub num_elements: i64,
    /// The wire type of the scalar being read.
    pub data_type: DataType,
}

/// A scalar that image pixels can be read as: it knows its wire type and
/// the zero value the read buffer is pre-filled with.
pub trait ReadsImage: Sized {
    /// The zero value this scalar's read buffers start out as.
    spec fn spec_zero() -> Self;

    /// The wire type the engine reads this scalar as.
    spec fn spec_image_type() -> DataType;

    /// The zero value this scalar's read buffers start out as.
    fn zero() -> (r: Self)
        ensures
            r == Self::spec_zero(),
    ;

    /// The wire type the engine reads this scalar as.
    fn image_type() -> (d: DataType)
        ensures
            d == Self::spec_image_type(),
    ;
}

impl ReadsImage for i8 {
    open spec fn spec_zero() -> i8 {
        0
    }

    open spec fn spec_image_type() -> DataType {
        DataType::TSHORT
    }

    fn zero() -> i8 {
        0
    }

    fn image_type() -> DataType {
        DataType::TSHORT
    }
}

impl ReadsImage for u8 {
    open spec fn spec_zero() -> u8 {
        0
    }

    open spec fn spec_image_type() -> DataType {
        DataType::TUSHORT
    }

    fn zero() -> u8 {
        0
    }

    fn image_type() -> DataType {
        DataType::TUSHORT
    }
}

impl ReadsImage for i32 {
    open spec fn spec_zero() -> i32 {
        0
    }

    open spec fn spec_image_type() -> DataType {
        DataType::TINT
    }

    fn zero() -> i32 {
        0
    }

    fn image_type() -> DataType {
        DataType::TINT
    }
}

impl ReadsImage for u32 {
    open spec fn spec_zero() -> u32 {
        0
    }

    open spec fn spec_image_type() -> DataType {
        DataType::TUINT
    }

    fn zero() -> u32 {
        0
    }

    fn image_type() -> DataType {
        DataType::TUINT
    }
}

impl ReadsImage for i64 {
    open spec fn spec_zero() -> i64 {
        0
    }

    open spec fn spec_image_type() -> DataType {
        DataType::TLONG
    }

    fn zero() -> i64 {
        0
    }

    fn image_type() -> DataType {
        DataType::TLONG
    }
}

impl ReadsImage for u64 {
    open spec fn spec_zero() -> u64 {
        0
    }

    open spec fn spec_image_type() -> DataType {
        DataType::TULONG
    }

    fn zero() -> u64 {
        0
    }

    fn image_type() -> DataType {
        DataType::TULONG
    }
}

/// The buffer a pixel read fills: one zero per requested pixel.
pub fn image_buffer<T: ReadsImage>(num_elements: usize) -> (r: Vec<T>)
    ensures
        r@.len() == num_elements,
        forall|i: int| 0 <= i < num_elements ==> r@[i] == T::spec_zero(),
{
    let mut out: Vec<T> = Vec::new();
    let mut i: usize = 0;
    while i < num_elements
        invariant
            0 <= i <= num_elements,
            out@.len() == i,
            forall|j: int| 0 <= j < i ==> out@[j] == T::spec_zero(),
        decreases num_elements - i,
    {
        out.push(T::zero());
        i += 1;
    }
    out
}

/// The engine pixel numbers a section `[start, end)` covers: 1-based,
/// from `start + 1` through `end`.
pub open spec fn spec_section_pixels(start: int, end: int) -> Set<int> {
    Set::new(|p: int| start + 1 <= p <= end)
}

/// A section command built for `[start, end)` covers exactly the pixels
/// of `spec_section_pixels(start, end)`: its first pixel is `start + 1`
/// and it spans `end - start` consecutive pixels.
pub proof fn lemma_section_command_pixels(start: int, end: int, cmd: SectionReadCommand)
    requires
        start <= end,
        cmd.first_pixel == start + 1,
        cmd.num_elements == end - start,
    ensures
        forall|p: int|
            cmd.first_pixel <= p < cmd.first_pixel + cmd.num_elements <==> spec_section_pixels(
                start,
                end,
            ).contains(p),
{
}

/// Adjacent sections tile: the sections `[0, n)` and `[n, 2n)` cover
/// disjoint pixel ranges whose union is exactly what the section
/// `[0, 2n)` covers, with the second starting right after the first
/// ends.  Two adjacent section reads are therefore disjoint, contiguous
/// and concatenation-consistent with one read of the whole range.
pub proof fn lemma_section_concatenation(n: int)
    requires
        n >= 0,
    ensures
        spec_section_pixels(0, n).disjoint(spec_section_pixels(n, 2 * n)),
        spec_section_pixels(0, n).union(spec_section_pixels(n, 2 * n)) =~= spec_section_pixels(
            0,
            2 * n,
        ),
{
}

impl FitsFile {
    /// Plan a contiguous read of `end - start` pixels beginning at
    /// 0-based offset `start` in the flattened pixel order of the
    /// currently selected image.  A unit that is not an image, an
    /// inverted range, and a range the engine cannot address are checked
    /// errors; no engine call is planned for them.
    pub fn read_section_command<T: ReadsImage>(&self, start: usize, end: usize) -> (r: Result<
        SectionReadCommand,
        Error,
    >)
        ensures
            self.hdu_info is TableInfo ==> (r matches Err(Error::Message(m)) && m@
                == "cannot read image pixels: the current unit is a table, not an image"@),
            self.hdu_info is ImageInfo && start > end ==> (r matches Err(Error::Index(e))
                && e.message@ == "image section start is beyond its end"@ && e.given.start == start
                && e.given.end == end),
            self.hdu_info is ImageInfo && start <= end && end + 1 <= i64::MAX ==> (r matches Ok(
                cmd,
            ) && cmd == (SectionReadCommand {
                first_pixel: (start + 1) as i64,
                num_elements: (end - start) as i64,
                data_type: T::spec_image_type(),
            })),
            self.hdu_info is ImageInfo && start <= end && end + 1 > i64::MAX ==> (r matches Err(
                Error::Index(e),
            ) && e.message@ == "image section not addressable by the engine"@),
    {
        match &self.hdu_info {
            HduInfo::TableInfo { .. } => Err(
                Error::Message(
                    "cannot read image pixels: the current unit is a table, not an image".to_owned(
                    ),
                ),
            ),
            HduInfo::ImageInfo { .. } => {
                if start > end {
                    return Err(
                        Error::Index(
                            IndexError {
                                message: "image section start is beyond its end".to_owned(),
                                given: start..end,
                            },
                        ),
                    );
                }
                proof {
                    assert(i64::MAX as u64 == i64::MAX);
                }
                if (end as u64) > (i64::MAX - 1) as u64 {
                    return Err(
                        Error::Index(
                            IndexError {
                                message: "image section not addressable by the engine".to_owned(),
                                given: start..end,
                            },
                        ),
                    );
                }
                Ok(
                    SectionReadCommand {
                        first_pixel: (start as i64) + 1,
                        num_elements: (end - start) as i64,
                        data_type: T::image_type(),
                    },
                )
            },
        }
    }

    /// Finish a contiguous pixel read planned for `[start, end)`: the
    /// engine filled `data` in place and reported `status`.  A non-zero
    /// status voids the data; data of the wrong length is rejected
    /// rather than handed on.
    pub fn read_section<T: ReadsImage>(
        &self,
        start: usize,
        end: usize,
        data: Vec<T>,
        status: i32,
    ) -> (r: Result<Vec<T>, Error>)
        ensures
            self.hdu_info is TableInfo ==> (r matches Err(Error::Message(m)) && m@
                == "cannot read image pixels: the current unit is a table, not an image"@),
            self.hdu_info is ImageInfo && start > end ==> (r matches Err(Error::Index(e))
                && e.message@ == "image section start is beyond its end"@ && e.given.start == start
                && e.given.end == end),
            self.hdu_info is ImageInfo && start <= end ==> {
                &&& status != 0 ==> (r matches Err(e) && is_engine_error(e, status))
                &&& status == 0 && data@.len() == end - start ==> r == Ok::<Vec<T>, Error>(data)
                &&& status == 0 && data@.len() != end - start ==> (r matches Err(Error::Message(m))
                    && m@ == "engine returned an image section of the wrong length"@)
            },
            r matches Ok(v) ==> (self.hdu_info is ImageInfo && start <= end && v@.len() == end
                - start),
    {
        match &self.hdu_info {
            HduInfo::TableInfo { .. } => Err(
                Error::Message(
                    "cannot read image pixels: the current unit is a table, not an image".to_owned(
                    ),
                ),
            ),
            HduInfo::ImageInfo { .. } => {
                if start > end {
                    return Err(
                        Error::Index(
                            IndexError {
                                message: "image section start is beyond its end".to_owned(),
                                given: start..end,
                            },
                        ),
                    );
                }
                if status != 0 {
                    return Err(engine_error(status));
                }
                if data.len() != end - start {
                    return Err(
                        Error::Message(
                            "engine returned an image section of the wrong length".to_owned(),
                        ),
                    );
                }
                Ok(data)
            },
        }
    }

    /// Plan a rectangular read from the currently selected 2-D image:
    /// both corners are given 0-based and are converted to the engine's
    /// 1-based coordinates, with a unit step along both axes.  Both
    /// bounds count as inside the rectangle, so it holds
    /// `(upper_right.x - lower_left.x + 1) * (upper_right.y - lower_left.y + 1)`
    /// pixels.
    pub fn read_region_command<T: ReadsImage>(
        &self,
        lower_left: &Coordinate,
        upper_right: &Coordinate,
    ) -> (r: Result<RegionReadCommand, Error>)
        ensures
            self.hdu_info is TableInfo ==> (r matches Err(Error::Message(m)) && m@
                == "cannot read image pixels: the current unit is a table, not an image"@),
            self.hdu_info is ImageInfo && upper_right.x < lower_left.x ==> (r matches Err(
                Error::Index(e),
            ) && e.message@ == "image region is inverted along the first axis"@ && e.given.start
                == lower_left.x && e.given.end == upper_right.x),
            self.hdu_info is ImageInfo && upper_right.x >= lower_left.x && upper_right.y
                < lower_left.y ==> (r matches Err(Error::Index(e)) && e.message@
                == "image region is inverted along the second axis"@ && e.given.start
                == lower_left.y && e.given.end == upper_right.y),
            self.hdu_info is ImageInfo && upper_right.x >= lower_left.x && upper_right.y
                >= lower_left.y && upper_right.x + 1 <= i64::MAX && upper_right.y + 1 <= i64::MAX
                && (upper_right.x - lower_left.x + 1) * (upper_right.y - lower_left.y + 1)
                <= i64::MAX ==> (r matches Ok(cmd) && cmd == (RegionReadCommand {
                first_pixel: ((lower_left.x + 1) as i64, (lower_left.y + 1) as i64),
                last_pixel: ((upper_right.x + 1) as i64, (upper_right.y + 1) as i64),
                increments: (1, 1),
                num_elements: ((upper_right.x - lower_left.x + 1) * (upper_right.y - lower_left.y
                    + 1)) as i64,
                data_type: T::spec_image_type(),
            })),
            self.hdu_info is ImageInfo && upper_right.x >= lower_left.x && upper_right.y
                >= lower_left.y && !(upper_right.x + 1 <= i64::MAX && upper_right.y + 1 <= i64::MAX
                && (upper_right.x - lower_left.x + 1) * (upper_right.y - lower_left.y + 1)
                <= i64::MAX) ==> (r matches Err(Error::Index(e)) && e.message@
                == "image region not addressable by the engine"@),
    {
        match &self.hdu_info {
            HduInfo::TableInfo { .. } => Err(
                Error::Message(
                    "cannot read image pixels: the current unit is a table, not an image".to_owned(
                    ),
                ),
            ),
            HduInfo::ImageInfo { .. } => {
                if upper_right.x < lower_left.x {
                    return Err(
                        Error::Index(
                            IndexError {
                                message: "image region is inverted along the first axis".to_owned(),
                                given: lower_left.x..upper_right.x,
                            },
                        ),
                    );
                }
                if upper_right.y < lower_left.y {
                    return Err(
                        Error::Index(
                            IndexError {
                                message: "image region is inverted along the second axis".to_owned(
                                ),
                                given: lower_left.y..upper_right.y,
                            },
                        ),
                    );
                }
                proof {
                    assert(i64::MAX as u64 == i64::MAX);
                }
                if (upper_right.x as u64) > (i64::MAX - 1) as u64 || (upper_right.y as u64) > (
                i64::MAX - 1) as u64 {
                    return Err(
                        Error::Index(
                            IndexError {
                                message: "image region not addressable by the engine".to_owned(),
                                given: lower_left.x..upper_right.x,
                            },
                        ),
                    );
                }
                let nx: u128 = (upper_right.x as u128) - (lower_left.x as u128) + 1;
                let ny: u128 = (upper_right.y as u128) - (lower_left.y as u128) + 1;
                proof {
                    assert(nx * ny <= 0x8000_0000_0000_0000u128 * 0x8000_0000_0000_0000u128)
                        by (nonlinear_arith)
                        requires
                            0 <= nx <= 0x8000_0000_0000_0000u128,
                            0 <= ny <= 0x8000_0000_0000_0000u128,
                    ;
                }
                let nelements: u128 = nx * ny;
                if nelements > i64::MAX as u128 {
                    return Err(
                        Error::Index(
                            IndexError {
                                message: "image region not addressable by the engine".to_owned(),
                                given: lower_left.x..upper_right.x,
                            },
                        ),
                    );
                }
                Ok(
                    RegionReadCommand {
                        first_pixel: ((lower_left.x as i64) + 1, (lower_left.y as i64) + 1),
                        last_pixel: ((upper_right.x as i64) + 1, (upper_right.y as i64) + 1),
                        increments: (1, 1),
                        num_elements: nelements as i64,
                        data_type: T::image_type(),
                    },
                )
            },
        }
    }

    /// Finish a rectangular pixel read planned for the given corners:
    /// the engine filled `data` in place and reported `status`.  A
    /// non-zero status voids the data; data of the wrong length is
    /// rejected rather than handed on.
    pub fn read_region<T: ReadsImage>(
        &self,
        lower_left: &Coordinate,
        upper_right: &Coordinate,
        data: Vec<T>,
        status: i32,
    ) -> (r: Result<Vec<T>, Error>)
        ensures
            self.hdu_info is TableInfo ==> (r matches Err(Error::Message(m)) && m@
                == "cannot read image pixels: the current unit is a table, not an image"@),
            self.hdu_info is ImageInfo && upper_right.x >= lower_left.x && upper_right.y
                >= lower_left.y ==> {
                &&& status != 0 ==> (r matches Err(e) && is_engine_error(e, status))
                &&& status == 0 && upper_right.x + 1 <= i64::MAX && upper_right.y + 1 <= i64::MAX
                    && data@.len() == (upper_right.x - lower_left.x + 1) * (upper_right.y
                    - lower_left.y + 1) ==> r == Ok::<Vec<T>, Error>(data)
            },
            r matches Ok(v) ==> (self.hdu_info is ImageInfo && upper_right.x >= lower_left.x
                && upper_right.y >= lower_left.y && v@.len() == (upper_right.x - lower_left.x + 1)
                * (upper_right.y - lower_left.y + 1)),
    {
        match &self.hdu_info {
            HduInfo::TableInfo { .. } => Err(
                Error::Message(
                    "cannot read image pixels: the current unit is a table, not an image".to_owned(
                    ),
                ),
            ),
            HduInfo::ImageInfo { .. } => {
                if upper_right.x < lower_left.x {
                    return Err(
                        Error::Index(
                            IndexError {
                                message: "image region is inverted along the first axis".to_owned(),
                                given: lower_left.x..upper_right.x,
                            },
                        ),
                    );
                }
                if upper_right.y < lower_left.y {
                    return Err(
                        Error::Index(
                            IndexError {
                                message: "image region is inverted along the second axis".to_owned(
                                ),
                                given: lower_left.y..upper_right.y,
                            },
                        ),
                    );
                }
                if status != 0 {
                    return Err(engine_error(status));
                }
                proof {
                    assert(i64::MAX as u64 == i64::MAX);
                }
                if (upper_right.x as u64) > (i64::MAX - 1) as u64 || (upper_right.y as u64) > (
                i64::MAX - 1) as u64 {
                    return Err(
                        Error::Index(
                            IndexError {
                                message: "image region not addressable by the engine".to_owned(),
                                given: lower_left.x..upper_right.x,
                            },
                        ),
                    );
                }
                let nx: u128 = (upper_right.x as u128) - (lower_left.x as u128) + 1;
                let ny: u128 = (upper_right.y as u128) - (lower_left.y as u128) + 1;
                proof {
                    assert(nx * ny <= 0x8000_0000_0000_0000u128 * 0x8000_0000_0000_0000u128)
                        by (nonlinear_arith)
                        requires
                            0 <= nx <= 0x8000_0000_0000_0000u128,
                            0 <= ny <= 0x8000_0000_0000_0000u128,
                    ;
                }
                let nelements: u128 = nx * ny;
                if (data.len() as u128) != nelements {
                    return Err(
                        Error::Message(
                            "engine returned an image region of the wrong length".to_owned(),
                        ),
                    );
                }
                Ok(data)
            },
        }
    }
}

} // verus!
