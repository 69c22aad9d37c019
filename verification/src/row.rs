use crate::errors::PipelineError;
use crate::level::Level;
use vstd::prelude::*;

verus! {

/// Coordinates are fixed-point degrees: one unit is a nanodegree. The range
/// of the geographic reference system bounds every stored coordinate.
pub const NANOS_PER_DEGREE: i64 = 1_000_000_000;

pub const MIN_LON_NANOS: i64 = -180_000_000_000;

pub const MAX_LON_NANOS: i64 = 180_000_000_000;

pub const MIN_LAT_NANOS: i64 = -90_000_000_000;

pub const MAX_LAT_NANOS: i64 = 90_000_000_000;

/// A point of the grid, as fixed-point geographic coordinates.
#[derive(Debug, Clone, Copy, PartialEq, Eq, Structural)]
pub struct GridPoint {
    pub lon_nanos: i64,
    pub lat_nanos: i64,
}

/// One unit of work: a grid cell identifier with its west/south/east/north
/// bounds. Immutable once produced; it transits the bounded channel and is
/// persisted by exactly one worker.
#[derive(Debug, Clone, Copy, PartialEq, Eq, Structural)]
pub struct MeshcodeRow {
    pub code: u64,
    pub level: Level,
    pub xmin: i64,
    pub ymin: i64,
    pub xmax: i64,
    pub ymax: i64,
}

/// The southwest and northeast corners bound a non-empty cell inside the
/// geographic range of the reference system.
pub open spec fn valid_box(sw: GridPoint, ne: GridPoint) -> bool {
    &&& sw.lon_nanos < ne.lon_nanos
    &&& sw.lat_nanos < ne.lat_nanos
    &&& MIN_LON_NANOS <= sw.lon_nanos
    &&& ne.lon_nanos <= MAX_LON_NANOS
    &&& MIN_LAT_NANOS <= sw.lat_nanos
    &&& ne.lat_nanos <= MAX_LAT_NANOS
}

impl MeshcodeRow {
    /// Every emitted row keeps this invariant: `xmin < xmax`, `ymin < ymax`,
    /// and all four bounds lie within the geographic range.
    pub open spec fn wf(self) -> bool {
        valid_box(
            GridPoint { lon_nanos: self.xmin, lat_nanos: self.ymin },
            GridPoint { lon_nanos: self.xmax, lat_nanos: self.ymax },
        )
    }

    /// Build a row from a cell's corners; refuse corners that bound no cell.
    pub fn new(code: u64, level: Level, sw: GridPoint, ne: GridPoint) -> (r: Option<MeshcodeRow>)
        ensures
            r is Some <==> valid_box(sw, ne),
            r matches Some(row) ==> row == (MeshcodeRow {
                code,
                level,
                xmin: sw.lon_nanos,
                ymin: sw.lat_nanos,
                xmax: ne.lon_nanos,
                ymax: ne.lat_nanos,
            }) && row.wf(),
    {
        if sw.lon_nanos < ne.lon_nanos && sw.lat_nanos < ne.lat_nanos && MIN_LON_NANOS
            <= sw.lon_nanos && ne.lon_nanos <= MAX_LON_NANOS && MIN_LAT_NANOS <= sw.lat_nanos
            && ne.lat_nanos <= MAX_LAT_NANOS {
            Some(
                MeshcodeRow {
                    code,
                    level,
                    xmin: sw.lon_nanos,
                    ymin: sw.lat_nanos,
                    xmax: ne.lon_nanos,
                    ymax: ne.lat_nanos,
                },
            )
        } else {
            None
        }
    }

    /// Narrow the identifier and the level tag to the column types of the
    /// table: a signed 64-bit `code` and a 32-bit `level`. The tag of every
    /// tier fits; a code above the signed range is a persistence error.
    pub fn column_values(&self) -> (r: Result<(i64, i32), PipelineError>)
        ensures
            r is Ok <==> self.code <= i64::MAX as u64,
            r matches Ok(cols) ==> cols.0 == self.code as i64 && cols.1 == self.level.tag_spec()
                as i32,
            r matches Err(e) ==> e matches PipelineError::CodeOutOfRange(c) && c == self.code,
    {
        if self.code <= 0x7fff_ffff_ffff_ffff {
            let tag = self.level.tag();
            Ok((self.code as i64, tag as i32))
        } else {
            Err(PipelineError::CodeOutOfRange(self.code))
        }
    }
}

} // verus!
