//! Where the dense bid zone of a ladder pool may move.
use vstd::prelude::*;

use crate::error::{DexError, ProgramError};
use crate::native_dex::constants::{MAX_BINS, RIGHT_EDGE_BUFFER_BINS};

verus! {

/// Lower edge of a zone of `width` bins whose upper edge is `nav_bin`.
pub open spec fn zone_lower(nav_bin: i32, width: u16) -> int {
    nav_bin - width + 1
}

/// Lower edge of the bid zone once it has moved up to `new_nav_bin`. The zone may not reach
/// below the left anchor, and some bins must stay free above it.
pub open spec fn grown_zone(
    lower_bin_id: i32,
    left_anchor_bin: i32,
    last_nav_bin: i32,
    new_nav_bin: i32,
    width: u16,
) -> Result<i32, ProgramError> {
    if new_nav_bin <= last_nav_bin {
        Err(ProgramError::Dex(DexError::NotGrowthDirection))
    } else if zone_lower(new_nav_bin, width) < left_anchor_bin {
        Err(ProgramError::Dex(DexError::ActiveZoneOverlapsTail))
    } else if lower_bin_id + MAX_BINS - 1 - new_nav_bin < RIGHT_EDGE_BUFFER_BINS {
        Err(ProgramError::Dex(DexError::ExceedsRightEdgeBuffer))
    } else {
        Ok(zone_lower(new_nav_bin, width) as i32)
    }
}

/// Lower edge of the bid zone once it has moved down to `new_nav_bin`.
pub open spec fn compressed_zone(
    left_anchor_bin: i32,
    last_nav_bin: i32,
    new_nav_bin: i32,
    width: u16,
) -> Result<i32, ProgramError> {
    if new_nav_bin >= last_nav_bin {
        Err(ProgramError::Dex(DexError::NotCompressionDirection))
    } else if zone_lower(new_nav_bin, width) < left_anchor_bin {
        Err(ProgramError::Dex(DexError::ActiveZoneOverlapsTail))
    } else {
        Ok(zone_lower(new_nav_bin, width) as i32)
    }
}

/// Lower edge of the bid zone once it has moved up to `new_nav_bin`.
pub fn grow_zone(
    lower_bin_id: i32,
    left_anchor_bin: i32,
    last_nav_bin: i32,
    new_nav_bin: i32,
    width: u16,
) -> (r: Result<i32, ProgramError>)
    requires
        lower_bin_id + MAX_BINS - 1 <= i32::MAX,
    ensures
        r == grown_zone(lower_bin_id, left_anchor_bin, last_nav_bin, new_nav_bin, width),
{
    if new_nav_bin <= last_nav_bin {
        return Err(ProgramError::Dex(DexError::NotGrowthDirection));
    }
    let lower: i64 = new_nav_bin as i64 - width as i64 + 1;
    if lower < left_anchor_bin as i64 {
        return Err(ProgramError::Dex(DexError::ActiveZoneOverlapsTail));
    }
    let upper: i64 = lower_bin_id as i64 + MAX_BINS as i64 - 1;
    if upper - (new_nav_bin as i64) < RIGHT_EDGE_BUFFER_BINS as i64 {
        return Err(ProgramError::Dex(DexError::ExceedsRightEdgeBuffer));
    }
    Ok(lower as i32)
}

/// Lower edge of the bid zone once it has moved down to `new_nav_bin`.
pub fn compress_zone(
    left_anchor_bin: i32,
    last_nav_bin: i32,
    new_nav_bin: i32,
    width: u16,
) -> (r: Result<i32, ProgramError>)
    ensures
        r == compressed_zone(left_anchor_bin, last_nav_bin, new_nav_bin, width),
{
    if new_nav_bin >= last_nav_bin {
        return Err(ProgramError::Dex(DexError::NotCompressionDirection));
    }
    let lower: i64 = new_nav_bin as i64 - width as i64 + 1;
    if lower < left_anchor_bin as i64 {
        return Err(ProgramError::Dex(DexError::ActiveZoneOverlapsTail));
    }
    Ok(lower as i32)
}

/// Growth and compression never accept the same move, and a move to the present bin is neither.
pub proof fn moves_have_one_direction(
    lower_bin_id: i32,
    left_anchor_bin: i32,
    last_nav_bin: i32,
    new_nav_bin: i32,
    width: u16,
)
    ensures
        grown_zone(lower_bin_id, left_anchor_bin, last_nav_bin, new_nav_bin, width) is Err
            || compressed_zone(left_anchor_bin, last_nav_bin, new_nav_bin, width) is Err,
        new_nav_bin == last_nav_bin ==> grown_zone(
            lower_bin_id,
            left_anchor_bin,
            last_nav_bin,
            new_nav_bin,
            width,
        ) is Err && compressed_zone(left_anchor_bin, last_nav_bin, new_nav_bin, width) is Err,
{
}

/// An accepted zone has the requested width, ends at the new bin, lies at or above the left
/// anchor, and after growth below the right edge's buffer: it never touches the permanent tail.
pub proof fn zone_stays_above_tail(
    lower_bin_id: i32,
    left_anchor_bin: i32,
    last_nav_bin: i32,
    new_nav_bin: i32,
    width: u16,
)
    requires
        lower_bin_id + MAX_BINS - 1 <= i32::MAX,
    ensures
        grown_zone(lower_bin_id, left_anchor_bin, last_nav_bin, new_nav_bin, width) matches Ok(lower)
            ==> left_anchor_bin <= lower && new_nav_bin - lower + 1 == width
            && new_nav_bin + RIGHT_EDGE_BUFFER_BINS <= lower_bin_id + MAX_BINS - 1,
        compressed_zone(left_anchor_bin, last_nav_bin, new_nav_bin, width) matches Ok(lower)
            ==> left_anchor_bin <= lower && new_nav_bin - lower + 1 == width,
{
}

} // verus!
