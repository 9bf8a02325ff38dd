//! Buffer Allocation Policy: caller configurable ceilings on text and binary
//! transit buffer sizes, and the rule that resolves them against the size
//! reported by the source.

use vstd::prelude::*;

use crate::failure::ColumnFailure;

verus! {

/// Limits for the transit buffers bound to the data source. These apply to
/// the buffers used for data in transit, not to the finished arrays. Useful
/// when the source reports `0` or an absurdly large maximum element size for
/// a variadic text or binary column. Session scoped and read only during a
/// conversion.
#[derive(Default, Debug, Clone, Copy)]
pub struct BufferAllocationOptions {
    /// Upper limit in bytes for one element of a variadic text column.
    /// `None` means the size reported by the source is used as is.
    pub max_text_size: Option<usize>,
    /// Upper limit in bytes for one element of a variadic binary column.
    /// `None` means the size reported by the source is used as is.
    pub max_binary_size: Option<usize>,
    /// When set, a transit buffer too large to allocate safely is reported
    /// as [`ColumnFailure::TooLarge`] instead of being treated as a
    /// programming error.
    pub fallible_allocations: bool,
}

/// The resolution rule of the Buffer Allocation Policy as a value:
/// `None` stands for "no usable bound from either side".
pub open spec fn spec_resolved_transit_len(reported_len: usize, ceiling: Option<usize>) -> Option<usize> {
    if reported_len == 0 {
        ceiling
    } else {
        match ceiling {
            None => Some(reported_len),
            Some(c) => Some(if reported_len < c { reported_len } else { c }),
        }
    }
}

/// Resolves the transit element size for a text or binary column from the
/// size the source reported and the caller's optional ceiling.
///
/// All four quadrants of the resolution table are pinned down by the
/// postconditions: a zero report falls back to the ceiling, a positive
/// report is capped by the ceiling, and only "zero report, no ceiling"
/// yields no size at all.
pub fn resolve_transit_len(reported_len: usize, ceiling: Option<usize>) -> (r: Option<usize>)
    ensures
        r == spec_resolved_transit_len(reported_len, ceiling),
        reported_len == 0 && ceiling is None ==> r is None,
        reported_len == 0 && ceiling is Some ==> r == Some(ceiling->Some_0),
        reported_len > 0 && ceiling is None ==> r == Some(reported_len),
        reported_len > 0 && ceiling is Some ==> r == Some(
            if reported_len < ceiling->Some_0 {
                reported_len
            } else {
                ceiling->Some_0
            },
        ),
{
    match ceiling {
        None => {
            if reported_len == 0 {
                None
            } else {
                Some(reported_len)
            }
        }
        Some(limit) => {
            if reported_len == 0 {
                Some(limit)
            } else if reported_len < limit {
                Some(reported_len)
            } else {
                Some(limit)
            }
        }
    }
}

/// Checks that a transit buffer of `num_elements` elements of
/// `element_size` bytes each can be allocated safely.
///
/// With `fallible_allocations` set, an oversized buffer is reported as
/// [`ColumnFailure::TooLarge`]; without it, asking for an oversized buffer
/// is a programming error and is excluded by the precondition.
pub fn validate_buffer_allocation(
    num_elements: usize,
    element_size: usize,
    fallible_allocations: bool,
) -> (r: Result<(), ColumnFailure>)
    requires
        !fallible_allocations ==> num_elements * element_size <= isize::MAX,
    ensures
        r is Ok <==> num_elements * element_size <= isize::MAX,
        r matches Err(f) ==> f == (ColumnFailure::TooLarge { num_elements, element_size }),
{
    proof {
        assert((num_elements as u128) * (element_size as u128) <= u128::MAX) by (nonlinear_arith)
            requires
                num_elements as u128 <= u64::MAX as u128,
                element_size as u128 <= u64::MAX as u128,
        {
        }
    }
    let total: u128 = (num_elements as u128) * (element_size as u128);
    if total <= isize::MAX as u128 {
        Ok(())
    } else {
        Err(ColumnFailure::TooLarge { num_elements, element_size })
    }
}

} // verus!
