//! Health of a view, computed from the replica count that the store holds
//! for its workload.

use crate::markdown::MarkdownViewStatusEnum;
use vstd::prelude::*;

verus! {

/// The status of a view that asks for `desired` replicas while the store
/// holds `observed` for its workload.
///
/// No count, or a count of zero, is `NotReady`. The count that the view asks
/// for is `Available`. Every other count is `Healthy`.
pub open spec fn status_of(observed: Option<int>, desired: nat) -> MarkdownViewStatusEnum {
    match observed {
        None => MarkdownViewStatusEnum::NotReady,
        Some(count) => if count == 0 {
            MarkdownViewStatusEnum::NotReady
        } else if count == desired as int {
            MarkdownViewStatusEnum::Available
        } else {
            MarkdownViewStatusEnum::Healthy
        },
    }
}

/// The replica count of an observed workload as a mathematical integer.
pub open spec fn observed_count(observed: Option<i32>) -> Option<int> {
    match observed {
        Some(count) => Some(count as int),
        None => None,
    }
}

/// Whether a computed status has to be written: only where the store does
/// not hold it already.
pub open spec fn status_differs(
    stored: Option<MarkdownViewStatusEnum>,
    computed: MarkdownViewStatusEnum,
) -> bool {
    stored != Some(computed)
}

/// Computes the status of a view from the replica count of its workload.
pub fn evaluate_status(observed: Option<i32>, desired: u32) -> (status: MarkdownViewStatusEnum)
    ensures
        status == status_of(observed_count(observed), desired as nat),
{
    match observed {
        None => MarkdownViewStatusEnum::NotReady,
        Some(count) => {
            if count == 0 {
                MarkdownViewStatusEnum::NotReady
            } else if count as i64 == desired as i64 {
                MarkdownViewStatusEnum::Available
            } else {
                MarkdownViewStatusEnum::Healthy
            }
        },
    }
}

/// Tells whether `computed` must be written over `stored`.
pub fn needs_status_write(
    stored: Option<MarkdownViewStatusEnum>,
    computed: MarkdownViewStatusEnum,
) -> (write: bool)
    ensures
        write == status_differs(stored, computed),
{
    match stored {
        Some(current) => current != computed,
        None => true,
    }
}

} // verus!
