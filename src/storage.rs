//! Allocation of anchor numbers within the range assigned to this service.

use vstd::prelude::*;
use crate::device::AnchorNumber;

verus! {

/// The first anchor number handed out by default.
pub const FIRST_ANCHOR_NUMBER: AnchorNumber = 10_000;

/// How many anchor numbers the default range holds.
pub const DEFAULT_RANGE_SIZE: u64 = 8_000_000;

/// Why an anchor number was not handed out or looked up.
#[derive(Clone, Copy, Debug, PartialEq, Eq, Structural)]
pub enum StorageError {
    /// every number of the range has been handed out
    AnchorRangeExhausted,
    /// the number lies outside the assigned range
    AnchorOutOfRange { anchor_number: AnchorNumber },
    /// the number lies in the range but has not been handed out yet
    AnchorNotAllocated { anchor_number: AnchorNumber },
    /// the range's bounds are the wrong way round
    InvalidRange { lo: AnchorNumber, hi: AnchorNumber },
}

/// The half-open range `[id_range_lo, id_range_hi)` of anchor numbers assigned to this
/// service, of which the first `num_anchors` have been handed out.
#[derive(Clone, Copy, Debug, PartialEq, Eq, Structural)]
pub struct AnchorRange {
    id_range_lo: AnchorNumber,
    id_range_hi: AnchorNumber,
    num_anchors: u64,
}

impl AnchorRange {
    pub closed spec fn lo(&self) -> AnchorNumber {
        self.id_range_lo
    }

    pub closed spec fn hi(&self) -> AnchorNumber {
        self.id_range_hi
    }

    pub closed spec fn allocated(&self) -> u64 {
        self.num_anchors
    }

    /// The handed-out numbers stay within the range.
    pub open spec fn wf(&self) -> bool {
        self.lo() <= self.hi() && self.allocated() <= self.hi() - self.lo()
    }

    /// A range `[lo, hi)` with no number handed out yet; fails if `lo > hi`.
    pub fn new(lo: AnchorNumber, hi: AnchorNumber) -> (r: Result<AnchorRange, StorageError>)
        ensures
            lo <= hi ==> (r matches Ok(a) && a.lo() == lo && a.hi() == hi && a.allocated() == 0
                && a.wf()),
            lo > hi ==> r == Err::<AnchorRange, StorageError>(StorageError::InvalidRange { lo, hi }),
    {
        if lo > hi {
            return Err(StorageError::InvalidRange { lo, hi });
        }
        Ok(AnchorRange { id_range_lo: lo, id_range_hi: hi, num_anchors: 0 })
    }

    /// The range from the state a store was saved in.
    pub fn from_parts(lo: AnchorNumber, hi: AnchorNumber, num_anchors: u64) -> (r: Result<
        AnchorRange,
        StorageError,
    >)
        ensures
            lo <= hi && num_anchors <= hi - lo ==> (r matches Ok(a) && a.lo() == lo && a.hi() == hi
                && a.allocated() == num_anchors && a.wf()),
            lo > hi || num_anchors > hi - lo ==> r == Err::<AnchorRange, StorageError>(
                StorageError::InvalidRange { lo, hi },
            ),
    {
        if lo > hi || num_anchors > hi - lo {
            return Err(StorageError::InvalidRange { lo, hi });
        }
        Ok(AnchorRange { id_range_lo: lo, id_range_hi: hi, num_anchors })
    }

    /// The lower bound of the range.
    pub fn id_range_lo(&self) -> (r: AnchorNumber)
        ensures
            r == self.lo(),
    {
        self.id_range_lo
    }

    /// The upper bound of the range, excluded.
    pub fn id_range_hi(&self) -> (r: AnchorNumber)
        ensures
            r == self.hi(),
    {
        self.id_range_hi
    }

    /// How many numbers have been handed out.
    pub fn num_anchors(&self) -> (r: u64)
        ensures
            r == self.allocated(),
    {
        self.num_anchors
    }

    /// Hands out the next number of the range, strictly above all handed out before;
    /// fails once the range is used up.
    pub fn allocate_new(&mut self) -> (r: Result<AnchorNumber, StorageError>)
        requires
            old(self).wf(),
        ensures
            final(self).wf(),
            final(self).lo() == old(self).lo(),
            final(self).hi() == old(self).hi(),
            old(self).allocated() < old(self).hi() - old(self).lo() ==> r == Ok::<
                AnchorNumber,
                StorageError,
            >((old(self).lo() + old(self).allocated()) as u64) && final(self).allocated()
                == old(self).allocated() + 1,
            old(self).allocated() == old(self).hi() - old(self).lo() ==> r == Err::<
                AnchorNumber,
                StorageError,
            >(StorageError::AnchorRangeExhausted) && *final(self) == *old(self),
    {
        if self.num_anchors >= self.id_range_hi - self.id_range_lo {
            return Err(StorageError::AnchorRangeExhausted);
        }
        let n = self.id_range_lo + self.num_anchors;
        self.num_anchors = self.num_anchors + 1;
        Ok(n)
    }

    /// The position of `anchor_number` among the handed-out numbers: it fails for a number
    /// outside the range, and for one in the range not handed out yet.
    pub fn record_index(&self, anchor_number: AnchorNumber) -> (r: Result<u64, StorageError>)
        requires
            self.wf(),
        ensures
            anchor_number < self.lo() || anchor_number >= self.hi() ==> r == Err::<
                u64,
                StorageError,
            >(StorageError::AnchorOutOfRange { anchor_number }),
            self.lo() <= anchor_number < self.hi() && anchor_number - self.lo() >= self.allocated()
                ==> r == Err::<u64, StorageError>(
                StorageError::AnchorNotAllocated { anchor_number },
            ),
            self.lo() <= anchor_number < self.hi() && anchor_number - self.lo() < self.allocated()
                ==> r == Ok::<u64, StorageError>((anchor_number - self.lo()) as u64),
    {
        if anchor_number < self.id_range_lo || anchor_number >= self.id_range_hi {
            return Err(StorageError::AnchorOutOfRange { anchor_number });
        }
        let index = anchor_number - self.id_range_lo;
        if index >= self.num_anchors {
            return Err(StorageError::AnchorNotAllocated { anchor_number });
        }
        Ok(index)
    }
}

/// The range assigned when none is configured: `DEFAULT_RANGE_SIZE` numbers from
/// `FIRST_ANCHOR_NUMBER`, the upper bound saturating.
pub fn default_anchor_range() -> (r: (AnchorNumber, AnchorNumber))
    ensures
        r.0 == FIRST_ANCHOR_NUMBER,
        r.1 == FIRST_ANCHOR_NUMBER + DEFAULT_RANGE_SIZE,
{
    (FIRST_ANCHOR_NUMBER, FIRST_ANCHOR_NUMBER.saturating_add(DEFAULT_RANGE_SIZE))
}

} // verus!
