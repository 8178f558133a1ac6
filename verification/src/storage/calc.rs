//! Measuring what a call added to storage, and the refund of what was
//! attached beyond its cost.
use vstd::prelude::*;

verus! {

/// Why a storage measurement was refused.
#[derive(PartialEq, Eq, Structural, Debug, Clone, Copy)]
pub enum StorageCalcError {
    /// The storage used went down, or the difference was taken twice.
    UsageUnderflow,
    /// The attached deposit does not cover the storage added.
    NotEnoughDeposit,
}

impl StorageCalcError {
    pub fn message(&self) -> (s: &'static str)
        ensures
            s@ == (match self {
                StorageCalcError::UsageUnderflow => "attempt to subtract with overflow"@,
                StorageCalcError::NotEnoughDeposit => "attempt to subtract with overflow"@,
            }),
    {
        match self {
            StorageCalcError::UsageUnderflow => "attempt to subtract with overflow",
            StorageCalcError::NotEnoughDeposit => "attempt to subtract with overflow",
        }
    }
}

/// The storage used before a call, after it, and the difference.
pub struct Storage {
    pub prev: u64,
    pub next: u64,
    pub diff: u64,
}

impl Storage {
    /// Starts a measurement at `usage` bytes.
    pub fn start(usage: u64) -> (r: Self)
        ensures
            r.prev == usage && r.next == 0 && r.diff == 0,
    {
        Storage { prev: usage, next: 0, diff: 0 }
    }

    /// Records `usage` as the end of the measurement; the difference is taken
    /// from the previous difference, not from the start.
    pub fn end(&mut self, usage: u64) -> (r: Result<(), StorageCalcError>)
        ensures
            r is Ok <==> usage >= old(self).diff,
            r is Ok ==> final(self).prev == old(self).prev && final(self).next == usage
                && final(self).diff == usage - old(self).diff,
            r is Err ==> *final(self) == *old(self),
    {
        if usage < self.diff {
            return Err(StorageCalcError::UsageUnderflow);
        }
        self.next = usage;
        self.diff = self.next - self.diff;
        Ok(())
    }

    /// Ends the measurement at `usage` bytes; returns what is left of
    /// `attached_price` after paying `byte_cost` per byte added.
    pub fn refund(&mut self, usage: u64, attached_price: &u128, byte_cost: u128) -> (r: Result<
        u128,
        StorageCalcError,
    >)
        ensures
            match r {
                Ok(refund) => {
                    &&& usage >= old(self).prev
                    &&& (usage - old(self).prev) * byte_cost <= *attached_price
                    &&& refund == *attached_price - (usage - old(self).prev) * byte_cost
                    &&& final(self).prev == old(self).prev && final(self).next == usage
                    &&& final(self).diff == usage - old(self).prev
                },
                Err(e) => *final(self) == *old(self) && if usage < old(self).prev {
                    e == StorageCalcError::UsageUnderflow
                } else {
                    e == StorageCalcError::NotEnoughDeposit && (usage - old(self).prev) * byte_cost
                        > *attached_price
                },
            },
    {
        if usage < self.prev {
            return Err(StorageCalcError::UsageUnderflow);
        }
        let diff = usage - self.prev;
        let cost = match (diff as u128).checked_mul(byte_cost) {
            None => {
                return Err(StorageCalcError::NotEnoughDeposit);
            },
            Some(c) => c,
        };
        if cost > *attached_price {
            return Err(StorageCalcError::NotEnoughDeposit);
        }
        self.next = usage;
        self.diff = diff;
        Ok(*attached_price - cost)
    }
}

} // verus!
