//! The cost model: the weight charged for a call before it runs, built from
//! benchmarked coefficients and the cost of database reads and writes.
use vstd::prelude::*;
use crate::pallet::Config;

verus! {

/// `a * b`, or `u64::MAX` where the product does not fit.
pub open spec fn sat_mul(a: u64, b: u64) -> u64 {
    if a * b > u64::MAX {
        u64::MAX
    } else {
        (a * b) as u64
    }
}

/// `a + b`, or `u64::MAX` where the sum does not fit.
pub open spec fn sat_add(a: u64, b: u64) -> u64 {
    if a + b > u64::MAX {
        u64::MAX
    } else {
        (a + b) as u64
    }
}

/// Multiplies two weights, saturating at `u64::MAX`.
pub fn saturating_mul(a: u64, b: u64) -> (r: u64)
    ensures
        r == sat_mul(a, b),
{
    match a.checked_mul(b) {
        Some(p) => p,
        None => u64::MAX,
    }
}

/// Adds two weights, saturating at `u64::MAX`.
pub fn saturating_add(a: u64, b: u64) -> (r: u64)
    ensures
        r == sat_add(a, b),
{
    a.saturating_add(b)
}

/// The weight of one database read and of one database write.
#[derive(Clone, Copy, Debug, PartialEq, Eq, Structural)]
pub struct RuntimeDbWeight {
    pub read: u64,
    pub write: u64,
}

impl RuntimeDbWeight {
    /// The weight of `r` reads and `w` writes.
    pub open spec fn spec_reads_writes(self, r: u64, w: u64) -> u64 {
        sat_add(sat_mul(self.read, r), sat_mul(self.write, w))
    }

    /// The weight of `r` reads.
    pub fn reads(&self, r: u64) -> (out: u64)
        ensures
            out == sat_mul(self.read, r),
    {
        saturating_mul(self.read, r)
    }

    /// The weight of `w` writes.
    pub fn writes(&self, w: u64) -> (out: u64)
        ensures
            out == sat_mul(self.write, w),
    {
        saturating_mul(self.write, w)
    }

    /// The weight of `r` reads and `w` writes.
    pub fn reads_writes(&self, r: u64, w: u64) -> (out: u64)
        ensures
            out == self.spec_reads_writes(r, w),
    {
        saturating_add(self.reads(r), self.writes(w))
    }
}

/// Weight of one read from a RocksDB backend: 25 µs, in picoseconds.
pub const ROCKS_DB_READ: u64 = 25_000_000;

/// Weight of one write to a RocksDB backend: 100 µs, in picoseconds.
pub const ROCKS_DB_WRITE: u64 = 100_000_000;

/// The database weights of a RocksDB backend.
pub fn rocks_db_weight() -> (r: RuntimeDbWeight)
    ensures
        r.read == ROCKS_DB_READ,
        r.write == ROCKS_DB_WRITE,
{
    RuntimeDbWeight { read: ROCKS_DB_READ, write: ROCKS_DB_WRITE }
}

/// Fixed weight of `store_something`, before its database write.
pub const STORE_SOMETHING_BASE: u64 = 26_496_000;

/// Fixed part of the weight of `benign_repeat_hashing`.
pub const HASHING_BASE: u64 = 0;

/// Benchmarked weight of one round of hashing.
pub const HASHING_PER_ROUND: u64 = 659_000;

/// Weight of `store_something`: its fixed part and one database write.
pub open spec fn store_something_weight() -> u64 {
    sat_add(STORE_SOMETHING_BASE, sat_mul(ROCKS_DB_WRITE, 1))
}

/// Weight of `benign_repeat_hashing` for `i` rounds.
pub open spec fn hashing_weight(i: u32) -> u64 {
    sat_add(HASHING_BASE, sat_mul(HASHING_PER_ROUND, i as u64))
}

/// Benchmarked weights of the pallet's calls on a RocksDB backend.
pub struct WeightInfo;

impl crate::pallet::WeightInfo for WeightInfo {
    open spec fn spec_store_something(s: u32) -> u64 {
        store_something_weight()
    }

    open spec fn spec_benign_repeat_hashing(i: u32) -> u64 {
        hashing_weight(i)
    }

    fn store_something(_s: u32) -> (r: u64) {
        saturating_add(STORE_SOMETHING_BASE, rocks_db_weight().writes(1))
    }

    fn benign_repeat_hashing(i: u32) -> (r: u64) {
        saturating_add(HASHING_BASE, saturating_mul(HASHING_PER_ROUND, i as u64))
    }
}

/// A runtime on a RocksDB backend, charging the benchmarked weights.
pub struct Runtime;

impl Config for Runtime {
    type WeightInfo = WeightInfo;

    open spec fn spec_db_weight() -> RuntimeDbWeight {
        RuntimeDbWeight { read: ROCKS_DB_READ, write: ROCKS_DB_WRITE }
    }

    fn db_weight() -> (r: RuntimeDbWeight) {
        rocks_db_weight()
    }
}

} // verus!
