//! The resources that a wallet process uses while it scans.

use vstd::prelude::*;

verus! {

/// Resource use of a process: its memory in bytes, and its CPU load as the bit pattern of a
/// non-negative float.
#[derive(Clone, Copy, PartialEq, Eq, Structural, Debug)]
pub struct Usage {
    pub memory_bytes: u64,
    pub cpu_bits: u64,
}

impl Usage {
    /// The peak before anything has been read.
    pub open spec fn zero() -> Usage {
        Usage { memory_bytes: 0, cpu_bits: 0 }
    }

    /// The peak with a reading taken into account: the larger memory and the larger load. Counters
    /// that could not be read change nothing.
    pub open spec fn raised(self, reading: Option<Usage>) -> Usage {
        match reading {
            Some(usage) => Usage {
                memory_bytes: if usage.memory_bytes > self.memory_bytes {
                    usage.memory_bytes
                } else {
                    self.memory_bytes
                },
                cpu_bits: if usage.cpu_bits > self.cpu_bits {
                    usage.cpu_bits
                } else {
                    self.cpu_bits
                },
            },
            None => self,
        }
    }

    /// The peak before anything has been read.
    pub fn none() -> (r: Usage)
        ensures
            r == Usage::zero(),
    {
        Usage { memory_bytes: 0, cpu_bits: 0 }
    }

    /// Takes a reading into account.
    pub fn with(self, reading: Option<Usage>) -> (r: Usage)
        ensures
            r == self.raised(reading),
    {
        let mut peak = self;
        if let Some(usage) = reading {
            if usage.memory_bytes > peak.memory_bytes {
                peak.memory_bytes = usage.memory_bytes;
            }
            if usage.cpu_bits > peak.cpu_bits {
                peak.cpu_bits = usage.cpu_bits;
            }
        }
        peak
    }
}

/// The peak of readings.
pub open spec fn peak_of(readings: Seq<Option<Usage>>) -> Usage
    decreases readings.len(),
{
    if readings.len() == 0 {
        Usage::zero()
    } else {
        peak_of(readings.drop_last()).raised(readings.last())
    }
}

/// The memory of a peak is the largest that was read, and so is its CPU load: no reading is above it,
/// and one of them has it. It is zero only if nothing was read, or nothing but zeros.
pub proof fn the_peak_is_the_largest_reading(readings: Seq<Option<Usage>>)
    ensures
        ({
            let peak = peak_of(readings);
            &&& forall|i: int|
                0 <= i < readings.len() ==> ((#[trigger] readings[i]) matches Some(usage)
                    ==> usage.memory_bytes <= peak.memory_bytes && usage.cpu_bits <= peak.cpu_bits)
            &&& peak.memory_bytes == 0 || exists|i: int|
                0 <= i < readings.len() && (#[trigger] readings[i]) is Some
                    && readings[i]->0.memory_bytes == peak.memory_bytes
            &&& peak.cpu_bits == 0 || exists|i: int|
                0 <= i < readings.len() && (#[trigger] readings[i]) is Some
                    && readings[i]->0.cpu_bits == peak.cpu_bits
        }),
    decreases readings.len(),
{
    if readings.len() > 0 {
        let before = readings.drop_last();
        let n = readings.len() - 1;
        the_peak_is_the_largest_reading(before);
        assert(forall|i: int| 0 <= i < n ==> before[i] == readings[i]);
        assert(readings[n] == readings.last());
        let peak = peak_of(readings);
        let lower = peak_of(before);
        assert forall|i: int| 0 <= i < readings.len() implies ((#[trigger] readings[i]) matches Some(
            usage,
        ) ==> usage.memory_bytes <= peak.memory_bytes && usage.cpu_bits <= peak.cpu_bits) by {
            if i < n {
                assert(before[i] == readings[i]);
            }
        }
        if peak.memory_bytes != 0 && peak.memory_bytes == lower.memory_bytes {
            let i = choose|i: int|
                0 <= i < before.len() && (#[trigger] before[i]) is Some
                    && before[i]->0.memory_bytes == lower.memory_bytes;
            assert(readings[i] == before[i]);
        }
        if peak.cpu_bits != 0 && peak.cpu_bits == lower.cpu_bits {
            let i = choose|i: int|
                0 <= i < before.len() && (#[trigger] before[i]) is Some && before[i]->0.cpu_bits
                    == lower.cpu_bits;
            assert(readings[i] == before[i]);
        }
    }
}

/// A reading raises the peak where it is above it and never lowers it; a reading that could not be had
/// changes nothing.
pub proof fn readings_raise_the_peak(peak: Usage, reading: Option<Usage>, r: Usage, none: Usage)
    requires
        call_ensures(Usage::with, (peak, reading), r),
        call_ensures(Usage::none, (), none),
    ensures
        none.memory_bytes == 0 && none.cpu_bits == 0,
        reading is None ==> r == peak,
        reading matches Some(usage) ==> {
            &&& r.memory_bytes >= peak.memory_bytes && r.memory_bytes >= usage.memory_bytes
            &&& r.memory_bytes == peak.memory_bytes || r.memory_bytes == usage.memory_bytes
            &&& r.cpu_bits >= peak.cpu_bits && r.cpu_bits >= usage.cpu_bits
            &&& r.cpu_bits == peak.cpu_bits || r.cpu_bits == usage.cpu_bits
        },
{
}

} // verus!
