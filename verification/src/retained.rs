//! Variable retained-byte accounting for owned values.

use vstd::prelude::*;

verus! {

/// A count of variable bytes retained by an owned value.
#[derive(Clone, Copy, Debug, Default, PartialEq, Eq, Hash, PartialOrd, Ord, Structural)]
pub struct RetainedBytes(u64);

impl RetainedBytes {
    /// The byte count.
    pub closed spec fn bytes(self) -> u64 {
        self.0
    }

    /// The retained-byte count holding `bytes`.
    pub closed spec fn from_bytes(bytes: u64) -> RetainedBytes {
        RetainedBytes(bytes)
    }

    /// The spec constructor and the byte view agree.
    pub broadcast proof fn lemma_from_bytes(bytes: u64)
        ensures
            #[trigger] RetainedBytes::from_bytes(bytes).bytes() == bytes,
    {
    }

    /// A retained-byte count is determined by its bytes.
    pub broadcast proof fn lemma_bytes_injective(a: RetainedBytes, b: RetainedBytes)
        ensures
            #![trigger a.bytes(), b.bytes()]
            a.bytes() == b.bytes() ==> a == b,
    {
    }

}

/// The facts that tie the byte view to the spec constructor.
pub broadcast group group_retained_bytes {
    RetainedBytes::lemma_from_bytes,
    RetainedBytes::lemma_bytes_injective,
}

impl RetainedBytes {
    /// No retained bytes, as a spec value.
    pub closed spec fn zero_spec() -> RetainedBytes {
        RetainedBytes(0)
    }

    /// No retained bytes.
    pub fn zero() -> (bytes: RetainedBytes)
        ensures
            bytes.bytes() == 0,
    {
        RetainedBytes(0)
    }

    /// Creates a retained-byte count.
    pub fn new(bytes: u64) -> (retained: RetainedBytes)
        ensures
            retained.bytes() == bytes,
    {
        RetainedBytes(bytes)
    }

    /// Returns the byte count.
    pub fn get(self) -> (bytes: u64)
        ensures
            bytes == self.bytes(),
    {
        self.0
    }

    /// Adds two counts, returning `None` on overflow.
    pub fn checked_add(self, other: RetainedBytes) -> (sum: Option<RetainedBytes>)
        ensures
            self.bytes() + other.bytes() <= u64::MAX ==> (sum matches Some(s) && s.bytes()
                == self.bytes() + other.bytes()),
            self.bytes() + other.bytes() > u64::MAX ==> sum is None,
    {
        match self.0.checked_add(other.0) {
            Some(bytes) => Some(RetainedBytes(bytes)),
            None => None,
        }
    }

    /// Subtracts `other`, returning `None` when it exceeds this count.
    pub fn checked_sub(self, other: RetainedBytes) -> (difference: Option<RetainedBytes>)
        ensures
            other.bytes() <= self.bytes() ==> (difference matches Some(d) && d.bytes()
                == self.bytes() - other.bytes()),
            other.bytes() > self.bytes() ==> difference is None,
    {
        match self.0.checked_sub(other.0) {
            Some(bytes) => Some(RetainedBytes(bytes)),
            None => None,
        }
    }
}

/// A value that reports the variable bytes it retains.
pub trait Retained {
    /// Returns the variable bytes retained by this value.
    fn retained_bytes(&self) -> RetainedBytes;
}

/// A measurement of the variable bytes retained by values of type `T`.
pub trait RetainedMeasure<T> {
    /// Returns the variable bytes retained by `value`.
    fn measure(&self, value: &T) -> RetainedBytes;
}

/// Measures values by their own [`Retained`] report.
#[derive(Clone, Copy, Debug, Default, PartialEq, Eq)]
pub struct ByRetained;

impl<T: Retained> RetainedMeasure<T> for ByRetained {
    /// Reports exactly what `value` reports of itself.
    fn measure(&self, value: &T) -> (bytes: RetainedBytes)
        ensures
            call_ensures(T::retained_bytes, (value,), bytes),
    {
        value.retained_bytes()
    }
}

} // verus!
