//! Bounded quantities shared by the resource manager, the security policy
//! and the storage layer.

use vstd::prelude::*;
use std::time::Duration;
use crate::bounds::BoundViolation;
use crate::time::{duration_from_millis, millis_duration};

verus! {

/// Size of a message in bytes.
/// Accepts 1 to 10_485_760; the default is 1_024.
#[derive(Debug, Clone, Copy, PartialEq, Eq, Structural)]
pub struct MessageSize {
    value: usize,
}

impl View for MessageSize {
    type V = usize;

    closed spec fn view(&self) -> usize {
        self.value
    }
}

impl MessageSize {
    #[verifier::type_invariant]
    closed spec fn in_range(self) -> bool {
        1usize <= self.value && self.value <= 10_485_760usize
    }

    /// Whether a value is accepted.
    pub open spec fn accepts(value: usize) -> bool {
        1usize <= value && value <= 10_485_760usize
    }

    /// Creates the value, or reports which bound it breaks.
    pub fn try_new(value: usize) -> (r: Result<Self, BoundViolation>)
        ensures
            r is Ok <==> Self::accepts(value),
            r matches Ok(c) ==> c@ == value,
            value < 1usize ==> r == Err::<Self, BoundViolation>(BoundViolation::GreaterOrEqualViolated),
            value > 10_485_760usize ==> r == Err::<Self, BoundViolation>(BoundViolation::LessOrEqualViolated),
    {
        if value < 1usize {
            return Err(BoundViolation::GreaterOrEqualViolated);
        }
        if value > 10_485_760usize {
            return Err(BoundViolation::LessOrEqualViolated);
        }
        Ok(MessageSize { value })
    }

    /// The inner value.
    pub fn into_inner(&self) -> (v: usize)
        ensures
            v == self@,
            Self::accepts(v),
    {
        proof {
            use_type_invariant(self);
        }
        self.value
    }

    /// The inner value.
    pub fn as_usize(&self) -> (v: usize)
        ensures
            v == self@,
            Self::accepts(v),
    {
        self.into_inner()
    }

}

impl Default for MessageSize {
    fn default() -> (r: Self)
        ensures
            r@ == 1_024usize,
    {
        MessageSize { value: 1_024usize }
    }
}

/// An amount of memory in bytes.
/// Accepts 1 to 1_073_741_824; the default is 1_048_576.
#[derive(Debug, Clone, Copy, PartialEq, Eq, Structural)]
pub struct MemoryBytes {
    value: usize,
}

impl View for MemoryBytes {
    type V = usize;

    closed spec fn view(&self) -> usize {
        self.value
    }
}

impl MemoryBytes {
    #[verifier::type_invariant]
    closed spec fn in_range(self) -> bool {
        1usize <= self.value && self.value <= 1_073_741_824usize
    }

    /// Whether a value is accepted.
    pub open spec fn accepts(value: usize) -> bool {
        1usize <= value && value <= 1_073_741_824usize
    }

    /// Creates the value, or reports which bound it breaks.
    pub fn try_new(value: usize) -> (r: Result<Self, BoundViolation>)
        ensures
            r is Ok <==> Self::accepts(value),
            r matches Ok(c) ==> c@ == value,
            value < 1usize ==> r == Err::<Self, BoundViolation>(BoundViolation::GreaterOrEqualViolated),
            value > 1_073_741_824usize ==> r == Err::<Self, BoundViolation>(BoundViolation::LessOrEqualViolated),
    {
        if value < 1usize {
            return Err(BoundViolation::GreaterOrEqualViolated);
        }
        if value > 1_073_741_824usize {
            return Err(BoundViolation::LessOrEqualViolated);
        }
        Ok(MemoryBytes { value })
    }

    /// The inner value.
    pub fn into_inner(&self) -> (v: usize)
        ensures
            v == self@,
            Self::accepts(v),
    {
        proof {
            use_type_invariant(self);
        }
        self.value
    }

    /// The inner value.
    pub fn as_usize(&self) -> (v: usize)
        ensures
            v == self@,
            Self::accepts(v),
    {
        self.into_inner()
    }

}

impl Default for MemoryBytes {
    fn default() -> (r: Self)
        ensures
            r@ == 1_048_576usize,
    {
        MemoryBytes { value: 1_048_576usize }
    }
}

/// Units of CPU fuel.
/// Accepts 1 to 1_000_000_000; the default is 1_000_000.
#[derive(Debug, Clone, Copy, PartialEq, Eq, Structural)]
pub struct CpuFuel {
    value: u64,
}

impl View for CpuFuel {
    type V = u64;

    closed spec fn view(&self) -> u64 {
        self.value
    }
}

impl CpuFuel {
    #[verifier::type_invariant]
    closed spec fn in_range(self) -> bool {
        1u64 <= self.value && self.value <= 1_000_000_000u64
    }

    /// Whether a value is accepted.
    pub open spec fn accepts(value: u64) -> bool {
        1u64 <= value && value <= 1_000_000_000u64
    }

    /// Creates the value, or reports which bound it breaks.
    pub fn try_new(value: u64) -> (r: Result<Self, BoundViolation>)
        ensures
            r is Ok <==> Self::accepts(value),
            r matches Ok(c) ==> c@ == value,
            value < 1u64 ==> r == Err::<Self, BoundViolation>(BoundViolation::GreaterOrEqualViolated),
            value > 1_000_000_000u64 ==> r == Err::<Self, BoundViolation>(BoundViolation::LessOrEqualViolated),
    {
        if value < 1u64 {
            return Err(BoundViolation::GreaterOrEqualViolated);
        }
        if value > 1_000_000_000u64 {
            return Err(BoundViolation::LessOrEqualViolated);
        }
        Ok(CpuFuel { value })
    }

    /// The inner value.
    pub fn into_inner(&self) -> (v: u64)
        ensures
            v == self@,
            Self::accepts(v),
    {
        proof {
            use_type_invariant(self);
        }
        self.value
    }

    /// The inner value.
    pub fn as_u64(&self) -> (v: u64)
        ensures
            v == self@,
            Self::accepts(v),
    {
        self.into_inner()
    }

}

impl Default for CpuFuel {
    fn default() -> (r: Self)
        ensures
            r@ == 1_000_000u64,
    {
        CpuFuel { value: 1_000_000u64 }
    }
}

/// Memory that one agent may be given, in bytes.
/// Accepts 0 to 10_485_760; the default is 1_048_576.
#[derive(Debug, Clone, Copy, PartialEq, Eq, Structural)]
pub struct MaxAgentMemory {
    value: usize,
}

impl View for MaxAgentMemory {
    type V = usize;

    closed spec fn view(&self) -> usize {
        self.value
    }
}

impl MaxAgentMemory {
    #[verifier::type_invariant]
    closed spec fn in_range(self) -> bool {
        0usize <= self.value && self.value <= 10_485_760usize
    }

    /// Whether a value is accepted.
    pub open spec fn accepts(value: usize) -> bool {
        0usize <= value && value <= 10_485_760usize
    }

    /// Creates the value, or reports which bound it breaks.
    pub fn try_new(value: usize) -> (r: Result<Self, BoundViolation>)
        ensures
            r is Ok <==> Self::accepts(value),
            r matches Ok(c) ==> c@ == value,
            value > 10_485_760usize ==> r == Err::<Self, BoundViolation>(BoundViolation::LessOrEqualViolated),
    {
        if value > 10_485_760usize {
            return Err(BoundViolation::LessOrEqualViolated);
        }
        Ok(MaxAgentMemory { value })
    }

    /// The inner value.
    pub fn into_inner(&self) -> (v: usize)
        ensures
            v == self@,
            Self::accepts(v),
    {
        proof {
            use_type_invariant(self);
        }
        self.value
    }

    /// The inner value.
    pub fn as_usize(&self) -> (v: usize)
        ensures
            v == self@,
            Self::accepts(v),
    {
        self.into_inner()
    }

}

impl Default for MaxAgentMemory {
    fn default() -> (r: Self)
        ensures
            r@ == 1_048_576usize,
    {
        MaxAgentMemory { value: 1_048_576usize }
    }
}

/// Memory that all agents together may be given, in bytes.
/// Accepts 0 to 1_073_741_824; the default is 1_073_741_824.
#[derive(Debug, Clone, Copy, PartialEq, Eq, Structural)]
pub struct MaxTotalMemory {
    value: usize,
}

impl View for MaxTotalMemory {
    type V = usize;

    closed spec fn view(&self) -> usize {
        self.value
    }
}

impl MaxTotalMemory {
    #[verifier::type_invariant]
    closed spec fn in_range(self) -> bool {
        0usize <= self.value && self.value <= 1_073_741_824usize
    }

    /// Whether a value is accepted.
    pub open spec fn accepts(value: usize) -> bool {
        0usize <= value && value <= 1_073_741_824usize
    }

    /// Creates the value, or reports which bound it breaks.
    pub fn try_new(value: usize) -> (r: Result<Self, BoundViolation>)
        ensures
            r is Ok <==> Self::accepts(value),
            r matches Ok(c) ==> c@ == value,
            value > 1_073_741_824usize ==> r == Err::<Self, BoundViolation>(BoundViolation::LessOrEqualViolated),
    {
        if value > 1_073_741_824usize {
            return Err(BoundViolation::LessOrEqualViolated);
        }
        Ok(MaxTotalMemory { value })
    }

    /// The inner value.
    pub fn into_inner(&self) -> (v: usize)
        ensures
            v == self@,
            Self::accepts(v),
    {
        proof {
            use_type_invariant(self);
        }
        self.value
    }

    /// The inner value.
    pub fn as_usize(&self) -> (v: usize)
        ensures
            v == self@,
            Self::accepts(v),
    {
        self.into_inner()
    }

}

impl Default for MaxTotalMemory {
    fn default() -> (r: Self)
        ensures
            r@ == 1_073_741_824usize,
    {
        MaxTotalMemory { value: 1_073_741_824usize }
    }
}

/// Number of functions that an agent module may import.
/// Accepts 1 to 1_000; the default is 10.
#[derive(Debug, Clone, Copy, PartialEq, Eq, Structural)]
pub struct MaxImportFunctions {
    value: u32,
}

impl View for MaxImportFunctions {
    type V = u32;

    closed spec fn view(&self) -> u32 {
        self.value
    }
}

impl MaxImportFunctions {
    #[verifier::type_invariant]
    closed spec fn in_range(self) -> bool {
        1u32 <= self.value && self.value <= 1_000u32
    }

    /// Whether a value is accepted.
    pub open spec fn accepts(value: u32) -> bool {
        1u32 <= value && value <= 1_000u32
    }

    /// Creates the value, or reports which bound it breaks.
    pub fn try_new(value: u32) -> (r: Result<Self, BoundViolation>)
        ensures
            r is Ok <==> Self::accepts(value),
            r matches Ok(c) ==> c@ == value,
            value < 1u32 ==> r == Err::<Self, BoundViolation>(BoundViolation::GreaterOrEqualViolated),
            value > 1_000u32 ==> r == Err::<Self, BoundViolation>(BoundViolation::LessOrEqualViolated),
    {
        if value < 1u32 {
            return Err(BoundViolation::GreaterOrEqualViolated);
        }
        if value > 1_000u32 {
            return Err(BoundViolation::LessOrEqualViolated);
        }
        Ok(MaxImportFunctions { value })
    }

    /// The inner value.
    pub fn into_inner(&self) -> (v: u32)
        ensures
            v == self@,
            Self::accepts(v),
    {
        proof {
            use_type_invariant(self);
        }
        self.value
    }

}

impl Default for MaxImportFunctions {
    fn default() -> (r: Self)
        ensures
            r@ == 10u32,
    {
        MaxImportFunctions { value: 10u32 }
    }
}

impl MessageSize {
    /// The size of `kb` kibibytes.
    pub fn from_kb(kb: usize) -> (r: Result<Self, BoundViolation>)
        ensures
            r is Ok <==> Self::accepts((kb * 1024) as usize) && kb * 1024 <= usize::MAX,
            r matches Ok(s) ==> s@ == kb * 1024,
    {
        match kb.checked_mul(1024) {
            Some(bytes) => Self::try_new(bytes),
            None => Err(BoundViolation::LessOrEqualViolated),
        }
    }
}

impl MemoryBytes {
    /// The amount of `mb` mebibytes.
    pub fn from_mb(mb: usize) -> (r: Result<Self, BoundViolation>)
        ensures
            r is Ok <==> Self::accepts((mb * 1_048_576) as usize) && mb * 1_048_576 <= usize::MAX,
            r matches Ok(m) ==> m@ == mb * 1_048_576,
    {
        match mb.checked_mul(1_048_576) {
            Some(bytes) => Self::try_new(bytes),
            None => Err(BoundViolation::LessOrEqualViolated),
        }
    }
}

/// Time that one operation may take, in milliseconds.
#[derive(Debug, Clone, Copy, PartialEq, Eq, Structural)]
pub struct ExecutionTime {
    pub millis: u64,
}

impl ExecutionTime {
    /// The time of `secs` seconds.
    pub fn from_secs(secs: u64) -> (t: Self)
        requires
            secs * 1000 <= u64::MAX,
        ensures
            t.millis == secs * 1000,
    {
        ExecutionTime { millis: secs * 1000 }
    }

    /// The time of `millis` milliseconds.
    pub fn from_millis(millis: u64) -> (t: Self)
        ensures
            t.millis == millis,
    {
        ExecutionTime { millis }
    }

    /// The time as a duration.
    pub fn as_duration(&self) -> (d: Duration)
        ensures
            d == millis_duration(self.millis),
    {
        duration_from_millis(self.millis)
    }
}

/// A count of messages.
#[derive(Debug, Clone, Copy, PartialEq, Eq, Structural)]
pub struct MessageCount {
    pub count: usize,
}

impl MessageCount {
    /// The count `count`.
    pub fn new(count: usize) -> (c: Self)
        ensures
            c.count == count,
    {
        MessageCount { count }
    }

    /// The count zero.
    pub fn zero() -> (c: Self)
        ensures
            c.count == 0,
    {
        MessageCount { count: 0 }
    }

    /// The count one higher, staying at the largest count where it is reached.
    pub open spec fn spec_increment(self) -> Self {
        MessageCount {
            count: if self.count == usize::MAX { usize::MAX } else { (self.count + 1) as usize },
        }
    }

    /// The count one higher, staying at the largest count where it is reached.
    pub fn increment(&self) -> (c: Self)
        ensures
            c == self.spec_increment(),
    {
        MessageCount { count: self.count.saturating_add(1) }
    }

    /// The count.
    pub fn into_inner(&self) -> (n: usize)
        ensures
            n == self.count,
    {
        self.count
    }
}

/// CPU fuel consumed so far.
#[derive(Debug, Clone, Copy, PartialEq, Eq, Structural)]
pub struct CpuFuelConsumed {
    pub units: u64,
}

impl CpuFuelConsumed {
    /// The amount `units`.
    pub fn new(units: u64) -> (c: Self)
        ensures
            c.units == units,
    {
        CpuFuelConsumed { units }
    }

    /// Nothing consumed.
    pub fn zero() -> (c: Self)
        ensures
            c.units == 0,
    {
        CpuFuelConsumed { units: 0 }
    }

    /// The amount increased by `amount`, staying at `u64::MAX` where it is reached.
    pub fn saturating_add(&self, amount: u64) -> (c: Self)
        ensures
            c.units == if self.units + amount > u64::MAX { u64::MAX as int } else { self.units + amount },
    {
        CpuFuelConsumed { units: self.units.saturating_add(amount) }
    }

    /// The amount.
    pub fn into_inner(&self) -> (n: u64)
        ensures
            n == self.units,
    {
        self.units
    }
}

} // verus!
