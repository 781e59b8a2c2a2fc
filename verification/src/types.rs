//! Plain value types shared by the stack and the gas meter: the 256-bit
//! operand word, the 160-bit account address, the protocol revision, the
//! host's warm/cold answer, and the closed set of failure signals.

use vstd::prelude::*;

verus! {

/// A 256-bit operand word, held as four 64-bit limbs, most significant first
/// (`w3` holds bits 255..192, `w0` holds bits 63..0). The core never does
/// arithmetic on these words; it only compares them and tests for zero.
#[derive(Clone, Copy, Debug, PartialEq, Eq, Structural)]
pub struct U256 {
    pub w3: u64,
    pub w2: u64,
    pub w1: u64,
    pub w0: u64,
}

impl U256 {
    /// The word with all bits clear.
    pub open spec fn spec_zero() -> U256 {
        U256 { w3: 0, w2: 0, w1: 0, w0: 0 }
    }

    /// The word with value one.
    pub open spec fn spec_one() -> U256 {
        U256 { w3: 0, w2: 0, w1: 0, w0: 1 }
    }

    /// The word with all bits set.
    pub open spec fn spec_max() -> U256 {
        U256 { w3: u64::MAX, w2: u64::MAX, w1: u64::MAX, w0: u64::MAX }
    }

    pub fn zero() -> (r: U256)
        ensures
            r == U256::spec_zero(),
    {
        U256 { w3: 0, w2: 0, w1: 0, w0: 0 }
    }

    pub fn one() -> (r: U256)
        ensures
            r == U256::spec_one(),
    {
        U256 { w3: 0, w2: 0, w1: 0, w0: 1 }
    }

    pub fn max() -> (r: U256)
        ensures
            r == U256::spec_max(),
    {
        U256 { w3: u64::MAX, w2: u64::MAX, w1: u64::MAX, w0: u64::MAX }
    }

    /// True exactly when every limb is clear.
    pub fn is_zero(&self) -> (r: bool)
        ensures
            r == (*self == U256::spec_zero()),
    {
        self.w3 == 0 && self.w2 == 0 && self.w1 == 0 && self.w0 == 0
    }
}

/// A 160-bit account address, held as three limbs in big-endian order: `hi`
/// holds the first four of the twenty bytes, `mid` the next eight, `lo` the
/// last eight. The core only compares addresses for equality.
#[derive(Clone, Copy, Debug, PartialEq, Eq, Structural)]
pub struct Address {
    pub hi: u32,
    pub mid: u64,
    pub lo: u64,
}

/// Protocol upgrade milestones, in the order they took effect. Gas rules are
/// gated by comparisons of this order alone.
#[derive(Clone, Copy, Debug, PartialEq, Eq, Structural)]
pub enum Revision {
    Frontier,
    Homestead,
    TangerineWhistle,
    SpuriousDragon,
    Byzantium,
    Constantinople,
    Petersburg,
    Istanbul,
    Berlin,
    London,
    Paris,
    Shanghai,
    Cancun,
    Prague,
}

impl Revision {
    /// The position of this milestone in the upgrade order.
    pub open spec fn spec_ordinal(self) -> int {
        match self {
            Revision::Frontier => 0,
            Revision::Homestead => 1,
            Revision::TangerineWhistle => 2,
            Revision::SpuriousDragon => 3,
            Revision::Byzantium => 4,
            Revision::Constantinople => 5,
            Revision::Petersburg => 6,
            Revision::Istanbul => 7,
            Revision::Berlin => 8,
            Revision::London => 9,
            Revision::Paris => 10,
            Revision::Shanghai => 11,
            Revision::Cancun => 12,
            Revision::Prague => 13,
        }
    }

    pub fn ordinal(self) -> (n: u64)
        ensures
            n == self.spec_ordinal(),
    {
        match self {
            Revision::Frontier => 0,
            Revision::Homestead => 1,
            Revision::TangerineWhistle => 2,
            Revision::SpuriousDragon => 3,
            Revision::Byzantium => 4,
            Revision::Constantinople => 5,
            Revision::Petersburg => 6,
            Revision::Istanbul => 7,
            Revision::Berlin => 8,
            Revision::London => 9,
            Revision::Paris => 10,
            Revision::Shanghai => 11,
            Revision::Cancun => 12,
            Revision::Prague => 13,
        }
    }

    /// True when this revision is `other` or a later milestone.
    pub fn at_least(self, other: Revision) -> (r: bool)
        ensures
            r == (self.spec_ordinal() >= other.spec_ordinal()),
    {
        self.ordinal() >= other.ordinal()
    }
}

/// The host's answer to an account-access query: `Cold` for the first touch
/// of an address in a transaction, `Warm` for every later touch.
#[derive(Clone, Copy, Debug, PartialEq, Eq, Structural)]
pub enum AccessStatus {
    Cold,
    Warm,
}

/// The closed set of failures this core produces. Each is an ordinary result
/// value that propagates to the dispatcher; nothing here panics.
#[derive(Clone, Copy, Debug, PartialEq, Eq, Structural)]
pub enum FailStatus {
    /// A push was attempted on a stack already holding 1024 values.
    StackOverflow,
    /// A read, removal or swap asked for a depth beyond the current length.
    StackUnderflow,
    /// A charge exceeded the remaining gas, or overflowed while being computed.
    OutOfGas,
}

} // verus!
