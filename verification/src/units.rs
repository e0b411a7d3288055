use vstd::prelude::*;

verus! {

/// The PCA9685 has 4096 steps (12-bit PWM) of resolution.
pub const PCA_PWM_RESOLUTION: u16 = 4096;

/// A decimal quantity stored as an integer count of millionths, so that the
/// conversion layer can be exact where binary floating point could not be.
///
/// A pulse width is a number of milliseconds held in millionths of a
/// millisecond, that is in nanoseconds: 1.831055 ms is
/// `Millionths { raw: 1_831_055 }`.  A duty-cycle fraction is held in parts
/// per million: 0.5 is `Millionths { raw: 500_000 }`.
#[derive(Clone, Copy, PartialEq, Eq, Structural, Debug)]
pub struct Millionths {
    pub raw: i64,
}

impl Millionths {
    /// Wraps a raw count of millionths.
    pub fn new(raw: i64) -> (r: Millionths)
        ensures
            r.raw == raw,
    {
        Millionths { raw }
    }

    /// The raw count of millionths held.
    pub fn raw(&self) -> (r: i64)
        ensures
            r == self.raw,
    {
        self.raw
    }
}

} // verus!
