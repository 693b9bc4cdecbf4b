//! The computed result of a resistor code: the nominal value, the tolerance
//! rating, and the optional temperature coefficient, with the derived
//! minimum/maximum bounds of the tolerance range.
//!
//! Everything is exact fixed-point arithmetic. The nominal value is kept in
//! hundredths of an ohm (the finest granularity a color code can express,
//! reached when a Silver multiplier divides the digit base by 100) and the
//! tolerance in hundredths of a percent. The derived bounds are reported in
//! millionths of an ohm, the product of those two granularities, so that no
//! computation ever rounds.

use vstd::prelude::*;

use crate::band::TempCoeff;

verus! {

/// The largest nominal value a resistor code can express, in hundredths of
/// an ohm: a digit base of 999 under a White (ninth-decade) multiplier.
pub const MAX_RAW_CENTI: u64 = 99_900_000_000_000;

/// The largest tolerance rating, in hundredths of a percent: the 20% default
/// of a 3-band code.
pub const MAX_TOL_BASIS_POINTS: u32 = 2000;

/// A computed resistance: read-only once constructed.
#[derive(Debug, PartialEq, Eq, Clone, Copy)]
pub struct Resistance {
    /// The nominal value in hundredths of an ohm.
    pub raw: u64,
    /// The tolerance in hundredths of a percent.
    pub tol: u32,
    /// The temperature coefficient, present only on 6-band codes.
    pub temp: Option<TempCoeff>,
}

impl Resistance {
    /// The value and tolerance lie in the ranges a resistor code can
    /// produce; every arithmetic bound below follows from these.
    pub open spec fn wf(self) -> bool {
        self.raw <= MAX_RAW_CENTI && self.tol <= MAX_TOL_BASIS_POINTS
    }

    /// Assemble a resistance from a nominal value (hundredths of an ohm),
    /// a tolerance (hundredths of a percent) and an optional temperature
    /// coefficient.
    pub fn new(raw: u64, tol: u32, temp: Option<TempCoeff>) -> (r: Resistance)
        requires
            raw <= MAX_RAW_CENTI,
            tol <= MAX_TOL_BASIS_POINTS,
        ensures
            r == (Resistance { raw, tol, temp }),
            r.wf(),
    {
        Resistance { raw, tol, temp }
    }

    /// The allowed deviation from the nominal value, in millionths of an
    /// ohm: the nominal value times the tolerance percentage over a hundred.
    pub fn percent_error(&self) -> (e: u64)
        requires
            self.wf(),
        ensures
            e == self.raw * self.tol,
    {
        proof {
            assert(self.raw * self.tol <= MAX_RAW_CENTI * MAX_TOL_BASIS_POINTS)
                by (nonlinear_arith)
                requires
                    0 <= self.raw <= MAX_RAW_CENTI,
                    0 <= self.tol <= MAX_TOL_BASIS_POINTS,
            ;
        }
        self.raw * (self.tol as u64)
    }

    /// The low end of the tolerance range, in millionths of an ohm: the
    /// nominal value minus the allowed deviation.
    pub fn minimum(&self) -> (m: u64)
        requires
            self.wf(),
        ensures
            m == self.raw * 10_000 - self.raw * self.tol,
    {
        let error = self.percent_error();
        proof {
            assert(self.raw * self.tol <= self.raw * 10_000) by (nonlinear_arith)
                requires
                    0 <= self.raw,
                    0 <= self.tol <= MAX_TOL_BASIS_POINTS,
            ;
        }
        self.raw * 10_000 - error
    }

    /// The high end of the tolerance range, in millionths of an ohm: the
    /// nominal value plus the allowed deviation.
    pub fn maximum(&self) -> (m: u64)
        requires
            self.wf(),
        ensures
            m == self.raw * 10_000 + self.raw * self.tol,
    {
        let error = self.percent_error();
        proof {
            assert(self.raw * self.tol <= MAX_RAW_CENTI * MAX_TOL_BASIS_POINTS)
                by (nonlinear_arith)
                requires
                    0 <= self.raw <= MAX_RAW_CENTI,
                    0 <= self.tol <= MAX_TOL_BASIS_POINTS,
            ;
        }
        self.raw * 10_000 + error
    }
}

} // verus!
