//! Process-gas composition.
//!
//! The flow correction evaluates a gas equation of state against a fixed
//! set of mole fractions. The composition is constant for the lifetime of
//! one bridge session and is threaded into the correction as an explicit
//! configuration value. Fractions are held in parts per million of the
//! whole, so that the well-formedness condition — the fractions sum to
//! exactly one — is an integer statement the verifier can check.

use vstd::prelude::*;

verus! {

/// One whole, in parts per million: the sum a well-formed composition
/// must reach.
pub const PPM_WHOLE: u64 = 1_000_000;

/// Mole fractions of the process gas, each in parts per million.
#[derive(Clone, Copy, PartialEq, Eq, Structural, Debug)]
pub struct GasComposition {
    pub methane: u32,
    pub nitrogen: u32,
    pub carbon_dioxide: u32,
    pub ethane: u32,
    pub propane: u32,
    pub isobutane: u32,
    pub n_butane: u32,
    pub isopentane: u32,
    pub n_pentane: u32,
    pub hexane: u32,
    pub heptane: u32,
    pub octane: u32,
    pub nonane: u32,
    pub decane: u32,
    pub hydrogen: u32,
    pub oxygen: u32,
    pub carbon_monoxide: u32,
    pub water: u32,
    pub hydrogen_sulfide: u32,
    pub helium: u32,
    pub argon: u32,
}

impl GasComposition {
    /// The sum of all mole fractions, in parts per million.
    pub open spec fn spec_total(self) -> int {
        self.methane + self.nitrogen + self.carbon_dioxide + self.ethane + self.propane
            + self.isobutane + self.n_butane + self.isopentane + self.n_pentane + self.hexane
            + self.heptane + self.octane + self.nonane + self.decane + self.hydrogen
            + self.oxygen + self.carbon_monoxide + self.water + self.hydrogen_sulfide
            + self.helium + self.argon
    }

    /// A composition is normalized when its fractions sum to exactly one
    /// whole.
    pub open spec fn spec_is_normalized(self) -> bool {
        self.spec_total() == PPM_WHOLE
    }

    /// Returns the sum of all mole fractions, in parts per million.
    pub fn total(&self) -> (t: u64)
        ensures
            t == self.spec_total(),
    {
        self.methane as u64 + self.nitrogen as u64 + self.carbon_dioxide as u64
            + self.ethane as u64 + self.propane as u64 + self.isobutane as u64
            + self.n_butane as u64 + self.isopentane as u64 + self.n_pentane as u64
            + self.hexane as u64 + self.heptane as u64 + self.octane as u64
            + self.nonane as u64 + self.decane as u64 + self.hydrogen as u64
            + self.oxygen as u64 + self.carbon_monoxide as u64 + self.water as u64
            + self.hydrogen_sulfide as u64 + self.helium as u64 + self.argon as u64
    }

    /// Tests whether the fractions sum to exactly one whole.
    pub fn is_normalized(&self) -> (r: bool)
        ensures
            r == self.spec_is_normalized(),
    {
        self.total() == PPM_WHOLE
    }

    /// The composition the bridge session runs with: 79% methane,
    /// 4% nitrogen, 4% carbon dioxide, 13% propane, nothing else.
    pub fn bridge_default() -> (c: GasComposition)
        ensures
            c.spec_is_normalized(),
            c.methane == 790_000,
            c.nitrogen == 40_000,
            c.carbon_dioxide == 40_000,
            c.propane == 130_000,
            c.ethane == 0,
            c.isobutane == 0,
            c.n_butane == 0,
            c.isopentane == 0,
            c.n_pentane == 0,
            c.hexane == 0,
            c.heptane == 0,
            c.octane == 0,
            c.nonane == 0,
            c.decane == 0,
            c.hydrogen == 0,
            c.oxygen == 0,
            c.carbon_monoxide == 0,
            c.water == 0,
            c.hydrogen_sulfide == 0,
            c.helium == 0,
            c.argon == 0,
    {
        GasComposition {
            methane: 790_000,
            nitrogen: 40_000,
            carbon_dioxide: 40_000,
            ethane: 0,
            propane: 130_000,
            isobutane: 0,
            n_butane: 0,
            isopentane: 0,
            n_pentane: 0,
            hexane: 0,
            heptane: 0,
            octane: 0,
            nonane: 0,
            decane: 0,
            hydrogen: 0,
            oxygen: 0,
            carbon_monoxide: 0,
            water: 0,
            hydrogen_sulfide: 0,
            helium: 0,
            argon: 0,
        }
    }
}

} // verus!
