//! The negotiated power budget of the supply.

use vstd::prelude::*;

verus! {

/// Properties of the tool's power supply.
#[derive(Debug, Clone, Copy, PartialEq, Eq, Structural)]
pub struct Supply {
    /// The maximum allowed current in milliampere.
    pub current_limit_ma: u32,
    /// A margin to leave until the limit, in milliampere (reduces the effective limit).
    pub current_margin_ma: u16,
    /// The negotiated potential in millivolt.
    pub potential_mv: u32,
}

impl Supply {
    /// The supply for a negotiated potential and current, with no margin.
    pub fn new(potential_mv: u32, current_limit_ma: u32) -> (r: Supply)
        ensures
            r == (Supply { current_limit_ma, current_margin_ma: 0, potential_mv }),
    {
        Supply { current_limit_ma, current_margin_ma: 0, potential_mv }
    }

    /// The usable current in milliampere: the limit minus the margin, never below zero.
    pub open spec fn effective_limit_ma(&self) -> int {
        if self.current_limit_ma > self.current_margin_ma {
            self.current_limit_ma - self.current_margin_ma
        } else {
            0
        }
    }

    /// The supply's maximum current minus the margin to leave, in
    /// microampere: the effectively usable current limit.
    pub fn effective_current_limit(&self) -> (r: i64)
        ensures
            r == self.effective_limit_ma() * 1_000,
            0 <= r <= self.current_limit_ma * 1_000,
    {
        let margin: u32 = self.current_margin_ma as u32;
        if self.current_limit_ma > margin {
            (self.current_limit_ma - margin) as i64 * 1_000
        } else {
            0
        }
    }

    /// The supply's maximum power output in milliwatt.
    pub fn power_limit(&self) -> (r: u64)
        ensures
            r == self.current_limit_ma * self.potential_mv / 1_000,
    {
        assert(self.current_limit_ma * self.potential_mv <= 0xffff_ffff * 0xffff_ffff)
            by (nonlinear_arith)
            requires
                self.current_limit_ma <= 0xffff_ffff,
                self.potential_mv <= 0xffff_ffff,
        ;
        (self.current_limit_ma as u64) * (self.potential_mv as u64) / 1_000
    }

    /// The supply's maximum power output in milliwatt, taking into account
    /// the margin to leave: the effectively usable power limit.
    pub fn effective_power_limit(&self) -> (r: u64)
        ensures
            r == self.effective_limit_ma() * self.potential_mv / 1_000,
    {
        let margin: u32 = self.current_margin_ma as u32;
        let usable: u64 = if self.current_limit_ma > margin {
            (self.current_limit_ma - margin) as u64
        } else {
            0
        };
        assert(usable * self.potential_mv <= 0xffff_ffff * 0xffff_ffff) by (nonlinear_arith)
            requires
                usable <= 0xffff_ffff,
                self.potential_mv <= 0xffff_ffff,
        ;
        usable * (self.potential_mv as u64) / 1_000
    }
}

} // verus!
