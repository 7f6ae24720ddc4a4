use vstd::prelude::*;

verus! {

/// The closed set of pricing policies, each a fixed multiplier.
#[derive(Clone, Copy, Debug, PartialEq, Eq, Structural)]
pub enum PricingStrategy {
    /// No adjustment.
    Regular,
    /// A 20% discount.
    Student,
    /// A 30% discount.
    Senior,
    /// A 20% surcharge.
    Vip,
}

/// The multiplier of a policy, in percent.
pub open spec fn percent_of(s: PricingStrategy) -> nat {
    match s {
        PricingStrategy::Regular => 100,
        PricingStrategy::Student => 80,
        PricingStrategy::Senior => 70,
        PricingStrategy::Vip => 120,
    }
}

/// The price that a policy gives for a base price in cents: the base times the
/// multiplier, counted in ten-thousandths of the currency unit.
pub open spec fn priced(s: PricingStrategy, base_price: nat) -> nat {
    base_price * percent_of(s)
}

impl PricingStrategy {
    /// The multiplier of this policy, in percent.
    pub fn multiplier_percent(&self) -> (r: u64)
        ensures
            r == percent_of(*self),
            *self == PricingStrategy::Regular ==> r == 100,
            *self == PricingStrategy::Student ==> r == 80,
            *self == PricingStrategy::Senior ==> r == 70,
            *self == PricingStrategy::Vip ==> r == 120,
    {
        match self {
            PricingStrategy::Regular => 100,
            PricingStrategy::Student => 80,
            PricingStrategy::Senior => 70,
            PricingStrategy::Vip => 120,
        }
    }

    /// The price under this policy of `base_price` cents, in ten-thousandths
    /// of the currency unit.
    pub fn calculate_price(&self, base_price: u64) -> (r: u128)
        ensures
            r == priced(*self, base_price as nat),
    {
        let m = self.multiplier_percent();
        assert(base_price * m <= u64::MAX * 120) by (nonlinear_arith)
            requires
                m <= 120,
        ;
        (base_price as u128) * (m as u128)
    }
}

} // verus!
