use vstd::prelude::*;
use crate::policy::{PricingStrategy, percent_of, priced};

verus! {

/// A named offer whose pricing policy can be replaced at run time.
///
/// The name and the base price are fixed at construction; only the policy
/// changes.
pub struct TravelPackage {
    name: String,
    base_price: u64,
    pricing_strategy: PricingStrategy,
}

impl TravelPackage {
    /// The name given at construction.
    pub closed spec fn name_spec(&self) -> Seq<char> {
        self.name@
    }

    /// The base price in cents given at construction.
    pub closed spec fn base_price_spec(&self) -> nat {
        self.base_price as nat
    }

    /// The policy currently held.
    pub closed spec fn strategy_spec(&self) -> PricingStrategy {
        self.pricing_strategy
    }

    /// This package with its policy replaced by `s`.
    pub closed spec fn with_strategy(self, s: PricingStrategy) -> TravelPackage {
        TravelPackage { pricing_strategy: s, ..self }
    }

    /// What `get_price` returns: the held policy applied to the base price.
    pub open spec fn price_spec(&self) -> nat {
        priced(self.strategy_spec(), self.base_price_spec())
    }

    /// Holds the three values as given.
    pub fn new(name: String, base_price: u64, pricing_strategy: PricingStrategy) -> (r: Self)
        ensures
            r.name_spec() == name@,
            r.base_price_spec() == base_price as nat,
            r.strategy_spec() == pricing_strategy,
    {
        TravelPackage { name, base_price, pricing_strategy }
    }

    /// The price under the held policy, in ten-thousandths of the currency
    /// unit.
    pub fn get_price(&self) -> (r: u128)
        ensures
            r == self.price_spec(),
            r == self.base_price_spec() * percent_of(self.strategy_spec()),
    {
        self.pricing_strategy.calculate_price(self.base_price)
    }

    /// Replaces the held policy; the name and the base price stay.
    pub fn set_pricing_strategy(&mut self, pricing_strategy: PricingStrategy)
        ensures
            *final(self) == old(self).with_strategy(pricing_strategy),
            final(self).strategy_spec() == pricing_strategy,
            final(self).name_spec() == old(self).name_spec(),
            final(self).base_price_spec() == old(self).base_price_spec(),
    {
        self.pricing_strategy = pricing_strategy;
    }

    /// The name given at construction.
    pub fn name(&self) -> (r: &str)
        ensures
            r@ == self.name_spec(),
    {
        self.name.as_str()
    }

    /// The base price in cents given at construction.
    pub fn base_price(&self) -> (r: u64)
        ensures
            r as nat == self.base_price_spec(),
    {
        self.base_price
    }

    /// The policy currently held.
    pub fn pricing_strategy(&self) -> (r: PricingStrategy)
        ensures
            r == self.strategy_spec(),
    {
        self.pricing_strategy
    }
}

/// The package after its policy is replaced by each of `policies` in turn.
pub open spec fn after_policies(p: TravelPackage, policies: Seq<PricingStrategy>) -> TravelPackage
    decreases policies.len(),
{
    if policies.len() == 0 {
        p
    } else {
        after_policies(p.with_strategy(policies[0]), policies.drop_first())
    }
}

/// Asking for the price twice, with no change of policy between, gives the
/// same value both times.
pub proof fn lemma_get_price_idempotent(p: TravelPackage, r1: u128, r2: u128)
    requires
        call_ensures(TravelPackage::get_price, (&p,), r1),
        call_ensures(TravelPackage::get_price, (&p,), r2),
    ensures
        r1 == r2,
{
}

/// Once the policy is replaced by `s`, the price is the base price times the
/// multiplier of `s`, whatever the policy was before.
pub proof fn lemma_set_policy_takes_effect(p: TravelPackage, s: PricingStrategy, r: u128)
    requires
        call_ensures(TravelPackage::get_price, (&p.with_strategy(s),), r),
    ensures
        r == p.base_price_spec() * percent_of(s),
        r == priced(s, p.base_price_spec()),
{
}

/// Replacing the policy any number of times keeps the name and the base
/// price given at construction, and leaves the last policy in force.
pub proof fn lemma_policies_keep_name_and_base(p: TravelPackage, policies: Seq<PricingStrategy>)
    ensures
        after_policies(p, policies).name_spec() == p.name_spec(),
        after_policies(p, policies).base_price_spec() == p.base_price_spec(),
        policies.len() > 0 ==> after_policies(p, policies).strategy_spec() == policies.last(),
        policies.len() == 0 ==> after_policies(p, policies) == p,
    decreases policies.len(),
{
    if policies.len() > 0 {
        let rest = policies.drop_first();
        lemma_policies_keep_name_and_base(p.with_strategy(policies[0]), rest);
        if rest.len() > 0 {
            assert(rest.last() == policies.last());
        }
    }
}

} // verus!
