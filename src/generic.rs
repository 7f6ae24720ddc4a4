use vstd::prelude::*;
use crate::policy;

verus! {

/// A pricing policy fixed at compile time, as a type.
pub trait PricingStrategy {
    /// The multiplier of this policy, in percent.
    spec fn percent(&self) -> nat;

    /// The price under this policy of `base_price` cents, in ten-thousandths
    /// of the currency unit.
    fn calculate_price(&self, base_price: u64) -> (r: u128)
        ensures
            r == base_price * self.percent(),
    ;
}

/// No adjustment.
pub struct RegularPricing;

/// A 20% discount.
pub struct StudentPricing;

/// A 30% discount.
pub struct SeniorPricing;

/// A 20% surcharge.
pub struct VipPricing;

impl PricingStrategy for RegularPricing {
    open spec fn percent(&self) -> nat {
        policy::percent_of(policy::PricingStrategy::Regular)
    }

    fn calculate_price(&self, base_price: u64) -> (r: u128) {
        policy::PricingStrategy::Regular.calculate_price(base_price)
    }
}

impl PricingStrategy for StudentPricing {
    open spec fn percent(&self) -> nat {
        policy::percent_of(policy::PricingStrategy::Student)
    }

    fn calculate_price(&self, base_price: u64) -> (r: u128) {
        policy::PricingStrategy::Student.calculate_price(base_price)
    }
}

impl PricingStrategy for SeniorPricing {
    open spec fn percent(&self) -> nat {
        policy::percent_of(policy::PricingStrategy::Senior)
    }

    fn calculate_price(&self, base_price: u64) -> (r: u128) {
        policy::PricingStrategy::Senior.calculate_price(base_price)
    }
}

impl PricingStrategy for VipPricing {
    open spec fn percent(&self) -> nat {
        policy::percent_of(policy::PricingStrategy::Vip)
    }

    fn calculate_price(&self, base_price: u64) -> (r: u128) {
        policy::PricingStrategy::Vip.calculate_price(base_price)
    }
}

/// A named offer whose policy is part of its type: replacing the policy
/// yields a package of another type.
pub struct TravelPackage<T: PricingStrategy> {
    name: String,
    base_price: u64,
    pricing_strategy: T,
}

impl<T: PricingStrategy> TravelPackage<T> {
    /// The name given at construction.
    pub closed spec fn name_spec(&self) -> Seq<char> {
        self.name@
    }

    /// The base price in cents given at construction.
    pub closed spec fn base_price_spec(&self) -> nat {
        self.base_price as nat
    }

    /// The policy held.
    pub closed spec fn strategy_spec(&self) -> T {
        self.pricing_strategy
    }

    /// Holds the three values as given.
    pub fn new(name: String, base_price: u64, pricing_strategy: T) -> (r: Self)
        ensures
            r.name_spec() == name@,
            r.base_price_spec() == base_price as nat,
            r.strategy_spec() == pricing_strategy,
    {
        TravelPackage { name, base_price, pricing_strategy }
    }

    /// The price under the held policy, in ten-thousandths of the currency
    /// unit.
    pub fn get_price(&self) -> (r: u128)
        ensures
            r == self.base_price_spec() * self.strategy_spec().percent(),
    {
        self.pricing_strategy.calculate_price(self.base_price)
    }

    /// The same package under `new_strategy`: the name and the base price
    /// carry over.
    pub fn with_new_strategy<U: PricingStrategy>(self, new_strategy: U) -> (r: TravelPackage<U>)
        ensures
            r.name_spec() == self.name_spec(),
            r.base_price_spec() == self.base_price_spec(),
            r.strategy_spec() == new_strategy,
    {
        TravelPackage { name: self.name, base_price: self.base_price, pricing_strategy: new_strategy }
    }

    /// The name given at construction.
    pub fn name(&self) -> (r: &str)
        ensures
            r@ == self.name_spec(),
    {
        self.name.as_str()
    }

    /// The base price in cents given at construction.
    pub fn base_price(&self) -> (r: u64)
        ensures
            r as nat == self.base_price_spec(),
    {
        self.base_price
    }
}

/// Once the policy of a package is replaced by `new_strategy`, its price is
/// the base price times the multiplier of `new_strategy`, whatever the policy
/// was before.
pub proof fn lemma_new_strategy_takes_effect<T: PricingStrategy, U: PricingStrategy>(
    p: TravelPackage<T>,
    new_strategy: U,
    q: TravelPackage<U>,
    r: u128,
)
    requires
        call_ensures(TravelPackage::<T>::with_new_strategy::<U>, (p, new_strategy), q),
        call_ensures(TravelPackage::<U>::get_price, (&q,), r),
    ensures
        r == p.base_price_spec() * new_strategy.percent(),
        q.name_spec() == p.name_spec(),
        q.base_price_spec() == p.base_price_spec(),
{
}

/// Asking for the price twice gives the same value both times.
pub proof fn lemma_get_price_idempotent<T: PricingStrategy>(p: TravelPackage<T>, r1: u128, r2: u128)
    requires
        call_ensures(TravelPackage::<T>::get_price, (&p,), r1),
        call_ensures(TravelPackage::<T>::get_price, (&p,), r2),
    ensures
        r1 == r2,
{
}

} // verus!
