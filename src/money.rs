use vstd::prelude::*;

verus! {

/// A price in ten-thousandths of the currency unit, rounded half up to whole
/// cents.
pub open spec fn rounded_cents(price: nat) -> nat {
    (price + 50) / 100
}

/// Splits a price in ten-thousandths of the currency unit into whole units
/// and cents, rounded half up to the cent, for display with two decimals.
pub fn display_parts(price: u128) -> (r: (u128, u64))
    ensures
        r.0 * 100 + r.1 == rounded_cents(price as nat),
        r.1 < 100,
{
    let round_up: u128 = if price % 100 >= 50 { 1 } else { 0 };
    let cents: u128 = price / 100 + round_up;
    ((cents / 100), (cents % 100) as u64)
}

} // verus!
