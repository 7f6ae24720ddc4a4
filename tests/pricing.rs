use pricing_strategy::money::display_parts;
use pricing_strategy::package::TravelPackage;
use pricing_strategy::policy::PricingStrategy;

const ALL: [PricingStrategy; 4] = [
    PricingStrategy::Regular,
    PricingStrategy::Student,
    PricingStrategy::Senior,
    PricingStrategy::Vip,
];

fn tokyo(strategy: PricingStrategy) -> TravelPackage {
    TravelPackage::new(String::from("Tokyo Adventure"), 100_000, strategy)
}

#[test]
fn multiplier_table_is_exact() {
    assert_eq!(PricingStrategy::Regular.multiplier_percent(), 100);
    assert_eq!(PricingStrategy::Student.multiplier_percent(), 80);
    assert_eq!(PricingStrategy::Senior.multiplier_percent(), 70);
    assert_eq!(PricingStrategy::Vip.multiplier_percent(), 120);
}

#[test]
fn calculate_price_multiplies_exactly() {
    assert_eq!(PricingStrategy::Regular.calculate_price(1), 100);
    assert_eq!(PricingStrategy::Student.calculate_price(1), 80);
    assert_eq!(PricingStrategy::Senior.calculate_price(3), 210);
    assert_eq!(PricingStrategy::Vip.calculate_price(12_345), 1_481_400);
    assert_eq!(PricingStrategy::Student.calculate_price(0), 0);
}

#[test]
fn largest_base_price_does_not_overflow() {
    let max = u64::MAX as u128;
    assert_eq!(PricingStrategy::Vip.calculate_price(u64::MAX), max * 120);
    assert_eq!(PricingStrategy::Regular.calculate_price(u64::MAX), max * 100);
}

#[test]
fn price_is_base_times_multiplier_for_each_policy() {
    for base in [0u64, 1, 99, 100_000, 123_456_789] {
        for s in ALL {
            let p = TravelPackage::new(String::from("x"), base, s);
            assert_eq!(p.get_price(), base as u128 * s.multiplier_percent() as u128);
        }
    }
}

#[test]
fn tokyo_scenario() {
    let mut p = tokyo(PricingStrategy::Regular);
    assert_eq!(p.name(), "Tokyo Adventure");
    assert_eq!(display_parts(p.get_price()), (1000, 0));
    p.set_pricing_strategy(PricingStrategy::Student);
    assert_eq!(display_parts(p.get_price()), (800, 0));
    p.set_pricing_strategy(PricingStrategy::Senior);
    assert_eq!(display_parts(p.get_price()), (700, 0));
    p.set_pricing_strategy(PricingStrategy::Vip);
    assert_eq!(display_parts(p.get_price()), (1200, 0));
}

#[test]
fn get_price_twice_gives_same_value() {
    for s in ALL {
        let p = tokyo(s);
        let a = p.get_price();
        let b = p.get_price();
        assert_eq!(a, b);
    }
}

#[test]
fn set_policy_takes_effect_immediately() {
    for before in ALL {
        for after in ALL {
            let mut p = tokyo(before);
            let _ = p.get_price();
            p.set_pricing_strategy(after);
            assert_eq!(p.pricing_strategy(), after);
            assert_eq!(p.get_price(), 100_000u128 * after.multiplier_percent() as u128);
        }
    }
}

#[test]
fn setting_same_policy_changes_nothing() {
    let mut p = tokyo(PricingStrategy::Senior);
    let a = p.get_price();
    p.set_pricing_strategy(PricingStrategy::Senior);
    assert_eq!(p.get_price(), a);
}

#[test]
fn set_policy_keeps_name_and_base_price() {
    let mut p = tokyo(PricingStrategy::Regular);
    for _ in 0..3 {
        for s in ALL {
            p.set_pricing_strategy(s);
            assert_eq!(p.name(), "Tokyo Adventure");
            assert_eq!(p.base_price(), 100_000);
        }
    }
    assert_eq!(p.pricing_strategy(), PricingStrategy::Vip);
}

#[test]
fn display_parts_rounds_half_up_to_cents() {
    assert_eq!(display_parts(0), (0, 0));
    assert_eq!(display_parts(12_345), (1, 23));
    assert_eq!(display_parts(12_350), (1, 24));
    assert_eq!(display_parts(12_349), (1, 23));
    assert_eq!(display_parts(999_950), (100, 0));
    assert_eq!(display_parts(49), (0, 0));
    assert_eq!(display_parts(50), (0, 1));
    assert_eq!(display_parts(u128::MAX), (u128::MAX / 10_000, 15));
}
