use stregsystemet_tui::money::{amount_text, BalanceTier, Money};

#[test]
fn display_splits_kroner_and_ore() {
    let m = Money::new(12345);
    assert_eq!(m.kroner(), 123);
    assert_eq!(m.cents(), 45);
    assert_eq!(m.to_display_string(), "123,45 DKK");
}

#[test]
fn display_of_zero() {
    let m = Money::new(0);
    assert_eq!(m.kroner(), 0);
    assert_eq!(m.cents(), 0);
    assert_eq!(m.to_display_string(), "0,00 DKK");
}

#[test]
fn display_pads_single_digit_ore() {
    assert_eq!(Money::new(705).to_display_string(), "7,05 DKK");
}

#[test]
fn negative_amounts_keep_ore_positive() {
    let m = Money::new(-250);
    assert_eq!(m.kroner(), -2);
    assert_eq!(m.cents(), 50);
    assert_eq!(m.to_display_string(), "-2,50 DKK");
    assert_eq!(Money::new(-50).to_display_string(), "0,50 DKK");
}

#[test]
fn smallest_amount_does_not_overflow() {
    let m = Money::new(i32::MIN);
    assert_eq!(m.cents(), 48);
    assert_eq!(m.kroner(), -21474836);
}

#[test]
fn add_then_subtract_round_trips() {
    for (a, b) in [(0, 0), (100, 250), (-300, 1200), (999_999, -1)] {
        let x = Money::new(a);
        let y = Money::new(b);
        assert_eq!((x + y) - y, x);
    }
}

#[test]
fn scaling_and_dividing_stay_integral() {
    assert_eq!(Money::new(1250) * 3u32, Money::new(3750));
    assert_eq!(Money::new(1250) * -2i32, Money::new(-2500));
    assert_eq!(Money::new(1000) / 3u32, Money::new(333));
    assert_eq!(Money::new(-1000) / 3i32, Money::new(-333));
    assert_eq!(Money::new(1000) / -3i32, Money::new(-333));
    assert_eq!(Money::from(42), Money::new(42));
}

#[test]
fn comparisons() {
    assert!(Money::new(500).covers(&Money::new(500)));
    assert!(!Money::new(499).covers(&Money::new(500)));
    assert!(Money::new(1000).at_least(1000));
}

#[test]
fn balance_tiers_at_their_boundaries() {
    assert_eq!(Money::new(5000).tier(), BalanceTier::High);
    assert_eq!(Money::new(4999).tier(), BalanceTier::Mid);
    assert_eq!(Money::new(1000).tier(), BalanceTier::Mid);
    assert_eq!(Money::new(999).tier(), BalanceTier::Low);
    assert_eq!(Money::new(-10).tier(), BalanceTier::Low);
}

#[test]
fn wide_totals_are_written_too() {
    assert_eq!(amount_text(300_000_000_000), "3000000000,00 DKK");
    assert_eq!(amount_text(-5), "0,05 DKK");
}

#[test]
fn amounts_are_ordered_by_value() {
    assert!(Money::new(-1) < Money::new(0));
    assert!(Money::new(5000) >= Money::new(4999));
    assert_eq!(Money::new(7).partial_cmp(&Money::new(7)), Some(std::cmp::Ordering::Equal));
}
