use blackjack_table::amount::Amount;
use blackjack_table::bet_chip_profile::{format_chip_units, Profile};
use blackjack_table::chipset::{calculate_chip_set, format_units};
use blackjack_table::chipset_profile::{format_chipset_units, Profile as ChipsetProfile};

fn tokens(t: u128) -> Amount {
    Amount::from_tokens(t)
}

#[test]
fn below_floor_has_no_chips() {
    for t in [0u128, 1, 50, 99] {
        let c = calculate_chip_set(tokens(t));
        assert_eq!(c.min_bet, tokens(0));
        assert_eq!(c.max_bet, tokens(t));
        assert_eq!(c.denominations, [tokens(0); 5]);
        assert!(c.denominations_str.iter().all(|s| s.is_empty()));
        assert_eq!(c.enabled, [false; 5]);
    }
    let just_below = Amount::from_attos(100 * 1_000_000_000_000_000_000 - 1);
    assert_eq!(calculate_chip_set(just_below).min_bet, tokens(0));
}

#[test]
fn profile_below_floor_has_no_chipset() {
    let mut p = Profile { seat: Some(0), balance: tokens(40), bet_data: None };
    p.calculate_bet_data();
    let d = p.bet_data.unwrap();
    assert_eq!(d.min_bet, tokens(0));
    assert_eq!(d.max_bet, tokens(40));
    assert!(d.chipset.is_none());

    let mut q = ChipsetProfile { seat: None, balance: tokens(99), chipset: None };
    q.calculate_chipset();
    let c = q.chipset.unwrap();
    assert_eq!(c.min_bet, tokens(0));
    assert!(c.denominations.is_none() && c.denominations_str.is_none() && c.enabled.is_none());
}

#[test]
fn forty_thousand_balance() {
    let c = calculate_chip_set(tokens(40_000));
    assert_eq!(c.denominations, [tokens(100), tokens(500), tokens(2_500), tokens(10_000), tokens(25_000)]);
    assert_eq!(c.enabled, [true; 5]);
    assert_eq!(c.min_bet, tokens(100));
    assert_eq!(c.max_bet, tokens(40_000));
    assert_eq!(c.denominations_str, ["100", "500", "2.5K", "10K", "25K"].map(String::from));
}

#[test]
fn sixty_thousand_balance_rescales() {
    let c = calculate_chip_set(tokens(60_000));
    assert_eq!(c.denominations, [tokens(1_000), tokens(5_000), tokens(25_000), tokens(100_000), tokens(250_000)]);
    assert_eq!(c.enabled, [true, true, true, false, false]);
    assert_eq!(c.min_bet, tokens(1_000));
    assert_eq!(c.max_bet, tokens(60_000));
}

#[test]
fn base_is_scaled_floor_below_balance() {
    for t in [100u128, 499, 49_999, 50_000, 499_999, 500_000, 123_456_789] {
        let c = calculate_chip_set(tokens(t));
        let base = c.min_bet.attos / 1_000_000_000_000_000_000;
        assert!(base >= 100 && base <= t);
        assert!(base * 500 > t);
        assert!(base == 100 || (base / 10) * 500 <= t);
        let mut b = base;
        while b > 100 {
            assert_eq!(b % 10, 0);
            b /= 10;
        }
        assert_eq!(b, 100);
    }
    assert_eq!(calculate_chip_set(tokens(50_000)).min_bet, tokens(1_000));
    assert_eq!(calculate_chip_set(tokens(49_999)).min_bet, tokens(100));
}

#[test]
fn largest_balance_keeps_largest_base() {
    let c = calculate_chip_set(Amount::from_attos(u128::MAX));
    let base = c.min_bet.attos;
    assert!(base.checked_mul(10).is_none());
    assert!(base <= u128::MAX);
    assert_eq!(c.max_bet.attos, u128::MAX);
    assert_eq!(c.denominations[4].attos, u128::MAX);
}

#[test]
fn bet_data_matches_chip_set() {
    let mut p = Profile { seat: None, balance: tokens(60_000), bet_data: None };
    p.calculate_bet_data();
    let d = p.bet_data.clone().unwrap();
    let chips = d.chipset.unwrap();
    assert_eq!(d.min_bet, tokens(1_000));
    assert_eq!(chips[3].amount, tokens(100_000));
    assert_eq!(chips[3].text, "100K");
    assert!(!chips[3].enable);
    assert!(chips[2].enable);
    p.clear_bet_data();
    assert!(p.bet_data.is_none());
    p.update_seat(2);
    assert_eq!(p.seat, Some(2));
    p.remove_seat();
    assert_eq!(p.seat, None);
    p.update_balance(tokens(5));
    assert_eq!(p.balance, tokens(5));
}

#[test]
fn format_examples() {
    assert_eq!(format_units(1_234), "1.2K");
    assert_eq!(format_units(999_999), "1M");
    assert_eq!(format_units(500), "500");
    assert_eq!(format_chip_units(1_234), "1.2K");
    assert_eq!(format_chipset_units(999_999), "1M");
    assert_eq!(format_chipset_units(500), "500");
}

#[test]
fn format_rounding_and_magnitudes() {
    assert_eq!(format_units(0), "0");
    assert_eq!(format_units(999), "999");
    assert_eq!(format_units(1_000), "1K");
    assert_eq!(format_units(1_250), "1.3K");
    assert_eq!(format_units(1_249), "1.2K");
    assert_eq!(format_units(2_500), "2.5K");
    assert_eq!(format_units(999_949), "999.9K");
    assert_eq!(format_units(999_950), "1M");
    assert_eq!(format_units(1_500_000), "1.5M");
    assert_eq!(format_units(7_000_000_000), "7B");
    assert_eq!(format_units(1_000_000_000_000), "1T");
    assert_eq!(format_units(1_000_000_000_000_000), "1Q");
    assert_eq!(format_units(2_000_000_000_000_000_000), "2Qi");
    assert_eq!(format_units(999_999_999_999_999_999_999_999), "1Sp");
    assert_eq!(format_units(u128::MAX), "340282.4D");
}
