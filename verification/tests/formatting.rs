use sysmon_core::network::{makestr, UnitVariant};
use sysmon_core::sensors::{normalize_temps_dynamic, TempUnit};
use sysmon_core::strfmt::{fixed1_string, fixed2_string, u64_to_string};

#[test]
fn decimal_rendering() {
    assert_eq!(u64_to_string(0), "0");
    assert_eq!(u64_to_string(7), "7");
    assert_eq!(u64_to_string(40), "40");
    assert_eq!(u64_to_string(407), "407");
    assert_eq!(u64_to_string(18446744073709551615), "18446744073709551615");
}

#[test]
fn fixed_point_rendering() {
    assert_eq!(fixed2_string(488), "4.88");
    assert_eq!(fixed2_string(5), "0.05");
    assert_eq!(fixed2_string(1000), "10.00");
    assert_eq!(fixed1_string(150), "15.0");
    assert_eq!(fixed1_string(7), "0.7");
}

#[test]
fn makestr_two_decimals_below_ten() {
    assert_eq!(makestr(0, UnitVariant::Short), "0.00 b");
    assert_eq!(makestr(5, UnitVariant::Short), "5.00 b");
    assert_eq!(makestr(9, UnitVariant::Short), "9.00 b");
}

#[test]
fn makestr_one_decimal_from_ten_to_under_ninety_nine() {
    assert_eq!(makestr(10, UnitVariant::Short), "10.0 b");
    assert_eq!(makestr(50, UnitVariant::Short), "50.0 b");
    assert_eq!(makestr(98, UnitVariant::Short), "98.0 b");
}

#[test]
fn makestr_no_decimals_from_ninety_nine() {
    assert_eq!(makestr(99, UnitVariant::Short), "99 b");
    assert_eq!(makestr(500, UnitVariant::Short), "500 b");
    assert_eq!(makestr(998, UnitVariant::Short), "998 b");
}

#[test]
fn makestr_tier_boundary_at_999() {
    // The division threshold is 999: 998 stays in the base tier, 999
    // and 1000 both move up.
    assert_eq!(makestr(998, UnitVariant::Short), "998 b");
    assert_eq!(makestr(999, UnitVariant::Short), "0.98 K");
    assert_eq!(makestr(1000, UnitVariant::Short), "0.98 K");
}

#[test]
fn makestr_tiers_and_long_units() {
    assert_eq!(makestr(5000, UnitVariant::Short), "4.88 K");
    assert_eq!(makestr(5000, UnitVariant::Long), "4.88 Kbps");
    assert_eq!(makestr(5242880, UnitVariant::Short), "5.00 M");
    assert_eq!(makestr(5368709120, UnitVariant::Short), "5.00 G");
    assert_eq!(makestr(5497558138880, UnitVariant::Short), "5.00 T");
    assert_eq!(makestr(0, UnitVariant::Long), "0.00 bps");
}

#[test]
fn normalize_empty_is_empty() {
    let r = normalize_temps_dynamic(&vec![], 10);
    assert_eq!(r.len(), 0);
}

#[test]
fn normalize_all_at_or_below_floor_is_zero() {
    let r = normalize_temps_dynamic(&vec![5, 5, 5], 10);
    assert_eq!(r, vec![0, 0, 0]);
}

#[test]
fn normalize_maps_max_to_one_hundred() {
    let r = normalize_temps_dynamic(&vec![50, 100, 150], 0);
    assert_eq!(r, vec![33, 66, 100]);
}

#[test]
fn normalize_ceiling_is_at_least_one_hundred() {
    // Max sample 60 with floor 20: ceiling stays 100, range 80.
    let r = normalize_temps_dynamic(&vec![20, 60, 100], 20);
    assert_eq!(r, vec![0, 50, 100]);
}

#[test]
fn temp_unit_index_round_trip() {
    assert_eq!(usize::from(TempUnit::Celsius), 0);
    assert_eq!(usize::from(TempUnit::Kelvin), 2);
    assert_eq!(TempUnit::from(1usize), TempUnit::Farenheit);
    assert_eq!(TempUnit::from(3usize), TempUnit::Rankine);
    // Out-of-range indices fall back to Celsius.
    assert_eq!(TempUnit::from(9usize), TempUnit::Celsius);
}
