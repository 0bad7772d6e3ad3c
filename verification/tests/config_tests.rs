//! Reading the device bus address from configuration text.

use isis_eps_service::config::parse_bus_address;

#[test]
fn decimal_addresses() {
    assert_eq!(parse_bus_address("0"), Some(0));
    assert_eq!(parse_bus_address("72"), Some(72));
    assert_eq!(parse_bus_address("007"), Some(7));
    assert_eq!(parse_bus_address("65535"), Some(65535));
}

#[test]
fn hexadecimal_addresses() {
    assert_eq!(parse_bus_address("0x48"), Some(0x48));
    assert_eq!(parse_bus_address("0x0"), Some(0));
    assert_eq!(parse_bus_address("0xffff"), Some(0xFFFF));
    assert_eq!(parse_bus_address("0xFFFF"), Some(0xFFFF));
    assert_eq!(parse_bus_address("0xAb"), Some(0xAB));
}

#[test]
fn addresses_that_do_not_fit_sixteen_bits() {
    assert_eq!(parse_bus_address("65536"), None);
    assert_eq!(parse_bus_address("100000"), None);
    assert_eq!(parse_bus_address("0x10000"), None);
    assert_eq!(parse_bus_address("0xFFFFFFFFFF"), None);
}

#[test]
fn malformed_addresses() {
    assert_eq!(parse_bus_address(""), None);
    assert_eq!(parse_bus_address("0x"), None);
    assert_eq!(parse_bus_address("12a"), None);
    assert_eq!(parse_bus_address("0xg1"), None);
    assert_eq!(parse_bus_address(" 72"), None);
    assert_eq!(parse_bus_address("72 "), None);
    assert_eq!(parse_bus_address("-1"), None);
    // Hexadecimal needs its lowercase marker; letters are no decimal digits.
    assert_eq!(parse_bus_address("0X48"), None);
    assert_eq!(parse_bus_address("48h"), None);
}
