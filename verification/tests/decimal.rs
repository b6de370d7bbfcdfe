use request_info::decimal::port_text;

#[test]
fn zero_is_a_single_digit() {
    assert_eq!(port_text(0), "0");
}

#[test]
fn single_digits_are_written_alone() {
    let digits = ["0", "1", "2", "3", "4", "5", "6", "7", "8", "9"];
    for (n, digit) in digits.iter().enumerate() {
        assert_eq!(port_text(n as u16), *digit);
    }
}

#[test]
fn digits_come_most_significant_first() {
    assert_eq!(port_text(10), "10");
    assert_eq!(port_text(80), "80");
    assert_eq!(port_text(443), "443");
    assert_eq!(port_text(8080), "8080");
    assert_eq!(port_text(54321), "54321");
}

#[test]
fn inner_and_trailing_zeros_are_kept() {
    assert_eq!(port_text(100), "100");
    assert_eq!(port_text(1001), "1001");
    assert_eq!(port_text(10000), "10000");
    assert_eq!(port_text(60006), "60006");
}

#[test]
fn largest_port_has_five_digits() {
    assert_eq!(port_text(u16::MAX), "65535");
}

#[test]
fn every_port_is_written_as_std_writes_it() {
    for port in 0..=u16::MAX {
        assert_eq!(port_text(port), port.to_string());
    }
}
