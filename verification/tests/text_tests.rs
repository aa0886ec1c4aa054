use hwtools::text::{push_dec, push_dec_padded, push_hex_padded, push_milli_two_decimals, push_signed};

#[test]
fn decimal_and_hex() {
    let mut s = String::new();
    push_dec(&mut s, 0);
    s.push(' ');
    push_dec(&mut s, u64::MAX);
    s.push(' ');
    push_dec_padded(&mut s, 7, 2, '0');
    s.push(' ');
    push_dec_padded(&mut s, 123, 2, '0');
    s.push(' ');
    push_hex_padded(&mut s, 255, 4);
    s.push(' ');
    push_signed(&mut s, i64::MIN);
    s.push(' ');
    push_milli_two_decimals(&mut s, 12_345);
    assert_eq!(s, "0 18446744073709551615 07 123 00ff -9223372036854775808 12.34");
}
