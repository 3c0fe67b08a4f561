use keysound::keys::key_identifier;

#[test]
fn single_digit_codes() {
    assert_eq!(key_identifier(0), "0");
    assert_eq!(key_identifier(7), "7");
    assert_eq!(key_identifier(9), "9");
}

#[test]
fn codes_of_several_digits() {
    assert_eq!(key_identifier(10), "10");
    assert_eq!(key_identifier(30), "30");
    assert_eq!(key_identifier(105), "105");
    assert_eq!(key_identifier(1000), "1000");
    assert_eq!(key_identifier(90210), "90210");
}

#[test]
fn largest_code() {
    assert_eq!(key_identifier(u32::MAX), "4294967295");
}

#[test]
fn identifier_is_the_decimal_numeral() {
    let mut code: u32 = 0;
    for _ in 0..2000 {
        assert_eq!(key_identifier(code), code.to_string());
        code = code.wrapping_mul(31).wrapping_add(17);
    }
    for code in 0..600u32 {
        assert_eq!(key_identifier(code), code.to_string());
    }
}

#[test]
fn different_codes_have_different_identifiers() {
    let codes = [0u32, 1, 9, 10, 11, 19, 90, 99, 100, 101, 110, 1001, 1010, 1100];
    for a in codes {
        for b in codes {
            assert_eq!(key_identifier(a) == key_identifier(b), a == b);
        }
    }
}
