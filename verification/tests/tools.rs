use lc3_traits::tools::hex_string_to_integer;

#[test]
fn four_digit_words() {
    assert_eq!(hex_string_to_integer("FFFF"), 0xFFFF);
    assert_eq!(hex_string_to_integer("3000"), 0x3000);
    assert_eq!(hex_string_to_integer("0A1B"), 0x0A1B);
    assert_eq!(hex_string_to_integer("F000"), 0xF000);
}

#[test]
fn short_long_and_odd_input() {
    assert_eq!(hex_string_to_integer(""), 0);
    assert_eq!(hex_string_to_integer("1"), 0x1000);
    assert_eq!(hex_string_to_integer("12"), 0x1200);
    assert_eq!(hex_string_to_integer("11111"), 0x1112);
    assert_eq!(hex_string_to_integer("ab12"), 0x0012);
    assert_eq!(hex_string_to_integer("x9"), 0x0900);
}
