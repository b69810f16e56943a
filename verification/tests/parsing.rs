use keycode::{parse_hex, parse_literal_string_to_ident_string};

#[test]
fn parse_hex_reads_prefixed_literals() {
    assert_eq!(parse_hex(String::from("0x0004")), Ok(4));
    assert_eq!(parse_hex(String::from("0x001e")), Ok(30));
    assert_eq!(parse_hex(String::from("0x070004")), Ok(0x0007_0004));
    assert_eq!(parse_hex(String::from("0xe05b")), Ok(0xe05b));
    assert_eq!(parse_hex(String::from("0xDEADbeef")), Ok(0xdead_beef));
    assert_eq!(parse_hex(String::from("0x0")), Ok(0));
    assert_eq!(parse_hex(String::from("0xffffffff")), Ok(u32::MAX));
    assert_eq!(parse_hex(String::from("0x00000000ff")), Ok(0xff));
}

#[test]
fn parse_hex_swallows_repeated_prefixes_and_a_plus_sign() {
    assert_eq!(parse_hex(String::from("0x0x1f")), Ok(0x1f));
    assert_eq!(parse_hex(String::from("0x0x0xff")), Ok(0xff));
    assert_eq!(parse_hex(String::from("0x+1f")), Ok(0x1f));
    assert_eq!(parse_hex(String::from("0x+0")), Ok(0));
    assert_eq!(parse_hex(String::from("0x+")), Err(()));
    assert_eq!(parse_hex(String::from("0x++1")), Err(()));
    assert_eq!(parse_hex(String::from("0x-1")), Err(()));
    assert_eq!(parse_hex(String::from("0x0x")), Err(()));
}

#[test]
fn parse_hex_rejects_malformed_or_oversized_literals() {
    assert_eq!(parse_hex(String::from("")), Err(()));
    assert_eq!(parse_hex(String::from("0x")), Err(()));
    assert_eq!(parse_hex(String::from("1e")), Err(()));
    assert_eq!(parse_hex(String::from("x1e")), Err(()));
    assert_eq!(parse_hex(String::from("0X1e")), Err(()));
    assert_eq!(parse_hex(String::from("0x1g")), Err(()));
    assert_eq!(parse_hex(String::from("0x 4")), Err(()));
    assert_eq!(parse_hex(String::from("0x100000000")), Err(()));
}

#[test]
fn literal_strings_lose_their_quote_runs() {
    assert_eq!(
        parse_literal_string_to_ident_string(String::from("\"KeyA\"")),
        Ok(String::from("KeyA"))
    );
    assert_eq!(
        parse_literal_string_to_ident_string(String::from("\"\"")),
        Ok(String::from(""))
    );
    assert_eq!(
        parse_literal_string_to_ident_string(String::from("\"")),
        Ok(String::from(""))
    );
    assert_eq!(
        parse_literal_string_to_ident_string(String::from("\"\"KeyA\"\"")),
        Ok(String::from("KeyA"))
    );
    assert_eq!(
        parse_literal_string_to_ident_string(String::from("\"\"\"")),
        Ok(String::from(""))
    );
    assert_eq!(
        parse_literal_string_to_ident_string(String::from("\"a\"b\"")),
        Ok(String::from("a\"b"))
    );
}

#[test]
fn unquoted_strings_are_rejected() {
    assert_eq!(
        parse_literal_string_to_ident_string(String::from("KeyA")),
        Err(())
    );
    assert_eq!(
        parse_literal_string_to_ident_string(String::from("\"KeyA")),
        Err(())
    );
    assert_eq!(
        parse_literal_string_to_ident_string(String::from("KeyA\"")),
        Err(())
    );
    assert_eq!(
        parse_literal_string_to_ident_string(String::from("")),
        Err(())
    );
}
