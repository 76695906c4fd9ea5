use seedctl::descriptor::{
    derivation_path, format_key_origin, output_descriptor, script_descriptor,
};
use seedctl::keys::ScriptType;
use seedctl::text::{push_decimal, push_decimal_u64, push_decimal_usize, push_digit, push_hex, push_hex_byte};

#[test]
fn key_origin_of_a_native_segwit_account() {
    assert_eq!(format_key_origin([0x73, 0xc5, 0xda, 0x0a], 84, 0), "[73c5da0a/84h/0h/0h]");
}

#[test]
fn key_origin_pads_each_byte_to_two_digits() {
    assert_eq!(format_key_origin([0x00, 0x01, 0x0a, 0xff], 44, 1), "[00010aff/44h/1h/0h]");
    assert_eq!(format_key_origin([0, 0, 0, 0], 49, 0), "[00000000/49h/0h/0h]");
    assert_eq!(
        format_key_origin([0xde, 0xad, 0xbe, 0xef], 4294967295, 1234567890),
        "[deadbeef/4294967295h/1234567890h/0h]"
    );
}

#[test]
fn key_origin_matches_the_formatter() {
    let print = [0x9a, 0x0b, 0xc0, 0x7d];
    let expected = format!(
        "[{:02x}{:02x}{:02x}{:02x}/{}h/{}h/0h]",
        print[0], print[1], print[2], print[3], 84, 1
    );
    assert_eq!(format_key_origin(print, 84, 1), expected);
}

#[test]
fn derivation_path_of_account_zero() {
    assert_eq!(derivation_path(84, 0), "m/84'/0'/0'");
    assert_eq!(derivation_path(49, 1), "m/49'/1'/0'");
    assert_eq!(derivation_path(44, 0), "m/44'/0'/0'");
}

#[test]
fn descriptor_of_native_segwit() {
    assert_eq!(
        output_descriptor(84, "[73c5da0a/84h/0h/0h]", "zpub6rFR7", 0),
        "wpkh([73c5da0a/84h/0h/0h]zpub6rFR7/0/*)"
    );
    assert_eq!(
        output_descriptor(84, "[73c5da0a/84h/0h/0h]", "zpub6rFR7", 1),
        "wpkh([73c5da0a/84h/0h/0h]zpub6rFR7/1/*)"
    );
}

#[test]
fn descriptor_of_nested_segwit() {
    assert_eq!(
        output_descriptor(49, "[73c5da0a/49h/0h/0h]", "ypub6Ww3", 0),
        "sh(wpkh([73c5da0a/49h/0h/0h]ypub6Ww3/0/*))"
    );
    assert_eq!(
        output_descriptor(49, "[73c5da0a/49h/0h/0h]", "ypub6Ww3", 1),
        "sh(wpkh([73c5da0a/49h/0h/0h]ypub6Ww3/1/*))"
    );
}

#[test]
fn descriptor_of_legacy() {
    assert_eq!(
        output_descriptor(44, "[73c5da0a/44h/0h/0h]", "xpub6Bos", 0),
        "pkh([73c5da0a/44h/0h/0h]xpub6Bos/0/*)"
    );
    assert_eq!(
        output_descriptor(44, "[73c5da0a/44h/0h/0h]", "xpub6Bos", 1),
        "pkh([73c5da0a/44h/0h/0h]xpub6Bos/1/*)"
    );
}

#[test]
fn descriptor_of_any_chain_and_empty_parts() {
    assert_eq!(output_descriptor(84, "", "", 0), "wpkh(/0/*)");
    assert_eq!(output_descriptor(44, "o", "k", 4294967295), "pkh(ok/4294967295/*)");
    assert_eq!(output_descriptor(49, "o", "k", 10), "sh(wpkh(ok/10/*))");
}

#[test]
fn descriptor_of_a_script_type() {
    assert_eq!(script_descriptor(ScriptType::Bip84, "[o]", "key", 0), "wpkh([o]key/0/*)");
    assert_eq!(script_descriptor(ScriptType::Bip49, "[o]", "key", 1), "sh(wpkh([o]key/1/*))");
    assert_eq!(script_descriptor(ScriptType::Bip44, "[o]", "key", 0), "pkh([o]key/0/*)");
}

#[test]
fn decimal_rendering() {
    for n in [0u32, 1, 9, 10, 11, 99, 100, 101, 1000, 65535, 1234567890, 4294967295] {
        let mut text = String::from("n=");
        push_decimal(&mut text, n);
        assert_eq!(text, format!("n={}", n));
    }
    let mut text = String::new();
    push_decimal_u64(&mut text, 18446744073709551615);
    assert_eq!(text, "18446744073709551615");
    let mut text = String::new();
    push_decimal_usize(&mut text, 50);
    assert_eq!(text, "50");
}

#[test]
fn hexadecimal_rendering() {
    let mut text = String::from("x");
    push_hex(&mut text, &[0x00, 0x0f, 0xf0, 0xff, 0xa5, 0x5a, 0x10, 0x99]);
    assert_eq!(text, "x000ff0ffa55a1099");
    let mut text = String::new();
    push_hex(&mut text, &[]);
    assert_eq!(text, "");
    for b in 0u8..=255 {
        let mut text = String::new();
        push_hex_byte(&mut text, b);
        assert_eq!(text, format!("{:02x}", b));
    }
    let mut text = String::new();
    for d in 0u8..16 {
        push_digit(&mut text, d);
    }
    assert_eq!(text, "0123456789abcdef");
}
