use mintcore::ledger::composite_token_ref;
use mintcore::numerals::format_id;
use mintcore::numerals::u64_to_decimal;
use mintcore::pinning::Pinata;
use mintcore::settings::ENV;

#[test]
fn format_id_pads_single_digits() {
    assert_eq!(format_id(1), "VEC-#0000001");
    assert_eq!(format_id(9), "VEC-#0000009");
}

#[test]
fn format_id_shrinks_padding_as_magnitude_grows() {
    assert_eq!(format_id(10), "VEC-#000010");
    assert_eq!(format_id(99), "VEC-#000099");
    assert_eq!(format_id(100), "VEC-#00100");
    assert_eq!(format_id(999), "VEC-#00999");
}

#[test]
fn format_id_unpadded_from_four_digits() {
    assert_eq!(format_id(1000), "VEC-#1000");
    assert_eq!(format_id(999_999), "VEC-#999999");
    assert_eq!(format_id(1_000_000), "VEC-#1000000");
    assert_eq!(format_id(u64::MAX), "VEC-#18446744073709551615");
}

#[test]
fn format_id_zero_counts_as_one_digit() {
    assert_eq!(format_id(0), "VEC-#0000000");
}

#[test]
fn decimal_rendering() {
    assert_eq!(u64_to_decimal(0), "0");
    assert_eq!(u64_to_decimal(7), "7");
    assert_eq!(u64_to_decimal(1234567890), "1234567890");
    assert_eq!(u64_to_decimal(u64::MAX), "18446744073709551615");
}

#[test]
fn composite_token_ref_joins_ids_with_x() {
    assert_eq!(composite_token_ref(12, 7), "12x7");
    assert_eq!(composite_token_ref(0, 0), "0x0");
    assert_eq!(composite_token_ref(424242, 1), "424242x1");
}

#[test]
fn build_url_uses_configured_gateway() {
    let env = ENV {
        port: 8080,
        addrs: String::from("127.0.0.1"),
        db_url: String::new(),
        allowed_origns: String::new(),
        secret_key: String::new(),
        icp_agent_endpoint: String::new(),
        canister_principal_id: String::new(),
        pinata_api_key: String::new(),
        pinata_api_secret: String::new(),
        pinata_jwt: String::new(),
        pinata_ipfs_gateway: String::from("gateway.example.net"),
    };
    assert_eq!(
        Pinata::build_url(&env, "QmHash123"),
        "https://gateway.example.net/ips/QmHash123"
    );
}
