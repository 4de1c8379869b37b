use eth_gas_estimator::{
    parse_address, parse_bytes, parse_u128, parse_u256, validate_input, Error, TransactionInput,
};

fn transfer(from: &str, to: &str) -> TransactionInput {
    TransactionInput {
        from: from.to_string(),
        to: to.to_string(),
        data: Some("0x".to_string()),
        value: Some("1000000000000000".to_string()),
        gas_price: None,
        max_fee_per_gas: None,
        max_priority_fee_per_gas: None,
        _nonce: None,
    }
}

fn invalid_message(r: Result<u128, Error>) -> String {
    match r {
        Err(Error::InvalidInput(msg)) => msg,
        other => panic!("expected an invalid input, got {:?}", other),
    }
}

#[test]
fn parse_u128_reads_decimal_amounts() {
    assert_eq!(parse_u128("2000000000").unwrap(), 2_000_000_000);
    assert_eq!(parse_u128("0").unwrap(), 0);
    assert_eq!(parse_u128("+42").unwrap(), 42);
    assert_eq!(parse_u128("000123").unwrap(), 123);
    assert_eq!(
        parse_u128("340282366920938463463374607431768211455").unwrap(),
        u128::MAX
    );
}

#[test]
fn parse_u128_rejects_malformed_amounts() {
    for bad in ["", "+", "-1", "12a", " 1", "1 ", "0x10", "1_000", "340282366920938463463374607431768211456"] {
        assert_eq!(invalid_message(parse_u128(bad)), "Invalid u128 value", "input {:?}", bad);
    }
}

#[test]
fn parse_address_decodes_hex() {
    let a = parse_address("0x742d35Cc6634C0532925a3b844Bc454e4438f44e").unwrap();
    assert_eq!(a[0], 0x74);
    assert_eq!(a[1], 0x2d);
    assert_eq!(a[19], 0x4e);
    let b = parse_address("742d35Cc6634C0532925a3b844Bc454e4438f44e").unwrap();
    assert_eq!(a, b);
}

#[test]
fn parse_address_rejects_bad_text() {
    match parse_address("invalid_address") {
        Err(Error::InvalidInput(msg)) => assert_eq!(msg, "Invalid address: invalid_address"),
        other => panic!("expected an invalid input, got {:?}", other),
    }
    assert!(parse_address("").is_err());
    assert!(parse_address("0x742d35Cc6634C0532925a3b844Bc454e4438f4").is_err());
    assert!(parse_address("0x742d35Cc6634C0532925a3b844Bc454e4438f44e00").is_err());
}

#[test]
fn parse_bytes_decodes_hex_data() {
    assert_eq!(parse_bytes("0x").unwrap(), Vec::<u8>::new());
    assert_eq!(parse_bytes("").unwrap(), Vec::<u8>::new());
    assert_eq!(parse_bytes("0x095ea7b3").unwrap(), vec![0x09, 0x5e, 0xa7, 0xb3]);
    assert_eq!(parse_bytes("0XABcd").unwrap(), vec![0xab, 0xcd]);
    match parse_bytes("0x123") {
        Err(Error::InvalidInput(msg)) => assert_eq!(msg, "Invalid transaction data"),
        other => panic!("expected an invalid input, got {:?}", other),
    }
    assert!(parse_bytes("0xzz").is_err());
}

#[test]
fn parse_u256_reads_values_as_limbs() {
    assert_eq!(parse_u256("1000000000000000").unwrap(), [1_000_000_000_000_000, 0, 0, 0]);
    assert_eq!(parse_u256("18446744073709551616").unwrap(), [0, 1, 0, 0]);
    assert_eq!(parse_u256("0").unwrap(), [0, 0, 0, 0]);
    match parse_u256("abc") {
        Err(Error::InvalidInput(msg)) => assert_eq!(msg, "Invalid U256 value"),
        other => panic!("expected an invalid input, got {:?}", other),
    }
    let too_big = "115792089237316195423570985008687907853269984665640564039457584007913129639936";
    assert!(parse_u256(too_big).is_err());
    let max = "115792089237316195423570985008687907853269984665640564039457584007913129639935";
    assert_eq!(parse_u256(max).unwrap(), [u64::MAX; 4]);
}

#[test]
fn parse_u256_reads_prefixes_and_separators() {
    assert_eq!(parse_u256("0x10").unwrap(), [16, 0, 0, 0]);
    assert_eq!(parse_u256("0XfF").unwrap(), [255, 0, 0, 0]);
    assert_eq!(parse_u256("0o17").unwrap(), [15, 0, 0, 0]);
    assert_eq!(parse_u256("0b101").unwrap(), [5, 0, 0, 0]);
    assert_eq!(parse_u256("1_000").unwrap(), [1000, 0, 0, 0]);
    assert_eq!(parse_u256("").unwrap(), [0, 0, 0, 0]);
    assert_eq!(parse_u256("0x").unwrap(), [0, 0, 0, 0]);
    assert!(parse_u256("0b102").is_err());
    assert!(parse_u256("0o8").is_err());
    assert!(parse_u256("12a").is_err());
    assert!(parse_u256("0x1g").is_err());
    let mut too_big = String::from("0x1");
    too_big.push_str(&"0".repeat(64));
    assert!(parse_u256(&too_big).is_err());
    let mut max = String::from("0x");
    max.push_str(&"f".repeat(64));
    assert_eq!(parse_u256(&max).unwrap(), [u64::MAX; 4]);
}

#[test]
fn validate_input_requires_both_addresses() {
    let ok = transfer("0xAAAA", "0xBBBB");
    assert!(validate_input(&ok).is_ok());
    match validate_input(&transfer("", "0xBBBB")) {
        Err(Error::InvalidInput(msg)) => assert_eq!(msg, "Missing 'from' address"),
        other => panic!("expected an invalid input, got {:?}", other),
    }
    match validate_input(&transfer("0xAAAA", "")) {
        Err(Error::InvalidInput(msg)) => assert_eq!(msg, "Missing 'to' address"),
        other => panic!("expected an invalid input, got {:?}", other),
    }
}
