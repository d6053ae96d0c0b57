use bech32::ToBase32;
use enclave_core::address::canonicalize;
use enclave_core::address::check_decoded;
use enclave_core::address::check_payload;
use enclave_core::address::humanize;
use enclave_core::address::BECH32_PREFIX_ACC_ADDR;
use enclave_core::errors::WasmEngineError;

fn twenty_bytes() -> Vec<u8> {
    (1u8..=20).collect()
}

#[test]
fn humanize_known_address() {
    assert_eq!(
        humanize(&twenty_bytes()),
        Ok("secret1qypqxpq9qcrsszg2pvxq6rs0zqg3yyc5a8chmq".to_string())
    );
    assert_eq!(
        humanize(&[0u8; 20]),
        Ok("secret1qqqqqqqqqqqqqqqqqqqqqqqqqqqqqqqq3x5k6p".to_string())
    );
}

#[test]
fn canonicalize_known_address() {
    assert_eq!(
        canonicalize(b"secret1qypqxpq9qcrsszg2pvxq6rs0zqg3yyc5a8chmq"),
        Ok(Ok(twenty_bytes()))
    );
}

#[test]
fn canonicalize_then_humanize_round_trips() {
    let text = "secret1qypqxpq9qcrsszg2pvxq6rs0zqg3yyc5a8chmq";
    let canonical = canonicalize(text.as_bytes()).unwrap().unwrap();
    let human = humanize(&canonical).unwrap();
    assert_eq!(human, text);
    assert_eq!(canonicalize(human.as_bytes()), Ok(Ok(canonical)));
}

#[test]
fn humanize_then_canonicalize_round_trips() {
    for len in [0usize, 1, 5, 20, 32, 33] {
        let canonical: Vec<u8> = (0..len).map(|i| (i * 37 + 11) as u8).collect();
        let human = humanize(&canonical).unwrap();
        assert!(human.starts_with("secret1"));
        assert_eq!(canonicalize(human.as_bytes()), Ok(Ok(canonical)));
    }
}

#[test]
fn canonicalize_trims_whitespace() {
    assert_eq!(
        canonicalize(b"  \tsecret1qypqxpq9qcrsszg2pvxq6rs0zqg3yyc5a8chmq\n "),
        Ok(Ok(twenty_bytes()))
    );
}

#[test]
fn canonicalize_accepts_upper_case() {
    assert_eq!(
        canonicalize(b"SECRET1QYPQXPQ9QCRSSZG2PVXQ6RS0ZQG3YYC5A8CHMQ"),
        Ok(Ok(twenty_bytes()))
    );
}

#[test]
fn canonicalize_rejects_empty_input() {
    assert_eq!(canonicalize(b""), Err(WasmEngineError::InputEmpty));
    assert_eq!(canonicalize(b"   "), Err(WasmEngineError::InputEmpty));
    assert_eq!(canonicalize(b" \t\r\n"), Err(WasmEngineError::InputEmpty));
}

#[test]
fn canonicalize_invalid_utf8_is_status_minus_1() {
    assert_eq!(canonicalize(&[0xff, 0xfe, 0x41]), Ok(Err(-1)));
    assert_eq!(canonicalize(&[0xc3]), Ok(Err(-1)));
}

#[test]
fn canonicalize_invalid_bech32_is_status_minus_2() {
    assert_eq!(canonicalize(b"secret"), Ok(Err(-2)));
    assert_eq!(canonicalize(b"not an address at all"), Ok(Err(-2)));
    // A flipped character breaks the checksum.
    assert_eq!(canonicalize(b"secret1qypqxpq9qcrsszg2pvxq6rs0zqg3yyc5a8chmp"), Ok(Err(-2)));
    // Mixed case is not bech32.
    assert_eq!(canonicalize(b"Secret1qypqxpq9qcrsszg2pvxq6rs0zqg3yyc5a8chmq"), Ok(Err(-2)));
}

#[test]
fn canonicalize_wrong_prefix_is_status_minus_3() {
    assert_eq!(canonicalize(b"cosmos1qypqxpq9qcrsszg2pvxq6rs0zqg3yyc5lzv7xu"), Ok(Err(-3)));
    let other = bech32::encode("enigma", twenty_bytes().to_base32()).unwrap();
    assert_eq!(canonicalize(other.as_bytes()), Ok(Err(-3)));
}

#[test]
fn canonicalize_bad_payload_is_status_minus_4() {
    // Two digits of five set bits each leave two non-zero padding bits.
    assert_eq!(canonicalize(b"secret1ll7j8ars"), Ok(Err(-4)));
}

#[test]
fn check_decoded_judges_prefix() {
    assert_eq!(check_decoded(None), Err(-2));
    assert_eq!(check_decoded(Some(("secret".to_string(), vec![1, 2, 3]))), Ok(vec![1, 2, 3]));
    assert_eq!(check_decoded(Some(("secret".to_string(), vec![]))), Ok(vec![]));
    assert_eq!(check_decoded(Some(("secre".to_string(), vec![1]))), Err(-3));
    assert_eq!(check_decoded(Some(("secrets".to_string(), vec![1]))), Err(-3));
    assert_eq!(check_decoded(Some(("".to_string(), vec![1]))), Err(-3));
    assert_eq!(BECH32_PREFIX_ACC_ADDR, "secret");
}

#[test]
fn check_payload_judges_regrouping() {
    assert_eq!(check_payload(None), Err(-4));
    assert_eq!(check_payload(Some(vec![9, 8])), Ok(vec![9, 8]));
}
