use stxn_solver::clock::parse_time_limit;
use stxn_solver::codec::{selector, signing_digest};
use stxn_solver::primitives::{Address, Amount, Hash32, TimeSpan};
use stxn_solver::text::{join_text, u64_to_decimal};

fn word_to_be_bytes(n: u64) -> [u8; 32] {
    let mut out = [0u8; 32];
    out[24..].copy_from_slice(&n.to_be_bytes());
    out
}

fn abi_string(text: &str) -> Vec<u8> {
    let mut out = Vec::new();
    out.extend_from_slice(&word_to_be_bytes(32));
    out.extend_from_slice(&word_to_be_bytes(text.len() as u64));
    out.extend_from_slice(text.as_bytes());
    while out.len() % 32 != 0 {
        out.push(0);
    }
    out
}

#[test]
fn amount_addition_carries_between_words() {
    let a = Amount { w0: u64::MAX, w1: 0, w2: 0, w3: 0 };
    let b = Amount::from_u64(1);
    assert_eq!(a.checked_add(b), Some(Amount { w0: 0, w1: 1, w2: 0, w3: 0 }));
    let c = Amount { w0: u64::MAX, w1: u64::MAX, w2: u64::MAX, w3: 0 };
    assert_eq!(c.checked_add(b), Some(Amount { w0: 0, w1: 0, w2: 0, w3: 1 }));
}

#[test]
fn amount_addition_reports_overflow() {
    let max = Amount { w0: u64::MAX, w1: u64::MAX, w2: u64::MAX, w3: u64::MAX };
    assert_eq!(max.checked_add(Amount::from_u64(1)), None);
    assert_eq!(max.checked_add(Amount::zero()), Some(max));
}

#[test]
fn amount_order_goes_by_the_high_words_first() {
    let small = Amount { w0: u64::MAX, w1: 0, w2: 0, w3: 0 };
    let big = Amount { w0: 0, w1: 1, w2: 0, w3: 0 };
    assert!(small.lt(big));
    assert!(big.gt(small));
    assert!(!small.lt(small));
    assert!(!small.gt(small));
}

#[test]
fn amount_from_ether_multiplies_by_ten_to_the_eighteen() {
    assert_eq!(Amount::from_ether(1), Amount::from_u64(1_000_000_000_000_000_000));
    // 1000 ether = 10^21 = 54 * 2^64 + 3875820019684212736
    assert_eq!(
        Amount::from_ether(1000),
        Amount { w0: 3_875_820_019_684_212_736, w1: 54, w2: 0, w3: 0 }
    );
    assert_eq!(Amount::from_ether(0), Amount::zero());
}

#[test]
fn amount_to_u32_checks_the_range() {
    assert_eq!(Amount::from_u64(7).to_u32(), Some(7));
    assert_eq!(Amount::from_u64(u32::MAX as u64).to_u32(), Some(u32::MAX));
    assert_eq!(Amount::from_u64(u32::MAX as u64 + 1).to_u32(), None);
    assert_eq!(Amount { w0: 1, w1: 1, w2: 0, w3: 0 }.to_u32(), None);
    assert!(Amount::zero().is_zero());
    assert!(!Amount::from_u64(1).is_zero());
}

#[test]
fn addresses_and_hashes_compare_by_their_bytes() {
    let a = Address { bytes: [1u8; 20] };
    let b = Address { bytes: [1u8; 20] };
    let mut other = [1u8; 20];
    other[19] = 2;
    assert!(a == b);
    assert!(a != Address { bytes: other });
    let h = Hash32 { bytes: [9u8; 32] };
    let mut changed = [9u8; 32];
    changed[0] = 0;
    assert!(h == Hash32 { bytes: [9u8; 32] });
    assert!(h != Hash32 { bytes: changed });
}

#[test]
fn time_span_carries_nanoseconds_into_seconds() {
    assert_eq!(TimeSpan::new(1, 1_500_000_000), TimeSpan { secs: 2, nanos: 500_000_000 });
    assert_eq!(TimeSpan::new(3, 7), TimeSpan { secs: 3, nanos: 7 });
    assert_eq!(TimeSpan::from_secs(4), TimeSpan { secs: 4, nanos: 0 });
    assert_eq!(TimeSpan::zero(), TimeSpan { secs: 0, nanos: 0 });
}

#[test]
fn time_span_distance_borrows_a_second() {
    let a = TimeSpan { secs: 5, nanos: 100 };
    let b = TimeSpan { secs: 3, nanos: 200 };
    assert_eq!(a.abs_diff(b), TimeSpan { secs: 1, nanos: 999_999_900 });
    assert_eq!(b.abs_diff(a), TimeSpan { secs: 1, nanos: 999_999_900 });
    assert_eq!(a.abs_diff(a), TimeSpan::zero());
    assert!(b.lt(a));
    assert!(!a.lt(b));
    assert!(a.le(a));
    assert!(!a.le(b));
}

#[test]
fn decimal_text_of_numbers() {
    assert_eq!(u64_to_decimal(0), "0");
    assert_eq!(u64_to_decimal(120), "120");
    assert_eq!(u64_to_decimal(u64::MAX), "18446744073709551615");
    assert_eq!(join_text("Transaction status: ", "1"), "Transaction status: 1");
    assert_eq!(join_text("", ""), "");
}

#[test]
fn selector_is_the_keccak_hash_of_the_abi_encoded_name() {
    let name = "FLASHLIQUIDITY.LIMITORDER";
    let expected = ethers_core::utils::keccak256(abi_string(name));
    assert_eq!(selector(name).unwrap().bytes, expected);
    assert!(selector(name).unwrap() != selector("CLEANAPP.SCHEDULER").unwrap());
    // The hash of the empty input is the well-known Keccak-256 constant;
    // the selector of the empty name hashes its 64-byte encoding instead.
    let empty = ethers_core::utils::keccak256(abi_string(""));
    assert_eq!(selector("").unwrap().bytes, empty);
    assert_eq!(abi_string("").len(), 64);
}

#[test]
fn time_limits_are_read_from_words() {
    assert_eq!(parse_time_limit("5 minutes"), Some(TimeSpan { secs: 300, nanos: 0 }));
    assert_eq!(parse_time_limit("1h 30m"), Some(TimeSpan { secs: 5400, nanos: 0 }));
    assert_eq!(parse_time_limit("120"), Some(TimeSpan { secs: 120, nanos: 0 }));
    assert_eq!(parse_time_limit("1.5s"), Some(TimeSpan { secs: 1, nanos: 500_000_000 }));
    assert_eq!(parse_time_limit("1e2s"), Some(TimeSpan { secs: 100, nanos: 0 }));
    assert_eq!(parse_time_limit("soon"), None);
    assert_eq!(parse_time_limit(""), None);
}

#[test]
fn time_limits_with_long_exponents_are_not_read() {
    // Exponents of up to four digits are read; what they give may be too
    // long for a span all the same.
    assert_eq!(parse_time_limit("1e-3s"), Some(TimeSpan { secs: 0, nanos: 1_000_000 }));
    assert_eq!(parse_time_limit("1e0003ns"), Some(TimeSpan { secs: 0, nanos: 1000 }));
    assert_eq!(parse_time_limit("5e-9999s"), Some(TimeSpan { secs: 0, nanos: 0 }));
    assert_eq!(parse_time_limit("1e100s"), None);
    assert_eq!(parse_time_limit("1e9999s"), None);
    // Exponents of five digits or more are not read at all.
    assert_eq!(parse_time_limit("1e10000s"), None);
    assert_eq!(parse_time_limit("5e-10000s"), None);
    assert_eq!(parse_time_limit("1E-999999999s"), None);
    assert_eq!(parse_time_limit("1e+00001s"), None);
    // A long text is read like a short one.
    let long = "1s ".repeat(100_000);
    assert_eq!(parse_time_limit(&long), Some(TimeSpan { secs: 100_000, nanos: 0 }));
}

#[test]
fn the_signing_digest_wraps_the_hash_as_a_signed_message() {
    let encoded = [1u8, 2, 3, 4, 5];
    let hash = ethers_core::utils::keccak256(encoded);
    let mut envelope = b"\x19Ethereum Signed Message:\n32".to_vec();
    envelope.extend_from_slice(&hash);
    assert_eq!(envelope.len(), 28 + 32);
    assert_eq!(signing_digest(&encoded).bytes, ethers_core::utils::keccak256(&envelope));
    assert!(signing_digest(&encoded) != signing_digest(&[]));
    // The hash of no bytes at all is the well-known constant.
    assert_eq!(
        ethers_core::utils::keccak256([]).to_vec(),
        vec![
            0xc5, 0xd2, 0x46, 0x01, 0x86, 0xf7, 0x23, 0x3c, 0x92, 0x7e, 0x7d, 0xb2, 0xdc, 0xc7,
            0x03, 0xc0, 0xe5, 0x00, 0xb6, 0x53, 0xca, 0x82, 0x27, 0x3b, 0x7b, 0xfa, 0xd8, 0x04,
            0x5d, 0x85, 0xa4, 0x70
        ]
    );
}

#[test]
fn a_name_of_more_than_a_million_characters_has_no_selector() {
    assert!(selector(&"a".repeat(1_000_000)).is_some());
    assert_eq!(selector(&"a".repeat(1_000_001)), None);
    // Characters are counted, not bytes.
    assert!(selector(&"\u{e9}".repeat(1_000_000)).is_some());
}
