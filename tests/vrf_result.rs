use vrf_request::VrfResult;

const SCENARIO_RANDOM: [u8; 16] = [111, 118, 107, 173, 240, 168, 69, 73, 10, 9, 142, 105, 124, 62, 45, 22];

#[test]
fn test() {
    let record = VrfResult::default().to_bytes();
    let value: u32 = 1234;
    let mut v: Vec<u8> = record.clone();
    v.extend_from_slice(&value.to_le_bytes());
    assert_eq!(v.len(), 84);
    assert_eq!(&v[0..32], &[0u8; 32][..]);
    assert_eq!(&v[32..80], &[0u8; 48][..]);
    assert_eq!(&v[80..], &[210u8, 4, 0, 0][..]);
}

#[test]
fn r1() {
    let r = VrfResult::new(SCENARIO_RANDOM);
    assert_eq!(r.bound(0u64..=u32::MAX as u64), 3865472118u64);
}

#[test]
fn bound_is_repeatable() {
    let a = VrfResult::new(SCENARIO_RANDOM).bound(0u64..=u32::MAX as u64);
    let b = VrfResult::new(SCENARIO_RANDOM).bound(0u64..=u32::MAX as u64);
    assert_eq!(a, b);
}

#[test]
fn bound_single_value_range() {
    assert_eq!(VrfResult::new(SCENARIO_RANDOM).bound(7u8..=7u8), 7u8);
    assert_eq!(VrfResult::new([255u8; 16]).bound(-3i32..=-3i32), -3i32);
    assert_eq!(VrfResult::default().bound(u64::MAX..=u64::MAX), u64::MAX);
}

#[test]
fn bound_negative_random_value_stays_in_range() {
    let mut random = [1u8; 16];
    random[0] = 200;
    assert_eq!(VrfResult::new(random).bound(5u32..=15u32), 14u32);
    assert_eq!(VrfResult::new([255u8; 16]).bound(0i64..=7i64), 6i64);
}

#[test]
fn bound_small_values_within_range() {
    for first in 0u8..=255 {
        let mut random = [9u8; 16];
        random[0] = first;
        let x = VrfResult::new(random).bound(-10i16..=10i16);
        assert!((-10..=10).contains(&x));
    }
}

#[test]
fn bound_zero_random_gives_low() {
    assert_eq!(VrfResult::default().bound(100u16..=200u16), 100u16);
}

#[test]
fn bound_wide_signed_range() {
    let mut random = [0u8; 16];
    random[15] = 5;
    assert_eq!(VrfResult::new(random).bound(i64::MIN..=i64::MAX), i64::MIN + 5);
}

#[test]
fn bound_into_u128_range() {
    let mut random = [0u8; 16];
    random[14] = 1;
    assert_eq!(VrfResult::new(random).bound(1000u128..=1100u128), 1056u128);
}

#[test]
fn record_round_trip_default() {
    let bytes = VrfResult::default().to_bytes();
    assert_eq!(bytes.len(), 80);
    assert!(bytes.iter().all(|b| *b == 0));
    let back = VrfResult::from_bytes(&bytes).unwrap();
    assert_eq!(back.random, [0u8; 16]);
    assert_eq!(back.request_transaction, [0u8; 64]);
}

#[test]
fn record_round_trip_non_zero() {
    let mut signature = [0u8; 64];
    for (i, b) in signature.iter_mut().enumerate() {
        *b = (i as u8).wrapping_mul(3).wrapping_add(1);
    }
    let r = VrfResult { random: SCENARIO_RANDOM, request_transaction: signature };
    let bytes = r.to_bytes();
    assert_eq!(bytes.len(), 80);
    assert_eq!(&bytes[0..16], &SCENARIO_RANDOM[..]);
    assert_eq!(&bytes[16..80], &signature[..]);
    let back = VrfResult::from_bytes(&bytes).unwrap();
    assert_eq!(back.random, SCENARIO_RANDOM);
    assert_eq!(back.request_transaction, signature);
}

#[test]
fn record_of_wrong_length_is_refused() {
    assert!(VrfResult::from_bytes(&[0u8; 79]).is_none());
    assert!(VrfResult::from_bytes(&[0u8; 81]).is_none());
    assert!(VrfResult::from_bytes(&[]).is_none());
}

#[test]
fn new_zeroes_the_reference() {
    let r = VrfResult::new(SCENARIO_RANDOM);
    assert_eq!(r.random, SCENARIO_RANDOM);
    assert_eq!(r.request_transaction, [0u8; 64]);
}
