use raffle::selector::{bytes_to_u64, select_winner, u64_decimal};
use raffle::Error;

#[test]
fn decimal_of_zero_and_many_digits() {
    assert_eq!(u64_decimal(0), vec![b'0']);
    assert_eq!(u64_decimal(7), vec![b'7']);
    assert_eq!(u64_decimal(150), vec![b'1', b'5', b'0']);
    assert_eq!(u64_decimal(18446744073709551615), b"18446744073709551615".to_vec());
}

#[test]
fn big_endian_of_first_eight_bytes() {
    let bytes = [0x01u8, 0x02, 0x03, 0x04, 0x05, 0x06, 0x07, 0x08, 0xff, 0xff];
    assert_eq!(bytes_to_u64(&bytes), 0x0102030405060708);
    let max = [0xffu8; 8];
    assert_eq!(bytes_to_u64(&max), u64::MAX);
    let zero = [0u8; 32];
    assert_eq!(bytes_to_u64(&zero), 0);
}

#[test]
fn select_winner_is_deterministic() {
    let fixed_time: u64 = 987654321;
    let first = select_winner(5, fixed_time);
    let second = select_winner(5, fixed_time);
    assert!(first.is_ok());
    assert_eq!(first, second);
}

#[test]
fn select_winner_refuses_zero_tickets() {
    assert_eq!(select_winner(0, 150), Err(Error::WinnerError));
}

#[test]
fn select_winner_stays_in_range() {
    for count in 1u64..=7 {
        for time in [0u64, 1, 99, 100, 150, u64::MAX] {
            let w = select_winner(count, time).unwrap();
            assert!(w < count);
        }
    }
}

#[test]
fn select_winner_matches_known_digests() {
    // SHA3-256("150") begins e2 d9 0a 47 e5 89 0b 14, i.e. 16346107626427845396.
    assert_eq!(select_winner(u64::MAX, 150), Ok(16346107626427845396));
    assert_eq!(select_winner(3, 150), Ok(0));
    assert_eq!(select_winner(5, 150), Ok(1));
    // SHA3-256("0") begins f9 e2 ea aa 42 d9 fe 9e, i.e. 18006212277167586974.
    assert_eq!(select_winner(u64::MAX, 0), Ok(18006212277167586974));
    assert_eq!(select_winner(5, 0), Ok(4));
}
