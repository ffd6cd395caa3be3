use command_ledger::wire::{decode_amount, encode_amount};

#[test]
fn amounts_are_written_in_decimal() {
    assert_eq!(encode_amount(0), b"0".to_vec());
    assert_eq!(encode_amount(7), b"7".to_vec());
    assert_eq!(encode_amount(10), b"10".to_vec());
    assert_eq!(encode_amount(2), b"2".to_vec());
    assert_eq!(encode_amount(1_000_000), b"1000000".to_vec());
    assert_eq!(
        encode_amount(30_000_000_000_000_000_000_000_000),
        b"30000000000000000000000000".to_vec()
    );
    assert_eq!(
        encode_amount(u64::MAX as u128 + 1),
        b"18446744073709551616".to_vec()
    );
    assert_eq!(
        encode_amount(u128::MAX),
        b"340282366920938463463374607431768211455".to_vec()
    );
}

#[test]
fn amounts_are_read_from_decimal() {
    assert_eq!(decode_amount(b"0"), Some(0));
    assert_eq!(decode_amount(b"7"), Some(7));
    assert_eq!(decode_amount(b"10"), Some(10));
    assert_eq!(decode_amount(b"9007199254740993"), Some(9_007_199_254_740_993));
    assert_eq!(
        decode_amount(b"70000000000000000000000000"),
        Some(70_000_000_000_000_000_000_000_000)
    );
    assert_eq!(
        decode_amount(b"340282366920938463463374607431768211455"),
        Some(u128::MAX)
    );
}

#[test]
fn what_is_no_amount_is_turned_down() {
    assert_eq!(decode_amount(b""), None);
    assert_eq!(decode_amount(b"00"), None);
    assert_eq!(decode_amount(b"07"), None);
    assert_eq!(decode_amount(b"+7"), None);
    assert_eq!(decode_amount(b"-7"), None);
    assert_eq!(decode_amount(b" 7"), None);
    assert_eq!(decode_amount(b"7 "), None);
    assert_eq!(decode_amount(b"7a"), None);
    assert_eq!(decode_amount(b"1_000"), None);
    assert_eq!(decode_amount(b"1.0"), None);
    assert_eq!(decode_amount(b"/"), None);
    assert_eq!(decode_amount(b":"), None);
    assert_eq!(decode_amount(b"340282366920938463463374607431768211456"), None);
    assert_eq!(decode_amount(b"340282366920938463463374607431768211460"), None);
    assert_eq!(decode_amount(b"3402823669209384634633746074317682114550"), None);
    assert_eq!(decode_amount(b"999999999999999999999999999999999999999"), None);
}

#[test]
fn every_amount_is_read_back_from_its_text() {
    let mut amounts: Vec<u128> = vec![0, 1, 9, 10, 11, 99, 100, 101, u128::MAX, u128::MAX - 1];
    let mut power: u128 = 1;
    for _ in 0..38 {
        power *= 10;
        amounts.push(power - 1);
        amounts.push(power);
        amounts.push(power + 1);
    }
    for amount in amounts {
        let text = encode_amount(amount);
        assert_eq!(decode_amount(&text), Some(amount));
        assert_eq!(String::from_utf8(text).unwrap(), amount.to_string());
    }
}
