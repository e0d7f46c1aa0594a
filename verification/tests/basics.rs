use oracle_contracts::bytes::{
    bytes_eq, bytes_lt, extend, read_be, read_be_i128, slice_vec, write_be, write_be_i128,
};
use oracle_contracts::decimal::{Decimal, DECIMAL_FRACTIONAL, DECIMAL_PLACES};
use oracle_contracts::host::{Attribute, Event, Message, Response, StdError};
use oracle_contracts::table::{str_eq, str_lt, Table};

#[test]
fn big_endian_numbers() {
    assert_eq!(write_be(0x01020304, 4), vec![1, 2, 3, 4]);
    assert_eq!(write_be(0x01020304, 2), vec![3, 4]);
    assert_eq!(write_be(0x0102, 4), vec![0, 0, 1, 2]);
    assert_eq!(write_be(5, 0), Vec::<u8>::new());
    assert_eq!(write_be(300, 1), vec![44]);
    assert_eq!(write_be(u128::MAX, 16), vec![0xff; 16]);
    assert_eq!(write_be(0x0a0b0c0d0e0f1011, 8), 0x0a0b0c0d0e0f1011u64.to_be_bytes().to_vec());
    assert_eq!(read_be(&[1, 2, 3, 4]), 0x01020304);
    assert_eq!(read_be(&[]), 0);
    assert_eq!(read_be(&[0xff; 16]), u128::MAX);
    for x in [0i128, 1, -1, 1234567890, -1234567890, i128::MAX, i128::MIN, i128::MIN + 1] {
        assert_eq!(write_be_i128(x), x.to_be_bytes().to_vec());
        assert_eq!(read_be_i128(&x.to_be_bytes()), x);
    }
    for n in [0u128, 1, 255, 256, 1 << 64, u128::MAX - 1] {
        assert_eq!(read_be(&write_be(n, 16)), n);
        assert_eq!(write_be(n, 16), n.to_be_bytes().to_vec());
    }
}

#[test]
fn byte_strings() {
    assert!(bytes_eq(&[1, 2], &[1, 2]));
    assert!(!bytes_eq(&[1, 2], &[1, 3]));
    assert!(!bytes_eq(&[1, 2], &[1, 2, 0]));
    assert!(bytes_eq(&[], &[]));
    // the order is that of the first byte that differs; a proper prefix comes first
    assert!(bytes_lt(&[1, 2], &[1, 3]));
    assert!(!bytes_lt(&[1, 3], &[1, 2]));
    assert!(bytes_lt(&[1, 2], &[1, 2, 0]));
    assert!(!bytes_lt(&[1, 2, 0], &[1, 2]));
    assert!(!bytes_lt(&[1, 2], &[1, 2]));
    assert!(bytes_lt(&[], &[0]));
    assert!(!bytes_lt(&[], &[]));
    assert!(bytes_lt(&[0, 255], &[1]));
    for (a, b) in [(vec![1u8, 2], vec![1u8, 2, 3]), (vec![9], vec![10, 0]), (vec![], vec![])] {
        assert_eq!(bytes_lt(&a, &b), a < b);
        assert_eq!(bytes_lt(&b, &a), b < a);
    }
    let mut v = vec![1, 2];
    extend(&mut v, &[3, 4]);
    extend(&mut v, &[]);
    assert_eq!(v, vec![1, 2, 3, 4]);
    assert_eq!(slice_vec(&v, 1, 3), vec![2, 3]);
    assert_eq!(slice_vec(&v, 4, 4), Vec::<u8>::new());
    assert_eq!(slice_vec(&v, 0, 4), v);
}

#[test]
fn texts_compare_by_their_bytes() {
    assert!(str_eq("abc", "abc"));
    assert!(!str_eq("abc", "abd"));
    assert!(!str_eq("", "a"));
    assert!(str_lt("abc", "abd"));
    assert!(str_lt("ab", "abc"));
    assert!(!str_lt("abc", "abc"));
    assert!(str_lt("Z", "a"));
    assert!(str_lt("transmitter10", "transmitter2"));
    assert!(str_lt("z", "\u{e9}"));
}

#[test]
fn table_keeps_its_keys_in_order() {
    let mut table: Table<String> = Table::new();
    assert_eq!(table.len(), 0);
    assert_eq!(table.get("a"), None);
    assert_eq!(table.position("a"), None);
    for (k, v) in [("m", "1"), ("c", "2"), ("x", "3"), ("a", "4"), ("c", "5")] {
        table.insert(k.to_string(), v.to_string());
    }
    assert_eq!(table.len(), 4);
    assert_eq!(table.keys(), vec!["a", "c", "m", "x"]);
    assert_eq!(table.get("c"), Some(&"5".to_string()));
    assert_eq!(table.position("m"), Some(2));
    assert_eq!(table.key(3), "x");
    assert_eq!(table.value(0), "4");
    assert!(table.contains("x"));
    assert!(!table.contains("b"));
    table.set_value(1, "6".to_string());
    assert_eq!(table.get("c"), Some(&"6".to_string()));
    let copy = table.duplicate();
    assert_eq!(copy, table);
    assert_eq!(table.clone(), table);
    table.remove("c");
    table.remove("nothing");
    assert_eq!(table.keys(), vec!["a", "m", "x"]);
    assert_eq!(copy.len(), 4);
    table.remove("a");
    table.remove("x");
    table.remove("m");
    assert_eq!(table.len(), 0);
    assert_eq!(table, Table::new());
}

#[test]
fn decimals() {
    assert_eq!(DECIMAL_FRACTIONAL, 10u128.pow(DECIMAL_PLACES));
    assert_eq!(Decimal::one().atomics(), DECIMAL_FRACTIONAL);
    assert_eq!(Decimal::zero().atomics(), 0);
    assert!(Decimal::zero().is_zero());
    assert!(!Decimal::raw(1).is_zero());
    assert_eq!(Decimal::whole(7).atomics(), 7 * DECIMAL_FRACTIONAL);
    assert_eq!(Decimal::whole(u64::MAX).atomics(), (u64::MAX as u128) * DECIMAL_FRACTIONAL);
    assert_eq!(Decimal::percent(140).atomics(), 1_400_000_000_000_000_000);
    assert_eq!(Decimal::percent(0), Decimal::zero());
    // 2.5 * 0.5 = 1.25
    let a = Decimal::raw(2_500_000_000_000_000_000);
    let b = Decimal::percent(50);
    assert_eq!(a.checked_mul(b), Some(Decimal::raw(1_250_000_000_000_000_000)));
    assert_eq!(b.checked_mul(a), Some(Decimal::raw(1_250_000_000_000_000_000)));
    assert_eq!(a.checked_mul(Decimal::one()), Some(a));
    assert_eq!(a.checked_mul(Decimal::zero()), Some(Decimal::zero()));
    // the product is rounded down
    assert_eq!(Decimal::raw(1).checked_mul(Decimal::raw(999_999_999_999_999_999)), Some(Decimal::zero()));
    assert_eq!(Decimal::raw(3).checked_mul(Decimal::percent(50)), Some(Decimal::raw(1)));
    // the product of the greatest with one fits, with more than one it does not
    let most = Decimal::raw(u128::MAX);
    assert_eq!(most.checked_mul(Decimal::one()), Some(most));
    assert_eq!(most.checked_mul(Decimal::raw(DECIMAL_FRACTIONAL + 1)), None);
    assert_eq!(most.checked_mul(most), None);
    assert_eq!(a.checked_add(b), Some(Decimal::raw(3_000_000_000_000_000_000)));
    assert_eq!(most.checked_add(Decimal::raw(1)), None);
    assert_eq!(most.checked_add(Decimal::zero()), Some(most));
    assert!(a > b);
}

#[test]
fn responses_are_built_piece_by_piece() {
    let response = Response::new()
        .add_attribute("k1", "v1".to_string())
        .add_event(Event::new("e1").add_attribute("a", "b".to_string()))
        .add_message(Message::RaiseFlag { flags: "f".to_string(), subject: "s".to_string() })
        .add_attributes(vec![Attribute { key: "k2".to_string(), value: "v2".to_string() }])
        .add_events(vec![Event::new("e2").add_attributes(vec![Attribute {
            key: "c".to_string(),
            value: "d".to_string(),
        }])])
        .add_messages(vec![Message::Transfer {
            token: "t".to_string(),
            recipient: "r".to_string(),
            amount: 1,
        }])
        .set_data(true);
    assert_eq!(
        response,
        Response {
            messages: vec![
                Message::RaiseFlag { flags: "f".to_string(), subject: "s".to_string() },
                Message::Transfer { token: "t".to_string(), recipient: "r".to_string(), amount: 1 },
            ],
            attributes: vec![
                Attribute { key: "k1".to_string(), value: "v1".to_string() },
                Attribute { key: "k2".to_string(), value: "v2".to_string() },
            ],
            events: vec![
                Event {
                    ty: "e1".to_string(),
                    attributes: vec![Attribute { key: "a".to_string(), value: "b".to_string() }]
                },
                Event {
                    ty: "e2".to_string(),
                    attributes: vec![Attribute { key: "c".to_string(), value: "d".to_string() }]
                },
            ],
            data: Some(true),
        }
    );
    assert_eq!(StdError::NotFound.to_string(), "not found");
    assert_eq!(StdError::Overflow.to_string(), "overflow");
    assert_eq!(StdError::ConversionOverflow.to_string(), "conversion overflow");
    assert_eq!(StdError::QueryFailed.to_string(), "query failed");
}
