use std::cmp::Ordering;

use quick_table_client::{
    decoded_reply, quick_table_client_add, HashableF64, QuickCodable, QuickError, QuickKey,
    QuickPair, QuickRowCodable, QuickTableOverWrite, QuickTableResponse, QuickValue,
    UpdateRequest,
};

fn key(parts: &[&str]) -> QuickKey {
    QuickKey::new(parts.iter().map(|p| p.to_string()).collect()).unwrap()
}

fn float(x: f64) -> HashableF64 {
    HashableF64::from_bits(x.to_bits())
}

#[test]
fn it_works() {
    let result = quick_table_client_add(2, 2);
    assert_eq!(result, 4);
}

#[test]
fn float_lower_is_less() {
    assert_eq!(float(1.0).compare(&float(2.0)), Ordering::Less);
    assert_eq!(float(2.0).compare(&float(1.0)), Ordering::Greater);
    assert_eq!(float(-1.0).compare(&float(0.5)), Ordering::Less);
    assert_eq!(float(-3.0).compare(&float(-2.0)), Ordering::Less);
    assert_eq!(float(f64::NEG_INFINITY).compare(&float(-1e300)), Ordering::Less);
    assert_eq!(float(1e300).compare(&float(f64::INFINITY)), Ordering::Less);
    assert_eq!(float(2.5).compare(&float(2.5)), Ordering::Equal);
}

#[test]
fn float_order_is_transitive_on_samples() {
    let xs = [f64::NAN, f64::NEG_INFINITY, -2.0, -0.0, 0.0, 1.5, f64::INFINITY];
    for a in xs.iter() {
        for b in xs.iter() {
            let ab = float(*a).compare(&float(*b));
            assert_eq!(float(*b).compare(&float(*a)), ab.reverse());
            for c in xs.iter() {
                let bc = float(*b).compare(&float(*c));
                if ab == Ordering::Less && bc == Ordering::Less {
                    assert_eq!(float(*a).compare(&float(*c)), Ordering::Less);
                }
            }
        }
    }
}

#[test]
fn float_nan_is_least() {
    let nan = float(f64::NAN);
    let other_nan = HashableF64::from_bits(0x7FF0_0000_0000_0001);
    assert!(nan.is_nan());
    assert!(other_nan.is_nan());
    assert!(!float(f64::INFINITY).is_nan());
    assert_eq!(nan.compare(&other_nan), Ordering::Equal);
    assert_eq!(nan.compare(&float(f64::NEG_INFINITY)), Ordering::Less);
    assert_eq!(float(-5.0).compare(&nan), Ordering::Greater);
}

#[test]
fn float_signed_zeros_order_equal_but_differ_in_bits() {
    let pos = float(0.0);
    let neg = float(-0.0);
    assert_eq!(pos.compare(&neg), Ordering::Equal);
    assert_ne!(pos, neg);
    assert_eq!(neg.to_bits(), 0x8000_0000_0000_0000);
}

#[test]
fn key_order_is_component_wise() {
    assert_eq!(key(&["a", "b"]).compare(&key(&["a", "c"])), Ordering::Less);
    assert_eq!(key(&["b"]).compare(&key(&["a", "z"])), Ordering::Greater);
    assert_eq!(key(&["ab"]).compare(&key(&["a"])), Ordering::Greater);
    assert_eq!(key(&["user", "42"]).compare(&key(&["user", "42"])), Ordering::Equal);
    assert_eq!(key(&["Z"]).compare(&key(&["a"])), Ordering::Less);
    assert_eq!(key(&["\u{e9}"]).compare(&key(&["z"])), Ordering::Greater);
}

#[test]
fn key_prefix_compares_equal() {
    let short = key(&["user"]);
    let long = key(&["user", "42"]);
    assert_eq!(short.compare(&long), Ordering::Equal);
    assert_eq!(long.compare(&short), Ordering::Equal);
    assert_ne!(short, long);
    let empty = key(&[]);
    assert_eq!(empty.compare(&long), Ordering::Equal);
}

#[test]
fn key_new_accepts_empty_and_first_key() {
    let empty = QuickKey::new(Vec::new()).unwrap();
    assert!(empty.keys.is_empty());
    assert_eq!(key(&["user", "42"]).first_key(), "user");
}

#[test]
fn int_value_round_trip() {
    for v in [0, 7, -42, 1000, i32::MAX, i32::MIN] {
        let value = QuickValue::new_int(v);
        assert_eq!(value.int_value(), Some(v));
    }
    assert_eq!(QuickValue::new_int(7).string_value(), "7");
    assert_eq!(QuickValue::new_int(-120).string_value(), "-120");
}

#[test]
fn string_value_round_trip() {
    let value = QuickValue::new_string("hello world".to_string());
    assert_eq!(value.string_value(), "hello world");
    let empty = QuickValue::new_string(String::new());
    assert_eq!(empty.string_value(), "");
}

#[test]
fn int_value_is_absent_on_other_text() {
    assert_eq!(QuickValue::new_string("abc".to_string()).int_value(), None);
    assert_eq!(QuickValue::new_string("".to_string()).int_value(), None);
    assert_eq!(QuickValue::new_string("-".to_string()).int_value(), None);
    assert_eq!(QuickValue::new_string(" 5".to_string()).int_value(), None);
    assert_eq!(QuickValue::new_string("2147483648".to_string()).int_value(), None);
    assert_eq!(QuickValue::new_string("+5".to_string()).int_value(), Some(5));
    assert_eq!(QuickValue::new_string("-0".to_string()).int_value(), Some(0));
}

#[test]
fn new_codable_keeps_text() {
    let value = QuickValue::new_codable(QuickCodable::new("{\"a\":1}".to_string()));
    assert_eq!(value.string_value(), "{\"a\":1}");
}

#[test]
fn write_without_directive() {
    let pair = QuickPair::new(key(&["user", "42"]), QuickValue::new_int(7), None, None);
    let req = UpdateRequest::new(pair, QuickTableOverWrite::no());
    assert_eq!(req.row.keys, vec!["user".to_string(), "42".to_string()]);
    assert_eq!(req.row.rank, None);
    assert_eq!(req.row.codable, "7");
    assert_eq!(req.row.score, None);
    assert!(!req.overwrite);
    assert_eq!(req.new_keys, None);
}

#[test]
fn write_moving_to_new_key() {
    let pair = QuickPair::new(key(&["user", "42"]), QuickValue::new_int(7), None, None);
    let req = UpdateRequest::new(pair, Some(QuickTableOverWrite::with_new_key(key(&["user", "43"]))));
    assert!(req.overwrite);
    assert_eq!(req.new_keys, Some(vec!["user".to_string(), "43".to_string()]));
}

#[test]
fn write_keeping_key() {
    let score = float(0.25);
    let pair = QuickPair::new(key(&["k"]), QuickValue::new_string("v".to_string()), Some(score), Some(3));
    let req = UpdateRequest::new(pair, Some(QuickTableOverWrite::keep_key()));
    assert!(req.overwrite);
    assert_eq!(req.new_keys, None);
    assert_eq!(req.row.score, Some(score));
    assert_eq!(req.row.rank, Some(3));
    assert_eq!(req.row.codable, "v");
}

#[test]
fn read_reply_becomes_row() {
    let reply = QuickRowCodable {
        keys: vec!["user".to_string(), "42".to_string()],
        rank: Some(1),
        codable: "7".to_string(),
        score: None,
    };
    let pair = decoded_reply(Ok(reply)).map(|r| r.into_pair()).unwrap();
    assert_eq!(pair.value.string_value(), "7");
    assert_eq!(pair.rank, Some(1));
    assert_eq!(pair.score, None);
    assert_eq!(pair.key, key(&["user", "42"]));
}

#[test]
fn failure_ack_is_not_a_transport_error() {
    let ack = QuickTableResponse::new(false, Some("locked".to_string()), Some(409));
    match decoded_reply(Ok(ack)) {
        Ok(r) => {
            assert!(!r.ok);
            assert_eq!(r.message, Some("locked".to_string()));
            assert_eq!(r.code, Some(409));
        }
        Err(_) => panic!("a failure acknowledgment is a reply"),
    }
}

#[test]
fn undecodable_reply_is_a_message_error() {
    let r: Result<QuickTableResponse, QuickError> = decoded_reply(Err("bad body".to_string()));
    match r {
        Err(QuickError::Message(m)) => assert_eq!(m, "bad body"),
        _ => panic!("expected a message error"),
    }
}

#[test]
fn rows_order_by_key_then_value_then_score_then_rank() {
    let row = |k: &[&str], v: &str, s: Option<f64>, r: Option<i32>| {
        QuickPair::new(key(k), QuickValue::new_string(v.to_string()), s.map(float), r)
    };
    let base = row(&["a"], "m", Some(1.0), Some(1));
    assert_eq!(row(&["b"], "a", None, None).compare(&base), Ordering::Greater);
    assert_eq!(row(&["a"], "l", Some(9.0), Some(9)).compare(&base), Ordering::Less);
    assert_eq!(row(&["a"], "m", None, Some(9)).compare(&base), Ordering::Less);
    assert_eq!(row(&["a"], "m", Some(f64::NAN), Some(9)).compare(&base), Ordering::Less);
    assert_eq!(row(&["a"], "m", Some(1.0), None).compare(&base), Ordering::Less);
    assert_eq!(row(&["a"], "m", Some(1.0), Some(2)).compare(&base), Ordering::Greater);
    assert_eq!(row(&["a", "z"], "m", Some(1.0), Some(1)).compare(&base), Ordering::Equal);
}

#[test]
fn values_order_by_text() {
    let a = QuickValue::new_string("10".to_string());
    let b = QuickValue::new_string("9".to_string());
    assert_eq!(a.compare(&b), Ordering::Less);
    assert_eq!(b.compare(&b), Ordering::Equal);
}

#[test]
fn typed_decode_failure_carries_text() {
    let codable = QuickCodable::new("abc".to_string());
    let parsed: Result<i32, QuickError> = serde_json::from_str::<i32>(&codable.json)
        .map_err(|e| codable.decode_failure(&e.to_string()));
    match parsed {
        Err(QuickError::Message(m)) => {
            assert!(m.starts_with("Error decoding abc into data: "));
            assert!(m.len() > "Error decoding abc into data: ".len());
        }
        _ => panic!("expected a decoding error"),
    }
    assert_eq!(QuickValue::new_codable(codable).int_value(), None);
}

#[test]
fn encode_failure_message() {
    match QuickCodable::encode_failure("key must be a string") {
        QuickError::Message(m) => assert_eq!(m, "Failed to jsonify: key must be a string"),
        _ => panic!("expected a message error"),
    }
}
