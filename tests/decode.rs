use isdayoff::api::{IsDayOffApi, IsDayOffApiError};
use isdayoff::decode::{decode_single, to_vec, DecodeError};

#[test]
fn decode_single_digit() {
    assert_eq!(to_vec("1".to_string()), Ok(vec![1]));
}

#[test]
fn decode_month_body() {
    let body = "100000110000011000001100000110";
    let v = to_vec(body.to_string()).unwrap();
    assert_eq!(v.len(), body.len());
    for (c, d) in body.chars().zip(v.iter()) {
        assert_eq!(c.to_digit(10).unwrap(), *d);
    }
}

#[test]
fn decode_every_status() {
    assert_eq!(to_vec("0123".to_string()), Ok(vec![0, 1, 2, 3]));
    assert_eq!(to_vec(String::new()), Ok(vec![]));
}

#[test]
fn decode_rejects_non_digit() {
    assert_eq!(
        to_vec("1a".to_string()),
        Err(DecodeError::InvalidCharacter { position: 1, found: 'a' })
    );
    assert_eq!(
        decode_single("1a".to_string()),
        Err(DecodeError::InvalidCharacter { position: 1, found: 'a' })
    );
}

#[test]
fn decode_rejects_digit_outside_statuses() {
    assert_eq!(
        to_vec("0140".to_string()),
        Err(DecodeError::InvalidCharacter { position: 2, found: '4' })
    );
}

#[test]
fn decode_reports_first_bad_character() {
    assert_eq!(
        to_vec("0x1y".to_string()),
        Err(DecodeError::InvalidCharacter { position: 1, found: 'x' })
    );
    assert_eq!(
        to_vec("\u{44f}1".to_string()),
        Err(DecodeError::InvalidCharacter { position: 0, found: '\u{44f}' })
    );
}

#[test]
fn decode_single_needs_exactly_one() {
    assert_eq!(decode_single(String::new()), Err(DecodeError::NotSingle { length: 0 }));
    assert_eq!(decode_single("11".to_string()), Err(DecodeError::NotSingle { length: 2 }));
    assert_eq!(decode_single("2".to_string()), Ok(2));
}

#[test]
fn response_passes_transport_error_on() {
    let r = IsDayOffApi::decode_response::<&str>(Err("unreachable"));
    assert!(matches!(r, Err(IsDayOffApiError::RequestError("unreachable"))));
    let r = IsDayOffApi::decode_single_response::<&str>(Err("timeout"));
    assert!(matches!(r, Err(IsDayOffApiError::RequestError("timeout"))));
}

#[test]
fn response_decodes_body() {
    let r = IsDayOffApi::decode_response::<()>(Ok("0110".to_string()));
    assert!(matches!(r, Ok(ref v) if *v == vec![0, 1, 1, 0]));
    let r = IsDayOffApi::decode_response::<()>(Ok("01a".to_string()));
    assert!(matches!(
        r,
        Err(IsDayOffApiError::DecodeError(DecodeError::InvalidCharacter { position: 2, found: 'a' }))
    ));
    let r = IsDayOffApi::decode_single_response::<()>(Ok("3".to_string()));
    assert!(matches!(r, Ok(3)));
    let r = IsDayOffApi::decode_single_response::<()>(Ok(String::new()));
    assert!(matches!(
        r,
        Err(IsDayOffApiError::DecodeError(DecodeError::NotSingle { length: 0 }))
    ));
}
