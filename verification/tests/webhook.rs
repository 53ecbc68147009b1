use rock_wire::decimal::DecimalError;
use rock_wire::fid_value::{decode_optional_fid, FidError, FidValue};
use rock_wire::webhook::WebhookEventType;

#[test]
fn known_event_type() {
    assert_eq!(WebhookEventType::from_name("cast.created").unwrap(), WebhookEventType::CastCreated);
    assert_eq!(WebhookEventType::CastCreated.as_str(), "cast.created");
}

#[test]
fn unknown_event_type_is_refused_with_its_name() {
    let err = WebhookEventType::from_name("cast.deleted").unwrap_err();
    assert_eq!(err.name, "cast.deleted");
    assert_eq!(err.message(), "unknown event type: cast.deleted");
    let err = WebhookEventType::from_name("").unwrap_err();
    assert_eq!(err.message(), "unknown event type: ");
    assert!(WebhookEventType::from_name("Cast.Created").is_err());
}

#[test]
fn absent_or_null_fid_is_none() {
    assert_eq!(decode_optional_fid(None).unwrap(), None);
    assert_eq!(decode_optional_fid(Some(FidValue::Null)).unwrap(), None);
}

#[test]
fn numeric_and_string_fids() {
    assert_eq!(decode_optional_fid(Some(FidValue::Number(Some(3)))).unwrap(), Some(3));
    assert_eq!(decode_optional_fid(Some(FidValue::Text("3".to_string()))).unwrap(), Some(3));
    assert_eq!(decode_optional_fid(Some(FidValue::Text("18446744073709551615".to_string()))).unwrap(), Some(u64::MAX));
}

#[test]
fn refused_fids_and_their_messages() {
    let err = decode_optional_fid(Some(FidValue::Number(None))).unwrap_err();
    assert!(matches!(err, FidError::InvalidNumber));
    assert_eq!(err.message(), "invalid fid number");

    let err = decode_optional_fid(Some(FidValue::Text("12x".to_string()))).unwrap_err();
    assert!(matches!(err, FidError::InvalidText(DecimalError::InvalidDigit)));
    assert_eq!(err.message(), "invalid digit found in string");

    let err = decode_optional_fid(Some(FidValue::Text(String::new()))).unwrap_err();
    assert!(matches!(err, FidError::InvalidText(DecimalError::Empty)));
    assert_eq!(err.message(), "cannot parse integer from empty string");

    let err = decode_optional_fid(Some(FidValue::Text("18446744073709551616".to_string()))).unwrap_err();
    assert!(matches!(err, FidError::InvalidText(DecimalError::PosOverflow)));

    let err = decode_optional_fid(Some(FidValue::Other("true".to_string()))).unwrap_err();
    assert_eq!(err.message(), "invalid fid value: true");
}
