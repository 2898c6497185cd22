//! End-to-end scenarios and the laws of identifiers on chosen values.

use smart_uuid::{TypedUuid, TypedUuidError, UserFriendlyUuid, Uuid, UuidType};

#[derive(Debug, Clone, Copy, PartialEq, Eq)]
enum UserType {
    Retail,
    Business,
    Organization,
}

impl UuidType for UserType {
    fn discriminant(&self) -> u8 {
        match self {
            UserType::Retail => 0,
            UserType::Business => 1,
            UserType::Organization => 2,
        }
    }

    fn from_discriminant(value: u8) -> Option<Self> {
        match value {
            0 => Some(UserType::Retail),
            1 => Some(UserType::Business),
            2 => Some(UserType::Organization),
            _ => None,
        }
    }

    fn prefix(&self) -> &'static str {
        match self {
            UserType::Retail => "retail",
            UserType::Business => "business",
            UserType::Organization => "org",
        }
    }
}

#[derive(Debug, Clone, Copy, PartialEq, Eq)]
enum DocumentType {
    Invoice,
    PurchaseOrder,
}

impl UuidType for DocumentType {
    fn discriminant(&self) -> u8 {
        match self {
            DocumentType::Invoice => 0,
            DocumentType::PurchaseOrder => 1,
        }
    }

    fn from_discriminant(value: u8) -> Option<Self> {
        match value {
            0 => Some(DocumentType::Invoice),
            1 => Some(DocumentType::PurchaseOrder),
            _ => None,
        }
    }

    fn prefix(&self) -> &'static str {
        match self {
            DocumentType::Invoice => "invoice",
            DocumentType::PurchaseOrder => "purchase_order",
        }
    }
}

const ALL: [UserType; 3] = [UserType::Retail, UserType::Business, UserType::Organization];

#[test]
fn scenario_category_set() {
    assert_eq!(UserType::Retail.discriminant(), 0);
    assert_eq!(UserType::Business.discriminant(), 1);
    assert_eq!(UserType::Organization.discriminant(), 2);
    assert_eq!(UserType::Retail.prefix(), "retail");
    assert_eq!(UserType::Business.prefix(), "business");
    assert_eq!(UserType::Organization.prefix(), "org");
    assert_eq!(UserType::from_discriminant(3), None);
}

#[test]
fn scenario_new_typed_identifier() {
    let x = TypedUuid::new(UserType::Retail);
    assert_eq!(x.as_bytes()[0], 0);
    assert_eq!(x.variant_type(), UserType::Retail);
    let text = x.to_string();
    assert_eq!(text.chars().count(), 36);
    assert_eq!(text.chars().filter(|c| *c == '-').count(), 4);
}

#[test]
fn scenario_prefixed_identifier() {
    let x = TypedUuid::new(UserType::Retail);
    let y = UserFriendlyUuid::from(x);
    let text = y.to_string();
    assert!(text.starts_with("retail_"));
    assert_eq!(text.len(), 43);
    let parsed = UserFriendlyUuid::<UserType>::parse_str(&text).unwrap();
    assert_eq!(parsed.as_typed_uuid().as_bytes(), x.as_bytes());
}

#[test]
fn scenario_invalid_discriminant() {
    let mut bytes = [0u8; 16];
    bytes[0] = 255;
    let uuid = Uuid::new_v8(bytes);
    let r = TypedUuid::<UserType>::from_uuid(uuid);
    assert_eq!(r, Err(TypedUuidError::InvalidDiscriminant { found: 255 }));
}

#[test]
fn scenario_wrong_prefix() {
    let text = TypedUuid::new(UserType::Retail).to_string();
    let r = UserFriendlyUuid::<UserType>::parse_str(&format!("wrong_{}", text));
    assert_eq!(r, Err(TypedUuidError::UnknownPrefix { prefix: "wrong".to_string() }));
}

#[test]
fn scenario_missing_separator() {
    let r = UserFriendlyUuid::<UserType>::parse_str("retail550e8400-e29b-41d4-a716-446655440000");
    assert_eq!(r, Err(TypedUuidError::InvalidFormat("expected prefix_uuid".to_string())));
}

#[test]
fn scenario_underscore_in_prefix() {
    let x = UserFriendlyUuid::new(DocumentType::PurchaseOrder);
    let text = x.to_string();
    assert!(text.starts_with("purchase_order_"));
    assert_eq!(text.len(), 14 + 1 + 36);
    assert_eq!(text.rfind('_'), Some(14));
    assert_eq!(text[15..].matches('_').count(), 0);
    let parsed: UserFriendlyUuid<DocumentType> = text.parse().unwrap();
    assert_eq!(parsed, x);
    assert_eq!(parsed.variant_type(), DocumentType::PurchaseOrder);
    assert_eq!(parsed.prefix(), "purchase_order");
}

#[test]
fn new_encodes_every_category() {
    for t in ALL {
        let x = TypedUuid::new(t);
        assert_eq!(x.variant_type(), t);
        assert_eq!(x.as_bytes()[0], t.discriminant());
        let y = UserFriendlyUuid::new(t);
        assert_eq!(y.variant_type(), t);
        assert_eq!(y.prefix(), t.prefix());
        assert_eq!(y.as_typed_uuid().as_bytes()[0], t.discriminant());
    }
}

#[test]
fn new_makes_version_8_uuids() {
    for t in ALL {
        let x = TypedUuid::new(t);
        assert_eq!(x.as_bytes()[6] >> 4, 8);
        assert_eq!(x.as_bytes()[8] >> 6, 0b10);
        assert_eq!(x.as_uuid().get_version_num(), 8);
    }
}

#[test]
fn new_draws_fresh_bytes() {
    let a = TypedUuid::new(UserType::Retail);
    let b = TypedUuid::new(UserType::Retail);
    assert_ne!(a.as_bytes(), b.as_bytes());
}

#[test]
fn from_random_bytes_sets_tag_version_and_variant() {
    let x = TypedUuid::from_random_bytes(UserType::Business, [0xff; 16]);
    let expected = [
        0x01, 0xff, 0xff, 0xff, 0xff, 0xff, 0x8f, 0xff, 0xbf, 0xff, 0xff, 0xff, 0xff, 0xff, 0xff,
        0xff,
    ];
    assert_eq!(x.as_bytes(), &expected);
    assert_eq!(x.variant_type(), UserType::Business);
    assert_eq!(x.to_string(), "01ffffff-ffff-8fff-bfff-ffffffffffff");

    let y = TypedUuid::from_random_bytes(UserType::Organization, [0x00; 16]);
    let expected = [
        0x02, 0x00, 0x00, 0x00, 0x00, 0x00, 0x80, 0x00, 0x80, 0x00, 0x00, 0x00, 0x00, 0x00, 0x00,
        0x00,
    ];
    assert_eq!(y.as_bytes(), &expected);
    assert_eq!(y.to_string(), "02000000-0000-8000-8000-000000000000");
}

#[test]
fn text_is_lower_case_hex_in_five_groups() {
    let bytes = [
        0x00, 0x1a, 0x2b, 0x3c, 0x4d, 0x5e, 0x6f, 0x70, 0x81, 0x92, 0xa3, 0xb4, 0xc5, 0xd6, 0xe7,
        0xf8,
    ];
    let x = TypedUuid::<UserType>::from_uuid(Uuid::from_bytes(bytes)).unwrap();
    assert_eq!(x.to_string(), "001a2b3c-4d5e-6f70-8192-a3b4c5d6e7f8");
    assert_eq!(x.as_bytes(), &bytes);
    assert_eq!(*x.as_uuid(), Uuid::from_bytes(bytes));
    assert_eq!(x.into_uuid(), Uuid::from_bytes(bytes));
    assert_eq!(Uuid::from(x), Uuid::from_bytes(bytes));
    let y = UserFriendlyUuid::from_typed_uuid(x);
    assert_eq!(y.to_string(), "retail_001a2b3c-4d5e-6f70-8192-a3b4c5d6e7f8");
    assert_eq!(y.into_typed_uuid(), x);
}

#[test]
fn from_uuid_does_not_examine_the_version() {
    let x = TypedUuid::<UserType>::from_uuid(
        Uuid::parse_str("02000000-0000-4000-0000-000000000000").unwrap(),
    )
    .unwrap();
    assert_eq!(x.variant_type(), UserType::Organization);
    assert_eq!(x.as_uuid().get_version_num(), 4);
}

#[test]
fn from_uuid_rejects_every_byte_that_is_no_discriminant() {
    for b in 0..=255u8 {
        let mut bytes = [0x11u8; 16];
        bytes[0] = b;
        let r = TypedUuid::<UserType>::from_uuid(Uuid::from_bytes(bytes));
        match UserType::from_discriminant(b) {
            Some(t) => assert_eq!(r.unwrap().variant_type(), t),
            None => assert_eq!(r, Err(TypedUuidError::InvalidDiscriminant { found: b })),
        }
    }
}

#[test]
fn category_set_laws() {
    for t in ALL {
        assert_eq!(UserType::from_discriminant(t.discriminant()), Some(t));
    }
    for b in 0..=255u8 {
        if !ALL.iter().any(|t| t.discriminant() == b) {
            assert_eq!(UserType::from_discriminant(b), None);
        }
    }
}

#[test]
fn typed_text_round_trips() {
    for t in ALL {
        let x = TypedUuid::new(t);
        let parsed = TypedUuid::<UserType>::parse_str(&x.to_string()).unwrap();
        assert_eq!(parsed.as_bytes(), x.as_bytes());
        let parsed: TypedUuid<UserType> = x.to_string().parse().unwrap();
        assert_eq!(parsed, x);
    }
}

#[test]
fn prefixed_text_round_trips() {
    for t in ALL {
        let x = TypedUuid::new(t);
        let text = UserFriendlyUuid::from_typed_uuid(x).to_string();
        let parsed = UserFriendlyUuid::<UserType>::parse_str(&text).unwrap();
        assert_eq!(parsed.as_typed_uuid().as_bytes(), x.as_bytes());
        assert_eq!(parsed.variant_type(), t);
    }
}

#[test]
fn any_other_prefix_is_refused() {
    let x = TypedUuid::from_random_bytes(UserType::Retail, [7; 16]);
    let uuid_text = x.to_string();
    for p in ["", "wrong", "business", "org", "Retail", "retail_", "_retail", "re_tail", "rétail"] {
        let r = UserFriendlyUuid::<UserType>::parse_str(&format!("{}_{}", p, uuid_text));
        assert_eq!(r, Err(TypedUuidError::UnknownPrefix { prefix: p.to_string() }));
    }
    let ok = UserFriendlyUuid::<UserType>::parse_str(&format!("retail_{}", uuid_text));
    assert_eq!(ok.unwrap().into_typed_uuid(), x);
}

#[test]
fn typed_parse_reports_the_parser_message() {
    let r = TypedUuid::<UserType>::parse_str("abc");
    let expected = Uuid::parse_str("abc").unwrap_err().to_string();
    assert_eq!(expected, "invalid length: found 3");
    assert_eq!(r, Err(TypedUuidError::ParseError(expected)));
}

#[test]
fn typed_parse_validates_the_discriminant() {
    let r = TypedUuid::<UserType>::parse_str("03000000-0000-8000-8000-000000000000");
    assert_eq!(r, Err(TypedUuidError::InvalidDiscriminant { found: 3 }));
    let r = TypedUuid::<UserType>::parse_str("02000000-0000-8000-8000-000000000000");
    assert_eq!(r.unwrap().variant_type(), UserType::Organization);
}

#[test]
fn typed_parse_accepts_what_the_parser_accepts() {
    let upper = TypedUuid::<UserType>::parse_str("01ABCDEF-0000-8000-8000-000000000000").unwrap();
    assert_eq!(upper.to_string(), "01abcdef-0000-8000-8000-000000000000");
    let simple = TypedUuid::<UserType>::parse_str("01abcdef000080008000000000000000").unwrap();
    assert_eq!(simple, upper);
}

#[test]
fn from_parsed_maps_both_outcomes() {
    let ok = TypedUuid::<UserType>::from_parsed(Uuid::parse_str(
        "01000000-0000-8000-8000-000000000000",
    ));
    assert_eq!(ok.unwrap().variant_type(), UserType::Business);
    let err = TypedUuid::<UserType>::from_parsed(Uuid::parse_str("zz"));
    assert_eq!(err, Err(TypedUuidError::ParseError("invalid character: found `z` at 0".to_string())));

    let parsed = Uuid::parse_str("01000000-0000-8000-8000-000000000000");
    let ok = UserFriendlyUuid::<UserType>::from_parsed("business", parsed.clone());
    assert_eq!(ok.unwrap().prefix(), "business");
    let wrong = UserFriendlyUuid::<UserType>::from_parsed("retail", parsed);
    assert_eq!(wrong, Err(TypedUuidError::UnknownPrefix { prefix: "retail".to_string() }));
    let bad = UserFriendlyUuid::<UserType>::from_parsed("retail", Uuid::parse_str(""));
    assert_eq!(bad, Err(TypedUuidError::ParseError("invalid length: found 0".to_string())));
}

#[test]
fn prefixed_parse_checks_in_order() {
    let none = UserFriendlyUuid::<UserType>::parse_str("");
    assert_eq!(none, Err(TypedUuidError::InvalidFormat("expected prefix_uuid".to_string())));

    let malformed = UserFriendlyUuid::<UserType>::parse_str("wrong_not-a-uuid");
    let message = Uuid::parse_str("not-a-uuid").unwrap_err().to_string();
    assert_eq!(malformed, Err(TypedUuidError::ParseError(message)));

    let empty_uuid = UserFriendlyUuid::<UserType>::parse_str("retail_");
    assert_eq!(empty_uuid, Err(TypedUuidError::ParseError("invalid length: found 0".to_string())));

    let tag =
        UserFriendlyUuid::<UserType>::parse_str("wrong_09000000-0000-8000-8000-000000000000");
    assert_eq!(tag, Err(TypedUuidError::InvalidDiscriminant { found: 9 }));

    let prefix =
        UserFriendlyUuid::<UserType>::parse_str("retail_01000000-0000-8000-8000-000000000000");
    assert_eq!(prefix, Err(TypedUuidError::UnknownPrefix { prefix: "retail".to_string() }));

    let ok =
        UserFriendlyUuid::<UserType>::parse_str("business_01000000-0000-8000-8000-000000000000");
    assert_eq!(ok.unwrap().variant_type(), UserType::Business);
}

#[test]
fn prefixed_parse_splits_at_the_last_underscore() {
    let r = UserFriendlyUuid::<DocumentType>::parse_str(
        "purchase_order_01000000-0000-8000-8000-000000000000",
    );
    assert_eq!(r.unwrap().variant_type(), DocumentType::PurchaseOrder);

    let r = UserFriendlyUuid::<DocumentType>::parse_str(
        "purchase_01000000-0000-8000-8000-000000000000",
    );
    assert_eq!(r, Err(TypedUuidError::UnknownPrefix { prefix: "purchase".to_string() }));

    let r = UserFriendlyUuid::<DocumentType>::parse_str(
        "invoice_00000000-0000-8000-8000-000000000000_",
    );
    assert_eq!(r, Err(TypedUuidError::ParseError("invalid length: found 0".to_string())));
}

#[test]
fn conversions_keep_the_bytes() {
    let x = TypedUuid::new(UserType::Organization);
    let y: UserFriendlyUuid<UserType> = x.into();
    assert_eq!(y.as_typed_uuid(), &x);
    let back: TypedUuid<UserType> = y.into();
    assert_eq!(back, x);
    let copy = y;
    assert_eq!(copy.clone(), y);
}
