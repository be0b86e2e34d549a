use tuta_login_core::element_value::{ElementValue, IdTuple};
use tuta_login_core::instance_mapper::{InstanceMapper, InstanceMapperError};
use tuta_login_core::json_element::JsonElement;
use tuta_login_core::metamodel::{
    AssociationType, Cardinality, ElementType, ModelAssociation, ModelValue, TypeModel, TypeRef,
    ValueType,
};
use tuta_login_core::type_model_provider::TypeModelProvider;

fn s(x: &str) -> String {
    x.to_owned()
}

fn mv(value_type: ValueType, cardinality: Cardinality, encrypted: bool) -> ModelValue {
    ModelValue { value_type, cardinality, encrypted }
}

fn user_model() -> TypeModel {
    TypeModel {
        app: s("tutanota"),
        name: s("User"),
        element_type: ElementType::Element,
        version: s("73"),
        values: vec![(s("_id"), mv(ValueType::GeneratedId, Cardinality::One, false))],
        associations: vec![],
    }
}

fn membership_model() -> TypeModel {
    TypeModel {
        app: s("tutanota"),
        name: s("Membership"),
        element_type: ElementType::Aggregated,
        version: s("73"),
        values: vec![(s("group"), mv(ValueType::Str, Cardinality::One, false))],
        associations: vec![],
    }
}

fn group_list_model() -> TypeModel {
    TypeModel {
        app: s("tutanota"),
        name: s("GroupList"),
        element_type: ElementType::Element,
        version: s("73"),
        values: vec![],
        associations: vec![(
            s("memberships"),
            ModelAssociation {
                association_type: AssociationType::Aggregation,
                cardinality: Cardinality::Any,
                ref_type: s("Membership"),
            },
        )],
    }
}

fn scalar_model() -> TypeModel {
    TypeModel {
        app: s("tutanota"),
        name: s("Scalars"),
        element_type: ElementType::Element,
        version: s("73"),
        values: vec![
            (s("_id"), mv(ValueType::GeneratedId, Cardinality::One, false)),
            (s("count"), mv(ValueType::Number, Cardinality::One, false)),
            (s("opt"), mv(ValueType::Number, Cardinality::ZeroOrOne, false)),
            (s("when"), mv(ValueType::Date, Cardinality::One, false)),
            (s("flag"), mv(ValueType::Boolean, Cardinality::One, false)),
            (s("blob"), mv(ValueType::Bytes, Cardinality::One, false)),
            (s("name"), mv(ValueType::Str, Cardinality::One, false)),
            (s("secret"), mv(ValueType::Str, Cardinality::One, true)),
        ],
        associations: vec![],
    }
}

fn list_entity_model() -> TypeModel {
    TypeModel {
        app: s("tutanota"),
        name: s("Mail"),
        element_type: ElementType::ListElement,
        version: s("73"),
        values: vec![(s("_id"), mv(ValueType::GeneratedId, Cardinality::One, false))],
        associations: vec![],
    }
}

fn compressed_model() -> TypeModel {
    TypeModel {
        app: s("tutanota"),
        name: s("Compressed"),
        element_type: ElementType::Element,
        version: s("73"),
        values: vec![(s("body"), mv(ValueType::CompressedString, Cardinality::One, false))],
        associations: vec![],
    }
}

fn mapper() -> InstanceMapper {
    InstanceMapper::new(TypeModelProvider::new(vec![
        user_model(),
        membership_model(),
        group_list_model(),
        scalar_model(),
        list_entity_model(),
        compressed_model(),
    ]))
}

fn tref(name: &str) -> TypeRef {
    TypeRef::new(s("tutanota"), s(name))
}

fn lookup<'a>(fields: &'a [(String, ElementValue)], name: &str) -> &'a ElementValue {
    &fields.iter().find(|(n, _)| n == name).expect("field missing").1
}

fn lookup_raw<'a>(fields: &'a [(String, JsonElement)], name: &str) -> &'a JsonElement {
    &fields.iter().find(|(n, _)| n == name).expect("field missing").1
}

#[test]
fn parses_element_id_as_generated_id() {
    // A single-id entity: the `_id` wire string becomes a GeneratedId, not
    // an IdTupleId, and serialises back identically.
    let m = mapper();
    let raw = vec![(s("_id"), JsonElement::Str(s("O-agd1--1-0")))];
    let parsed = m.parse(&tref("User"), raw).expect("parse failed");
    match lookup(&parsed, "_id") {
        ElementValue::GeneratedId(v) => assert_eq!(v, "O-agd1--1-0"),
        other => panic!("expected GeneratedId, got {:?}", other),
    }
    let back = m.serialize(&tref("User"), parsed).expect("serialize failed");
    assert_eq!(back.len(), 1);
    match lookup_raw(&back, "_id") {
        JsonElement::Str(v) => assert_eq!(v, "O-agd1--1-0"),
        other => panic!("expected wire string, got {:?}", other),
    }
}

#[test]
fn parses_aggregation_array_recursively() {
    // An Aggregation association of cardinality Any parses each element
    // against the referenced sub-schema.
    let m = mapper();
    let member = |g: &str| {
        JsonElement::Dict(vec![(s("group"), JsonElement::Str(s(g)))])
    };
    let raw = vec![(s("memberships"), JsonElement::Array(vec![member("g1"), member("g2")]))];
    let parsed = m.parse(&tref("GroupList"), raw).expect("parse failed");
    match lookup(&parsed, "memberships") {
        ElementValue::Array(els) => {
            assert_eq!(els.len(), 2);
            for (i, expected) in ["g1", "g2"].iter().enumerate() {
                match &els[i] {
                    ElementValue::Dict(fields) => match lookup(fields, "group") {
                        ElementValue::Str(v) => assert_eq!(v, expected),
                        other => panic!("expected string, got {:?}", other),
                    },
                    other => panic!("expected nested entity, got {:?}", other),
                }
            }
        },
        other => panic!("expected array, got {:?}", other),
    }
}

#[test]
fn rejects_non_array_aggregation() {
    let m = mapper();
    let raw = vec![(s("memberships"), JsonElement::Str(s("not-an-array")))];
    match m.parse(&tref("GroupList"), raw) {
        Err(InstanceMapperError::InvalidValue { field, .. }) => assert_eq!(field, "memberships"),
        other => panic!("expected InvalidValue, got {:?}", other),
    }
}

#[test]
fn cardinality_zero_or_one_null_parses_to_null() {
    // A wire Null of a ZeroOrOne field parses to Null before any
    // type-specific conversion.
    let m = mapper();
    let raw = scalar_raw_with("opt", JsonElement::Null);
    let parsed = m.parse(&tref("Scalars"), raw).expect("parse failed");
    assert!(matches!(lookup(&parsed, "opt"), ElementValue::Null));
}

fn scalar_raw() -> Vec<(String, JsonElement)> {
    vec![
        (s("_id"), JsonElement::Str(s("idA"))),
        (s("count"), JsonElement::Str(s("-42"))),
        (s("opt"), JsonElement::Str(s("7"))),
        (s("when"), JsonElement::Str(s("1700000000000"))),
        (s("flag"), JsonElement::Str(s("1"))),
        (s("blob"), JsonElement::Str(s("aGVsbG8="))),
        (s("name"), JsonElement::Str(s("display"))),
        (s("secret"), JsonElement::Str(s("opaque-ciphertext"))),
    ]
}

fn scalar_raw_with(name: &str, v: JsonElement) -> Vec<(String, JsonElement)> {
    let mut raw = scalar_raw();
    for entry in raw.iter_mut() {
        if entry.0 == name {
            entry.1 = v;
            return raw;
        }
    }
    panic!("unknown field {}", name)
}

#[test]
fn scalar_conversions_and_round_trip() {
    let m = mapper();
    let parsed = m.parse(&tref("Scalars"), scalar_raw()).expect("parse failed");
    assert!(matches!(lookup(&parsed, "count"), ElementValue::Number(-42)));
    assert!(matches!(lookup(&parsed, "opt"), ElementValue::Number(7)));
    assert!(matches!(lookup(&parsed, "when"), ElementValue::Date(1_700_000_000_000)));
    assert!(matches!(lookup(&parsed, "flag"), ElementValue::Bool(true)));
    match lookup(&parsed, "blob") {
        ElementValue::Bytes(b) => assert_eq!(b, b"hello"),
        other => panic!("expected bytes, got {:?}", other),
    }
    match lookup(&parsed, "secret") {
        ElementValue::Str(v) => assert_eq!(v, "opaque-ciphertext"),
        other => panic!("expected passthrough string, got {:?}", other),
    }
    // serialize(parse(raw)) restores the wire entity field for field.
    let back = m.serialize(&tref("Scalars"), parsed).expect("serialize failed");
    let mut original = scalar_raw();
    original.sort_by(|a, b| a.0.cmp(&b.0));
    let mut round = back;
    round.sort_by(|a, b| a.0.cmp(&b.0));
    assert_eq!(format!("{:?}", original), format!("{:?}", round));
}

#[test]
fn parse_of_serialize_restores_entity() {
    let m = mapper();
    let entity = vec![
        (s("_id"), ElementValue::GeneratedId(s("idB"))),
        (s("count"), ElementValue::Number(i64::MIN)),
        (s("opt"), ElementValue::Null),
        (s("when"), ElementValue::Date(0)),
        (s("flag"), ElementValue::Bool(false)),
        (s("blob"), ElementValue::Bytes(vec![0, 255, 17])),
        (s("name"), ElementValue::Str(s(""))),
        (s("secret"), ElementValue::Null),
    ];
    let raw = m.serialize(&tref("Scalars"), entity).expect("serialize failed");
    match lookup_raw(&raw, "count") {
        JsonElement::Str(v) => assert_eq!(v, "-9223372036854775808"),
        other => panic!("expected decimal string, got {:?}", other),
    }
    let parsed = m.parse(&tref("Scalars"), raw).expect("parse failed");
    assert!(matches!(lookup(&parsed, "count"), ElementValue::Number(i64::MIN)));
    assert!(matches!(lookup(&parsed, "opt"), ElementValue::Null));
    assert!(matches!(lookup(&parsed, "when"), ElementValue::Date(0)));
    match lookup(&parsed, "blob") {
        ElementValue::Bytes(b) => assert_eq!(b, &vec![0u8, 255, 17]),
        other => panic!("expected bytes, got {:?}", other),
    }
}

#[test]
fn number_parsing_is_strictly_canonical() {
    // Only the canonical decimal rendering of a value is accepted, so the
    // serialise-back law holds on everything parse accepts.
    let m = mapper();
    for bad in ["007", "+5", "", "-0", " 5", "9223372036854775808", "five"] {
        let raw = scalar_raw_with("count", JsonElement::Str(s(bad)));
        match m.parse(&tref("Scalars"), raw) {
            Err(InstanceMapperError::InvalidValue { field, .. }) => assert_eq!(field, "count"),
            other => panic!("expected InvalidValue for {:?}, got {:?}", bad, other),
        }
    }
    let raw = scalar_raw_with("count", JsonElement::Str(s("9223372036854775807")));
    let parsed = m.parse(&tref("Scalars"), raw).expect("parse failed");
    assert!(matches!(lookup(&parsed, "count"), ElementValue::Number(i64::MAX)));
}

#[test]
fn rejects_malformed_base64() {
    let m = mapper();
    for bad in ["!!!", "aGVsbG8", "aGVsbG9=", "aGVsbG8= "] {
        let raw = scalar_raw_with("blob", JsonElement::Str(s(bad)));
        match m.parse(&tref("Scalars"), raw) {
            Err(InstanceMapperError::InvalidValue { field, .. }) => assert_eq!(field, "blob"),
            other => panic!("expected InvalidValue for {:?}, got {:?}", bad, other),
        }
    }
}

#[test]
fn rejects_malformed_boolean() {
    let m = mapper();
    for bad in ["2", "true", ""] {
        let raw = scalar_raw_with("flag", JsonElement::Str(s(bad)));
        assert!(matches!(
            m.parse(&tref("Scalars"), raw),
            Err(InstanceMapperError::InvalidValue { .. })
        ));
    }
    let raw = scalar_raw_with("flag", JsonElement::Str(s("0")));
    let parsed = m.parse(&tref("Scalars"), raw).expect("parse failed");
    assert!(matches!(lookup(&parsed, "flag"), ElementValue::Bool(false)));
}

#[test]
fn list_element_id_shape() {
    // A ListElement `_id` must be exactly a two-element string array.
    let m = mapper();
    let good = vec![(
        s("_id"),
        JsonElement::Array(vec![JsonElement::Str(s("L1")), JsonElement::Str(s("E1"))]),
    )];
    let parsed = m.parse(&tref("Mail"), good).expect("parse failed");
    match lookup(&parsed, "_id") {
        ElementValue::IdTupleId(IdTuple { list_id, element_id }) => {
            assert_eq!(list_id, "L1");
            assert_eq!(element_id, "E1");
        },
        other => panic!("expected IdTupleId, got {:?}", other),
    }

    let bad_shapes = vec![
        JsonElement::Str(s("plain")),
        JsonElement::Array(vec![JsonElement::Str(s("only-one"))]),
        JsonElement::Array(vec![
            JsonElement::Str(s("a")),
            JsonElement::Str(s("b")),
            JsonElement::Str(s("c")),
        ]),
        JsonElement::Array(vec![JsonElement::Str(s("a")), JsonElement::Null]),
        JsonElement::Null,
    ];
    for v in bad_shapes {
        let raw = vec![(s("_id"), v)];
        match m.parse(&tref("Mail"), raw) {
            Err(InstanceMapperError::InvalidValue { field, .. }) => assert_eq!(field, "_id"),
            other => panic!("expected InvalidValue, got {:?}", other),
        }
    }
}

#[test]
fn element_id_rejects_arrays() {
    let m = mapper();
    let raw = vec![(
        s("_id"),
        JsonElement::Array(vec![JsonElement::Str(s("L1")), JsonElement::Str(s("E1"))]),
    )];
    assert!(matches!(
        m.parse(&tref("User"), raw),
        Err(InstanceMapperError::InvalidValue { .. })
    ));
}

#[test]
fn encrypted_passthrough_accepts_only_string_and_null() {
    let m = mapper();
    let raw = scalar_raw_with("secret", JsonElement::Null);
    let parsed = m.parse(&tref("Scalars"), raw).expect("parse failed");
    assert!(matches!(lookup(&parsed, "secret"), ElementValue::Null));

    for bad in [
        JsonElement::Dict(vec![]),
        JsonElement::Array(vec![]),
    ] {
        let raw = scalar_raw_with("secret", bad);
        match m.parse(&tref("Scalars"), raw) {
            Err(InstanceMapperError::InvalidValue { field, .. }) => assert_eq!(field, "secret"),
            other => panic!("expected InvalidValue, got {:?}", other),
        }
    }
}

#[test]
fn unknown_type_is_type_not_found() {
    let m = mapper();
    match m.parse(&tref("Nope"), vec![]) {
        Err(InstanceMapperError::TypeNotFound { type_ref }) => {
            assert_eq!(type_ref.app, "tutanota");
            assert_eq!(type_ref.type_, "Nope");
        },
        other => panic!("expected TypeNotFound, got {:?}", other),
    }
}

#[test]
fn missing_declared_field_is_invalid_value() {
    let m = mapper();
    match m.parse(&tref("User"), vec![]) {
        Err(InstanceMapperError::InvalidValue { field, .. }) => assert_eq!(field, "_id"),
        other => panic!("expected InvalidValue, got {:?}", other),
    }
}

#[test]
fn compressed_string_is_reserved() {
    let m = mapper();
    let raw = vec![(s("body"), JsonElement::Str(s("xyz")))];
    match m.parse(&tref("Compressed"), raw) {
        Err(InstanceMapperError::NotImplemented { field, .. }) => assert_eq!(field, "body"),
        other => panic!("expected NotImplemented, got {:?}", other),
    }
}

#[test]
fn undeclared_wire_fields_are_ignored() {
    let m = mapper();
    let raw = vec![
        (s("_id"), JsonElement::Str(s("idC"))),
        (s("surplus"), JsonElement::Str(s("dropped"))),
    ];
    let parsed = m.parse(&tref("User"), raw).expect("parse failed");
    assert_eq!(parsed.len(), 1);
    assert!(matches!(lookup(&parsed, "_id"), ElementValue::GeneratedId(_)));
}

fn assoc_model() -> TypeModel {
    TypeModel {
        app: s("tutanota"),
        name: s("Holder"),
        element_type: ElementType::Element,
        version: s("73"),
        values: vec![],
        associations: vec![
            (
                s("owner"),
                ModelAssociation {
                    association_type: AssociationType::ElementAssociation,
                    cardinality: Cardinality::One,
                    ref_type: s("User"),
                },
            ),
            (
                s("nested"),
                ModelAssociation {
                    association_type: AssociationType::Aggregation,
                    cardinality: Cardinality::ZeroOrOne,
                    ref_type: s("Membership"),
                },
            ),
            (
                s("mail"),
                ModelAssociation {
                    association_type: AssociationType::ListElementAssociation,
                    cardinality: Cardinality::One,
                    ref_type: s("Mail"),
                },
            ),
            (
                s("blobs"),
                ModelAssociation {
                    association_type: AssociationType::BlobElementAssociation,
                    cardinality: Cardinality::Any,
                    ref_type: s("Blob"),
                },
            ),
        ],
    }
}

fn assoc_mapper() -> InstanceMapper {
    InstanceMapper::new(TypeModelProvider::new(vec![assoc_model(), membership_model()]))
}

fn holder_raw() -> Vec<(String, JsonElement)> {
    vec![
        (s("owner"), JsonElement::Str(s("owner-id"))),
        (
            s("nested"),
            JsonElement::Dict(vec![(s("group"), JsonElement::Str(s("g9")))]),
        ),
        (
            s("mail"),
            JsonElement::Array(vec![JsonElement::Str(s("ml")), JsonElement::Str(s("me"))]),
        ),
        (
            s("blobs"),
            JsonElement::Array(vec![JsonElement::Str(s("b1")), JsonElement::Str(s("b2"))]),
        ),
    ]
}

#[test]
fn association_kinds_round_trip() {
    // Element associations carry a plain id, optional aggregations a
    // nested entity or null, list-element associations a two-part id,
    // blob associations an as-is array; all of it survives the round
    // trip.
    let m = assoc_mapper();
    let parsed = m.parse(&tref("Holder"), holder_raw()).expect("parse failed");
    assert!(matches!(lookup(&parsed, "owner"), ElementValue::GeneratedId(_)));
    assert!(matches!(lookup(&parsed, "nested"), ElementValue::Dict(_)));
    match lookup(&parsed, "mail") {
        ElementValue::IdTupleId(t) => {
            assert_eq!(t.list_id, "ml");
            assert_eq!(t.element_id, "me");
        },
        other => panic!("expected IdTupleId, got {:?}", other),
    }
    match lookup(&parsed, "blobs") {
        ElementValue::Array(els) => assert_eq!(els.len(), 2),
        other => panic!("expected array, got {:?}", other),
    }
    let back = m.serialize(&tref("Holder"), parsed).expect("serialize failed");
    let mut original = holder_raw();
    original.sort_by(|a, b| a.0.cmp(&b.0));
    let mut round = back;
    round.sort_by(|a, b| a.0.cmp(&b.0));
    assert_eq!(format!("{:?}", original), format!("{:?}", round));
}

#[test]
fn optional_association_null_round_trips() {
    let m = assoc_mapper();
    let mut raw = holder_raw();
    raw[1].1 = JsonElement::Null;
    let parsed = m.parse(&tref("Holder"), raw).expect("parse failed");
    assert!(matches!(lookup(&parsed, "nested"), ElementValue::Null));
    let back = m.serialize(&tref("Holder"), parsed).expect("serialize failed");
    assert!(matches!(lookup_raw(&back, "nested"), JsonElement::Null));
}

#[test]
fn malformed_list_element_association_is_rejected() {
    let m = assoc_mapper();
    let mut raw = holder_raw();
    raw[2].1 = JsonElement::Array(vec![JsonElement::Str(s("only-one"))]);
    match m.parse(&tref("Holder"), raw) {
        Err(InstanceMapperError::InvalidValue { type_ref, field }) => {
            // The error names the referenced type, as the association
            // itself is well formed but its wire value is not.
            assert_eq!(type_ref.type_, "Mail");
            assert_eq!(field, "mail");
        },
        other => panic!("expected InvalidValue, got {:?}", other),
    }
}

#[test]
fn nested_entity_errors_surface() {
    let m = assoc_mapper();
    let mut raw = holder_raw();
    raw[1].1 = JsonElement::Dict(vec![(s("group"), JsonElement::Null)]);
    match m.parse(&tref("Holder"), raw) {
        Err(InstanceMapperError::InvalidValue { field, .. }) => assert_eq!(field, "group"),
        other => panic!("expected InvalidValue, got {:?}", other),
    }
}

#[test]
fn date_and_zero_round_trip_exactly() {
    let m = mapper();
    let raw = scalar_raw_with("when", JsonElement::Str(s("0")));
    let parsed = m.parse(&tref("Scalars"), raw).expect("parse failed");
    assert!(matches!(lookup(&parsed, "when"), ElementValue::Date(0)));
    let back = m.serialize(&tref("Scalars"), parsed).expect("serialize failed");
    match lookup_raw(&back, "when") {
        JsonElement::Str(v) => assert_eq!(v, "0"),
        other => panic!("expected decimal string, got {:?}", other),
    }
}

#[test]
fn serializing_a_mistyped_entity_fails() {
    let m = mapper();
    let entity = vec![
        (s("_id"), ElementValue::GeneratedId(s("idD"))),
        (s("count"), ElementValue::Str(s("not-a-number"))),
        (s("opt"), ElementValue::Null),
        (s("when"), ElementValue::Date(1)),
        (s("flag"), ElementValue::Bool(true)),
        (s("blob"), ElementValue::Bytes(vec![])),
        (s("name"), ElementValue::Str(s("n"))),
        (s("secret"), ElementValue::Null),
    ];
    match m.serialize(&tref("Scalars"), entity) {
        Err(InstanceMapperError::InvalidValue { field, .. }) => assert_eq!(field, "count"),
        other => panic!("expected InvalidValue, got {:?}", other),
    }
}
