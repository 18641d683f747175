use did_doc::context::Context;
use did_doc::doc::Document;
use did_doc::error::{DecodeError, Entity, Field};
use did_doc::json::{JsonValue, Member};
use did_doc::key_set_entry::KeySetEntry;
use did_doc::subject::Subject;
use did_doc::verification_method::{PublicKeyEncoding, VerificationMethod, VerificationMethodType};

fn s(v: &str) -> JsonValue {
    JsonValue::Str(v.to_string())
}

fn obj(members: Vec<(&str, JsonValue)>) -> JsonValue {
    JsonValue::Object(
        members
            .into_iter()
            .map(|(k, v)| Member { key: k.to_string(), value: v })
            .collect(),
    )
}

fn members(v: &JsonValue) -> &Vec<Member> {
    match v {
        JsonValue::Object(m) => m,
        _ => panic!("not an object"),
    }
}

fn method_json(extra: Vec<(&str, JsonValue)>) -> JsonValue {
    let mut m = vec![
        ("id", s("did:example:123#key1")),
        ("type", s("Ed25519VerificationKey2018")),
        ("controller", s("did:example:123")),
    ];
    m.extend(extra);
    obj(m)
}

fn doc_json(extra: Vec<(&str, JsonValue)>) -> JsonValue {
    let mut m = vec![("@context", s("https://example.org/v1")), ("id", s("did:example:123"))];
    m.extend(extra);
    obj(m)
}

#[test]
fn context_scalar_and_list_are_equal() {
    let a = Context::decode(&s("https://example.org/v1")).unwrap();
    let b = Context::decode(&JsonValue::Array(vec![s("https://example.org/v1")])).unwrap();
    assert_eq!(a, b);
    assert_eq!(a.as_vec(), &vec!["https://example.org/v1".to_string()]);
}

#[test]
fn context_single_entry_is_written_as_string() {
    let b = Context::decode(&JsonValue::Array(vec![s("https://example.org/v1")])).unwrap();
    assert_eq!(b.encode(), s("https://example.org/v1"));
    let two = JsonValue::Array(vec![s("a"), s("b")]);
    assert_eq!(Context::decode(&two).unwrap().encode(), two);
}

#[test]
fn empty_context_rejected() {
    assert_eq!(Context::decode(&JsonValue::Array(vec![])), Err(DecodeError::MalformedContext));
    let d = obj(vec![("@context", JsonValue::Array(vec![])), ("id", s("did:example:123"))]);
    assert_eq!(Document::decode(&d), Err(DecodeError::MalformedContext));
}

#[test]
fn context_of_wrong_shape_rejected() {
    assert_eq!(Context::decode(&JsonValue::Number("1".to_string())), Err(DecodeError::MalformedContext));
    assert_eq!(
        Context::decode(&JsonValue::Array(vec![s("a"), JsonValue::Null])),
        Err(DecodeError::MalformedContext)
    );
}

#[test]
fn reference_entry_resolves() {
    let d = doc_json(vec![("authentication", JsonValue::Array(vec![s("did:example:123")]))]);
    let doc = Document::decode(&d).unwrap();
    assert_eq!(doc.authentication().len(), 1);
    let e = &doc.authentication()[0];
    assert!(matches!(e, KeySetEntry::Reference(_)));
    assert_eq!(e.subject(), &Subject::new("did:example:123").unwrap());
    assert_eq!(e.kind(), VerificationMethodType::UnknownKey);
    assert_eq!(e.encoding(), PublicKeyEncoding::Unknown);
}

#[test]
fn method_entry_resolves() {
    let m = method_json(vec![("publicKeyBase58", s("H3C2A..."))]);
    let d = doc_json(vec![("authentication", JsonValue::Array(vec![m]))]);
    let doc = Document::decode(&d).unwrap();
    assert_eq!(doc.authentication().len(), 1);
    let e = &doc.authentication()[0];
    assert!(matches!(e, KeySetEntry::Method(_)));
    assert_eq!(e.subject(), &Subject::new("did:example:123#key1").unwrap());
    assert_eq!(e.encoding(), PublicKeyEncoding::PublicKeyBase58("H3C2A...".to_string()));
    assert_eq!(e.kind(), VerificationMethodType::Ed25519VerificationKey2018);
}

#[test]
fn conflicting_key_encodings_rejected() {
    let m = method_json(vec![("publicKeyHex", s("00ff")), ("publicKeyBase58", s("H3C2A..."))]);
    assert_eq!(VerificationMethod::decode(members(&m), Entity::Method(0)), Err(DecodeError::ConflictingKeyEncoding(Entity::Method(0))));
}

#[test]
fn absent_key_material_is_unknown() {
    let m = method_json(vec![]);
    let vm = VerificationMethod::decode(members(&m), Entity::Method(0)).unwrap();
    assert_eq!(vm.encoding(), PublicKeyEncoding::Unknown);
    assert_eq!(vm.encoding().payload(), None);
}

#[test]
fn key_material_must_be_text() {
    let m = method_json(vec![("publicKeyHex", JsonValue::Bool(true))]);
    assert_eq!(
        VerificationMethod::decode(members(&m), Entity::Method(0)),
        Err(DecodeError::WrongFieldType(Entity::Method(0), Field::KeyMaterial))
    );
}

#[test]
fn key_payload_and_data() {
    let m = method_json(vec![("publicKeyHex", s("00ff"))]);
    let vm = VerificationMethod::decode(members(&m), Entity::Method(0)).unwrap();
    assert_eq!(vm.data(), "00ff");
    assert_eq!(vm.encoding().payload(), Some(&"00ff".to_string()));
    assert_eq!(vm.controller(), &Subject::new("did:example:123").unwrap());
}

#[test]
fn method_missing_type() {
    let m = obj(vec![("id", s("did:example:1#k")), ("controller", s("did:example:1"))]);
    assert_eq!(
        VerificationMethod::decode(members(&m), Entity::Method(0)),
        Err(DecodeError::MissingRequiredField(Entity::Method(0), Field::Type))
    );
}

#[test]
fn method_empty_controller() {
    let m = obj(vec![("id", s("did:example:1#k")), ("type", s("X")), ("controller", s(""))]);
    assert_eq!(
        VerificationMethod::decode(members(&m), Entity::Method(0)),
        Err(DecodeError::EmptyIdentifier(Entity::Method(0), Field::Controller))
    );
}

#[test]
fn method_id_of_wrong_shape() {
    let m = obj(vec![("id", JsonValue::Null), ("type", s("X")), ("controller", s("c"))]);
    assert_eq!(VerificationMethod::decode(members(&m), Entity::Method(0)), Err(DecodeError::WrongFieldType(Entity::Method(0), Field::Id)));
}

#[test]
fn unknown_type_tag_kept() {
    let m = obj(vec![("id", s("did:example:1#k")), ("type", s("FutureKey2030")), ("controller", s("did:example:1"))]);
    let vm = VerificationMethod::decode(members(&m), Entity::Method(0)).unwrap();
    assert_eq!(vm.kind(), VerificationMethodType::UnknownKey);
    assert_eq!(vm.type_tag(), "FutureKey2030");
    assert_eq!(vm.encode(), m);
}

#[test]
fn method_extension_preserved_in_order() {
    let m = obj(vec![
        ("zeta", JsonValue::Number("1".to_string())),
        ("id", s("did:example:123#key1")),
        ("type", s("Ed25519VerificationKey2018")),
        ("alpha", s("x")),
        ("controller", s("did:example:123")),
        ("publicKeyPem", s("PEM")),
    ]);
    let vm = VerificationMethod::decode(members(&m), Entity::Method(0)).unwrap();
    let keys: Vec<&str> = vm.extra().keys().map(|k| k.as_str()).collect();
    assert_eq!(keys, vec!["zeta", "alpha"]);
    let expected = obj(vec![
        ("id", s("did:example:123#key1")),
        ("type", s("Ed25519VerificationKey2018")),
        ("controller", s("did:example:123")),
        ("publicKeyPem", s("PEM")),
        ("zeta", JsonValue::Number("1".to_string())),
        ("alpha", s("x")),
    ]);
    assert_eq!(vm.encode(), expected);
}

#[test]
fn document_extension_preserved_in_order() {
    let d = doc_json(vec![
        ("b", JsonValue::Array(vec![JsonValue::Null])),
        ("created", s("2020-01-01")),
        ("a", obj(vec![("x", JsonValue::Bool(false))])),
    ]);
    let doc = Document::decode(&d).unwrap();
    let keys: Vec<&str> = doc.extra().keys().map(|k| k.as_str()).collect();
    assert_eq!(keys, vec!["b", "a"]);
    let expected = doc_json(vec![
        ("created", s("2020-01-01")),
        ("b", JsonValue::Array(vec![JsonValue::Null])),
        ("a", obj(vec![("x", JsonValue::Bool(false))])),
    ]);
    assert_eq!(doc.encode(), expected);
}

#[test]
fn document_round_trip_is_stable() {
    let d = doc_json(vec![
        ("verificationMethod", JsonValue::Array(vec![method_json(vec![("publicKeyHex", s("00"))])])),
        ("authentication", JsonValue::Array(vec![s("did:example:123#key1"), method_json(vec![])])),
        ("keyAgreement", JsonValue::Array(vec![])),
        ("service", JsonValue::Array(vec![obj(vec![("id", s("svc"))])])),
        ("extension", s("kept")),
    ]);
    let first = Document::decode(&d).unwrap();
    let encoded = first.encode();
    assert_eq!(encoded, d);
    let second = Document::decode(&encoded).unwrap();
    assert_eq!(first, second);
    assert_eq!(second.encode(), encoded);
    assert_eq!(second.verification_method().len(), 1);
    assert_eq!(second.service().len(), 1);
    assert!(second.key_agreement().is_empty());
}

#[test]
fn document_errors() {
    assert_eq!(Document::decode(&JsonValue::Null), Err(DecodeError::NotAnObject));
    let no_context = obj(vec![("id", s("did:example:1"))]);
    assert_eq!(Document::decode(&no_context), Err(DecodeError::MissingRequiredField(Entity::Document, Field::Context)));
    let no_id = obj(vec![("@context", s("c"))]);
    assert_eq!(Document::decode(&no_id), Err(DecodeError::MissingRequiredField(Entity::Document, Field::Id)));
    let empty_ref = doc_json(vec![("assertionMethod", JsonValue::Array(vec![s("")]))]);
    assert_eq!(
        Document::decode(&empty_ref),
        Err(DecodeError::EmptyIdentifier(Entity::RoleEntry(Field::AssertionMethod, 0), Field::Id))
    );
    let bad_entry = doc_json(vec![("authentication", JsonValue::Array(vec![JsonValue::Null]))]);
    assert_eq!(
        Document::decode(&bad_entry),
        Err(DecodeError::WrongFieldType(Entity::RoleEntry(Field::Authentication, 0), Field::Authentication))
    );
    let bad_method = doc_json(vec![("verificationMethod", JsonValue::Array(vec![s("x")]))]);
    assert_eq!(
        Document::decode(&bad_method),
        Err(DecodeError::WrongFieldType(Entity::Method(0), Field::VerificationMethod))
    );
    let bad_created = doc_json(vec![("created", JsonValue::Number("5".to_string()))]);
    assert_eq!(Document::decode(&bad_created), Err(DecodeError::WrongFieldType(Entity::Document, Field::Created)));
}

#[test]
fn new_document_skeleton() {
    let doc = Document::new("https://example.org/v1", "did:example:123").unwrap();
    assert_eq!(doc.context(), &vec!["https://example.org/v1".to_string()]);
    assert_eq!(doc.subject().as_str(), "did:example:123");
    assert!(doc.verification_method().is_empty());
    assert!(doc.authentication().is_empty());
    assert!(doc.service().is_empty());
    assert_eq!(doc.encode(), doc_json(vec![]));
    assert_eq!(Document::new("c", "").unwrap_err(), DecodeError::EmptyIdentifier(Entity::Document, Field::Id));
}

#[test]
fn subject_rejects_empty() {
    assert_eq!(Subject::new(""), Err(DecodeError::EmptyIdentifier(Entity::Document, Field::Id)));
}

#[test]
fn defaults_are_unknown() {
    assert_eq!(VerificationMethodType::default(), VerificationMethodType::UnknownKey);
    assert_eq!(PublicKeyEncoding::default(), PublicKeyEncoding::Unknown);
}

#[test]
fn list_context_is_canonicalized_on_write() {
    let d = obj(vec![
        ("@context", JsonValue::Array(vec![s("https://example.org/v1")])),
        ("id", s("did:example:123")),
        ("other", JsonValue::Number("2.5".to_string())),
    ]);
    let doc = Document::decode(&d).unwrap();
    let expected = obj(vec![
        ("@context", s("https://example.org/v1")),
        ("id", s("did:example:123")),
        ("other", JsonValue::Number("2.5".to_string())),
    ]);
    assert_eq!(doc.encode(), expected);
    assert_eq!(Document::decode(&expected).unwrap(), doc);
}

#[test]
fn repeated_name_reads_first_occurrence() {
    let m = obj(vec![
        ("id", s("did:example:1#a")),
        ("id", s("did:example:1#b")),
        ("type", s("JwsVerificationKey2020")),
        ("controller", s("did:example:1")),
    ]);
    let vm = VerificationMethod::decode(members(&m), Entity::Method(0)).unwrap();
    assert_eq!(vm.subject().as_str(), "did:example:1#a");
    assert_eq!(vm.kind(), VerificationMethodType::JwsVerificationKey2020);
}

#[test]
fn repeated_unrecognized_name_keeps_first_place_and_last_value() {
    let d = doc_json(vec![
        ("x", s("one")),
        ("y", s("two")),
        ("x", s("three")),
    ]);
    let doc = Document::decode(&d).unwrap();
    let keys: Vec<&str> = doc.extra().keys().map(|k| k.as_str()).collect();
    assert_eq!(keys, vec!["x", "y"]);
    assert_eq!(doc.extra().get("x"), Some(&s("three")));
    assert_eq!(doc.encode(), doc_json(vec![("x", s("three")), ("y", s("two"))]));
}

#[test]
fn empty_lists_survive_round_trip() {
    let d = doc_json(vec![("authentication", JsonValue::Array(vec![]))]);
    let doc = Document::decode(&d).unwrap();
    assert!(doc.authentication().is_empty());
    assert_eq!(doc.encode(), d);
    let all = doc_json(vec![
        ("verificationMethod", JsonValue::Array(vec![])),
        ("authentication", JsonValue::Array(vec![])),
        ("assertionMethod", JsonValue::Array(vec![])),
        ("keyAgreement", JsonValue::Array(vec![])),
        ("capabilityInvocation", JsonValue::Array(vec![])),
        ("capabilityDelegation", JsonValue::Array(vec![])),
        ("service", JsonValue::Array(vec![])),
    ]);
    assert_eq!(Document::decode(&all).unwrap().encode(), all);
    let absent = doc_json(vec![]);
    assert_eq!(Document::decode(&absent).unwrap().encode(), absent);
}

#[test]
fn errors_name_the_entity() {
    let bad_method = obj(vec![("id", s("")), ("type", s("X")), ("controller", s("c"))]);
    let d = doc_json(vec![(
        "verificationMethod",
        JsonValue::Array(vec![method_json(vec![]), bad_method]),
    )]);
    assert_eq!(
        Document::decode(&d),
        Err(DecodeError::EmptyIdentifier(Entity::Method(1), Field::Id))
    );
    let no_type = obj(vec![("id", s("did:example:1#k")), ("controller", s("did:example:1"))]);
    let d = doc_json(vec![(
        "keyAgreement",
        JsonValue::Array(vec![s("did:example:1#a"), no_type]),
    )]);
    assert_eq!(
        Document::decode(&d),
        Err(DecodeError::MissingRequiredField(Entity::RoleEntry(Field::KeyAgreement, 1), Field::Type))
    );
    let d = obj(vec![("@context", s("c")), ("id", s(""))]);
    assert_eq!(Document::decode(&d), Err(DecodeError::EmptyIdentifier(Entity::Document, Field::Id)));
}

#[test]
fn conflict_does_not_depend_on_member_order() {
    let a = method_json(vec![("publicKeyHex", s("00ff")), ("publicKeyBase58", s("H3C2A"))]);
    let b = method_json(vec![("publicKeyBase58", s("H3C2A")), ("publicKeyHex", s("00ff"))]);
    let e = Err(DecodeError::ConflictingKeyEncoding(Entity::Method(0)));
    assert_eq!(VerificationMethod::decode(members(&a), Entity::Method(0)), e);
    assert_eq!(VerificationMethod::decode(members(&b), Entity::Method(0)), e);
}

#[test]
fn empty_timestamp_survives_round_trip() {
    let d = doc_json(vec![("created", s("")), ("updated", s("2021-02-03"))]);
    let doc = Document::decode(&d).unwrap();
    assert_eq!(doc.created(), "");
    assert_eq!(doc.updated(), "2021-02-03");
    assert_eq!(doc.encode(), d);
}
