use crate::error::{DecodeError, Entity, Field};
use crate::json::{
    find_from, find_member, lemma_lookup_none, lookup, members_view,
    same_text, has_key, lemma_object_view, string_field, string_member, Json, JsonValue, Member,
};
use crate::extension::{append_entries, extension_entries, names_unique};
use crate::names::{all_unknown, unrecognized, unrecognized_members};
use indexmap::IndexMap;
use crate::subject::{subject_of, Subject};
use vstd::prelude::*;

verus! {

/// The kind of a verification method, read from its `type` tag.
#[derive(Debug, Clone, Copy, PartialEq, Eq, Structural)]
pub enum VerificationMethodType {
    UnknownKey,
    JwsVerificationKey2020,
    EcdsaSecp256k1VerificationKey2019,
    Ed25519VerificationKey2018,
    GpgVerificationKey2020,
    RsaVerificationKey2018,
    X25519KeyAgreementKey2019,
    SchnorrSecp256k1VerificationKey2019,
    EcdsaSecp256k1RecoveryMethod2020,
}

impl Default for VerificationMethodType {
    fn default() -> (r: Self)
        ensures
            r == VerificationMethodType::UnknownKey,
    {
        VerificationMethodType::UnknownKey
    }
}

/// The kind named by a `type` tag; a tag outside the known set is `UnknownKey`.
pub open spec fn method_type_of(tag: Seq<char>) -> VerificationMethodType {
    if tag == "JwsVerificationKey2020"@ {
        VerificationMethodType::JwsVerificationKey2020
    } else if tag == "EcdsaSecp256k1VerificationKey2019"@ {
        VerificationMethodType::EcdsaSecp256k1VerificationKey2019
    } else if tag == "Ed25519VerificationKey2018"@ {
        VerificationMethodType::Ed25519VerificationKey2018
    } else if tag == "GpgVerificationKey2020"@ {
        VerificationMethodType::GpgVerificationKey2020
    } else if tag == "RsaVerificationKey2018"@ {
        VerificationMethodType::RsaVerificationKey2018
    } else if tag == "X25519KeyAgreementKey2019"@ {
        VerificationMethodType::X25519KeyAgreementKey2019
    } else if tag == "SchnorrSecp256k1VerificationKey2019"@ {
        VerificationMethodType::SchnorrSecp256k1VerificationKey2019
    } else if tag == "EcdsaSecp256k1RecoveryMethod2020"@ {
        VerificationMethodType::EcdsaSecp256k1RecoveryMethod2020
    } else {
        VerificationMethodType::UnknownKey
    }
}

/// Classifies a `type` tag.
pub fn classify(tag: &String) -> (r: VerificationMethodType)
    ensures
        r == method_type_of(tag@),
{
    if same_text(tag, "JwsVerificationKey2020") {
        VerificationMethodType::JwsVerificationKey2020
    } else if same_text(tag, "EcdsaSecp256k1VerificationKey2019") {
        VerificationMethodType::EcdsaSecp256k1VerificationKey2019
    } else if same_text(tag, "Ed25519VerificationKey2018") {
        VerificationMethodType::Ed25519VerificationKey2018
    } else if same_text(tag, "GpgVerificationKey2020") {
        VerificationMethodType::GpgVerificationKey2020
    } else if same_text(tag, "RsaVerificationKey2018") {
        VerificationMethodType::RsaVerificationKey2018
    } else if same_text(tag, "X25519KeyAgreementKey2019") {
        VerificationMethodType::X25519KeyAgreementKey2019
    } else if same_text(tag, "SchnorrSecp256k1VerificationKey2019") {
        VerificationMethodType::SchnorrSecp256k1VerificationKey2019
    } else if same_text(tag, "EcdsaSecp256k1RecoveryMethod2020") {
        VerificationMethodType::EcdsaSecp256k1RecoveryMethod2020
    } else {
        VerificationMethodType::UnknownKey
    }
}

/// The wire field that carries key material.
#[derive(Debug, Clone, Copy, PartialEq, Eq, Structural)]
pub enum KeyField {
    Pem,
    Hex,
    Base64,
    Base58,
    Multibase,
    EthereumAddress,
}

/// The wire name of a key-material field.
pub open spec fn key_name(f: KeyField) -> Seq<char> {
    match f {
        KeyField::Pem => "publicKeyPem"@,
        KeyField::Hex => "publicKeyHex"@,
        KeyField::Base64 => "publicKeyBase64"@,
        KeyField::Base58 => "publicKeyBase58"@,
        KeyField::Multibase => "publicKeyMultibase"@,
        KeyField::EthereumAddress => "ethereumAddress"@,
    }
}

/// The key-material fields in the order in which they are looked for.
pub open spec fn key_fields() -> Seq<KeyField> {
    seq![
        KeyField::Pem,
        KeyField::Hex,
        KeyField::Base64,
        KeyField::Base58,
        KeyField::Multibase,
        KeyField::EthereumAddress,
    ]
}

/// The wire name of a key-material field.
pub fn key_field_name(f: KeyField) -> (r: &'static str)
    ensures
        r@ == key_name(f),
{
    match f {
        KeyField::Pem => "publicKeyPem",
        KeyField::Hex => "publicKeyHex",
        KeyField::Base64 => "publicKeyBase64",
        KeyField::Base58 => "publicKeyBase58",
        KeyField::Multibase => "publicKeyMultibase",
        KeyField::EthereumAddress => "ethereumAddress",
    }
}

fn key_field_at(i: usize) -> (r: KeyField)
    requires
        i < 6,
    ensures
        r == key_fields()[i as int],
{
    if i == 0 {
        KeyField::Pem
    } else if i == 1 {
        KeyField::Hex
    } else if i == 2 {
        KeyField::Base64
    } else if i == 3 {
        KeyField::Base58
    } else if i == 4 {
        KeyField::Multibase
    } else {
        KeyField::EthereumAddress
    }
}

/// Key material, tagged by the field that carried it, or `Unknown` when no
/// recognized key-material field was present.
#[derive(Debug, PartialEq, Eq)]
pub enum PublicKeyEncoding {
    Unknown,
    PublicKeyPem(String),
    PublicKeyHex(String),
    PublicKeyBase64(String),
    PublicKeyBase58(String),
    PublicKeyMultibase(String),
    EthereumAddress(String),
}

impl View for PublicKeyEncoding {
    type V = Option<(KeyField, Seq<char>)>;

    open spec fn view(&self) -> Option<(KeyField, Seq<char>)> {
        match self {
            PublicKeyEncoding::Unknown => None,
            PublicKeyEncoding::PublicKeyPem(s) => Some((KeyField::Pem, s@)),
            PublicKeyEncoding::PublicKeyHex(s) => Some((KeyField::Hex, s@)),
            PublicKeyEncoding::PublicKeyBase64(s) => Some((KeyField::Base64, s@)),
            PublicKeyEncoding::PublicKeyBase58(s) => Some((KeyField::Base58, s@)),
            PublicKeyEncoding::PublicKeyMultibase(s) => Some((KeyField::Multibase, s@)),
            PublicKeyEncoding::EthereumAddress(s) => Some((KeyField::EthereumAddress, s@)),
        }
    }
}

impl Default for PublicKeyEncoding {
    fn default() -> (r: Self)
        ensures
            r@ is None,
    {
        PublicKeyEncoding::Unknown
    }
}

impl PublicKeyEncoding {
    /// The encoding that carries `s` in the field `f`.
    pub fn make(f: KeyField, s: String) -> (r: PublicKeyEncoding)
        ensures
            r@ == Some((f, s@)),
    {
        match f {
            KeyField::Pem => PublicKeyEncoding::PublicKeyPem(s),
            KeyField::Hex => PublicKeyEncoding::PublicKeyHex(s),
            KeyField::Base64 => PublicKeyEncoding::PublicKeyBase64(s),
            KeyField::Base58 => PublicKeyEncoding::PublicKeyBase58(s),
            KeyField::Multibase => PublicKeyEncoding::PublicKeyMultibase(s),
            KeyField::EthereumAddress => PublicKeyEncoding::EthereumAddress(s),
        }
    }

    /// The encoded key text; `None` for `Unknown`, which carries none.
    pub fn payload(&self) -> (r: Option<&String>)
        ensures
            r is None <==> self@ is None,
            r is Some ==> r->Some_0@ == self@->Some_0.1,
    {
        match self {
            PublicKeyEncoding::Unknown => None,
            PublicKeyEncoding::PublicKeyPem(s) => Some(s),
            PublicKeyEncoding::PublicKeyHex(s) => Some(s),
            PublicKeyEncoding::PublicKeyBase64(s) => Some(s),
            PublicKeyEncoding::PublicKeyBase58(s) => Some(s),
            PublicKeyEncoding::PublicKeyMultibase(s) => Some(s),
            PublicKeyEncoding::EthereumAddress(s) => Some(s),
        }
    }

    /// A copy of this encoding.
    pub fn duplicate(&self) -> (r: PublicKeyEncoding)
        ensures
            r@ == self@,
    {
        match self {
            PublicKeyEncoding::Unknown => PublicKeyEncoding::Unknown,
            PublicKeyEncoding::PublicKeyPem(s) => PublicKeyEncoding::PublicKeyPem(s.clone()),
            PublicKeyEncoding::PublicKeyHex(s) => PublicKeyEncoding::PublicKeyHex(s.clone()),
            PublicKeyEncoding::PublicKeyBase64(s) => PublicKeyEncoding::PublicKeyBase64(s.clone()),
            PublicKeyEncoding::PublicKeyBase58(s) => PublicKeyEncoding::PublicKeyBase58(s.clone()),
            PublicKeyEncoding::PublicKeyMultibase(s) => PublicKeyEncoding::PublicKeyMultibase(
                s.clone(),
            ),
            PublicKeyEncoding::EthereumAddress(s) => PublicKeyEncoding::EthereumAddress(s.clone()),
        }
    }
}

/// The key-material fields among the first `n` of `key_fields()` that `m` carries.
pub open spec fn present_upto(m: Seq<(Seq<char>, Json)>, n: int) -> Seq<KeyField>
    decreases n,
{
    if n <= 0 {
        Seq::empty()
    } else {
        let p = present_upto(m, n - 1);
        if has_key(m, key_name(key_fields()[n - 1])) {
            p.push(key_fields()[n - 1])
        } else {
            p
        }
    }
}

/// Decoding of the key material of a verification method object: none present
/// is `None`; two or more present conflict; the one present must be a string.
pub open spec fn decode_key(m: Seq<(Seq<char>, Json)>, at: Entity) -> Result<
    Option<(KeyField, Seq<char>)>,
    DecodeError,
> {
    let p = present_upto(m, 6);
    if p.len() == 0 {
        Ok(None)
    } else if p.len() > 1 {
        Err(DecodeError::ConflictingKeyEncoding(at))
    } else {
        match lookup(m, key_name(p[0])) {
            Some(Json::Str(s)) => Ok(Some((p[0], s))),
            _ => Err(DecodeError::WrongFieldType(at, Field::KeyMaterial)),
        }
    }
}

/// Reads the key material of a verification method object.
pub fn decode_key_members(m: &Vec<Member>, at: Entity) -> (r: Result<PublicKeyEncoding, DecodeError>)
    ensures
        match decode_key(members_view(m@), at) {
            Ok(k) => r is Ok && r->Ok_0@ == k,
            Err(e) => r == Err::<PublicKeyEncoding, DecodeError>(e),
        },
{
    let ghost mv = members_view(m@);
    let mut count: usize = 0;
    let mut first: KeyField = KeyField::Pem;
    let mut pos: usize = 0;
    let mut i: usize = 0;
    while i < 6
        invariant
            mv == members_view(m@),
            i <= 6,
            count as int == present_upto(mv, i as int).len(),
            count <= i,
            count > 0 ==> first == present_upto(mv, i as int)[0] && pos < m@.len() && find_from(
                mv,
                key_name(first),
                0,
            ) == Some(pos as int),
        decreases 6 - i,
    {
        let f = key_field_at(i);
        let found = find_member(m, key_field_name(f));
        proof {
            lemma_lookup_none(mv, key_name(f));
        }
        match found {
            Some(j) => {
                if count == 0 {
                    first = f;
                    pos = j;
                }
                count = count + 1;
            },
            None => {},
        }
        i = i + 1;
    }
    if count == 0 {
        Ok(PublicKeyEncoding::Unknown)
    } else if count > 1 {
        Err(DecodeError::ConflictingKeyEncoding(at))
    } else {
        match &m[pos].value {
            JsonValue::Str(s) => Ok(PublicKeyEncoding::make(first, s.clone())),
            _ => Err(DecodeError::WrongFieldType(at, Field::KeyMaterial)),
        }
    }
}

/// The mathematical form of a verification method.
pub struct MethodView {
    pub id: Seq<char>,
    pub tag: Seq<char>,
    pub controller: Seq<char>,
    pub key: Option<(KeyField, Seq<char>)>,
    pub extra: Seq<(Seq<char>, Json)>,
}

/// Identifiers are non-empty and the extension holds no recognized name.
pub open spec fn method_wf(v: MethodView) -> bool {
    v.id.len() > 0 && v.controller.len() > 0 && all_unknown(v.extra, false) && names_unique(
        v.extra,
    )
}

/// Decoding of a verification method object: `id`, `type` and `controller`
/// are required, in that order; then the key material; every other member is
/// kept as an extension, in order. Failures name `at`, the method concerned.
pub open spec fn decode_method(m: Seq<(Seq<char>, Json)>, at: Entity) -> Result<MethodView, DecodeError> {
    match string_field(m, "id"@, at, Field::Id) {
        Err(e) => Err(e),
        Ok(ids) => match subject_of(ids, at, Field::Id) {
            Err(e) => Err(e),
            Ok(id) => match string_field(m, "type"@, at, Field::Type) {
                Err(e) => Err(e),
                Ok(tag) => match string_field(m, "controller"@, at, Field::Controller) {
                    Err(e) => Err(e),
                    Ok(cs) => match subject_of(cs, at, Field::Controller) {
                        Err(e) => Err(e),
                        Ok(c) => match decode_key(m, at) {
                            Err(e) => Err(e),
                            Ok(k) => Ok(
                                MethodView {
                                    id,
                                    tag,
                                    controller: c,
                                    key: k,
                                    extra: unrecognized(m, false),
                                },
                            ),
                        },
                    },
                },
            },
        },
    }
}

/// The member that carries key material, if any.
pub open spec fn key_members(k: Option<(KeyField, Seq<char>)>) -> Seq<(Seq<char>, Json)> {
    match k {
        None => Seq::empty(),
        Some(p) => seq![(key_name(p.0), Json::Str(p.1))],
    }
}

/// The members of an encoded verification method: the typed fields first, then
/// the extension in its order.
pub open spec fn method_members(v: MethodView) -> Seq<(Seq<char>, Json)> {
    seq![("id"@, Json::Str(v.id)), ("type"@, Json::Str(v.tag)), ("controller"@, Json::Str(v.controller))]
        + key_members(v.key) + v.extra
}

/// A named, typed key record.
#[derive(Debug, PartialEq)]
pub struct VerificationMethod {
    id: Subject,
    type_tag: String,
    controller: Subject,
    key_data: PublicKeyEncoding,
    extra: IndexMap<String, JsonValue>,
}

impl View for VerificationMethod {
    type V = MethodView;

    closed spec fn view(&self) -> MethodView {
        MethodView {
            id: self.id@,
            tag: self.type_tag@,
            controller: self.controller@,
            key: self.key_data@,
            extra: extension_entries(self.extra),
        }
    }
}

impl VerificationMethod {
    /// The method is well formed.
    pub open spec fn wf(&self) -> bool {
        method_wf(self@)
    }

    /// Reads a verification method from the members of a JSON object; failures
    /// name `at`, the method concerned.
    pub fn decode(m: &Vec<Member>, at: Entity) -> (r: Result<VerificationMethod, DecodeError>)
        ensures
            r is Ok ==> r->Ok_0.wf(),
            match decode_method(members_view(m@), at) {
                Ok(v) => r is Ok && r->Ok_0@ == v,
                Err(e) => r == Err::<VerificationMethod, DecodeError>(e),
            },
    {
        let ids = match string_member(m, "id", at, Field::Id) {
            Err(e) => return Err(e),
            Ok(s) => s,
        };
        let id = match Subject::from_string(ids, at, Field::Id) {
            Err(e) => return Err(e),
            Ok(x) => x,
        };
        let type_tag = match string_member(m, "type", at, Field::Type) {
            Err(e) => return Err(e),
            Ok(s) => s,
        };
        let cs = match string_member(m, "controller", at, Field::Controller) {
            Err(e) => return Err(e),
            Ok(s) => s,
        };
        let controller = match Subject::from_string(cs, at, Field::Controller) {
            Err(e) => return Err(e),
            Ok(x) => x,
        };
        let key_data = match decode_key_members(m, at) {
            Err(e) => return Err(e),
            Ok(k) => k,
        };
        let extra = unrecognized_members(m, false);
        Ok(VerificationMethod { id, type_tag, controller, key_data, extra })
    }

    /// Writes the verification method as a JSON object.
    pub fn encode(&self) -> (r: JsonValue)
        ensures
            r@ == Json::Obj(method_members(self@)),
    {
        let mut out: Vec<Member> = Vec::new();
        out.push(Member { key: "id".to_owned(), value: JsonValue::Str(self.id.as_str().to_owned()) });
        out.push(Member { key: "type".to_owned(), value: JsonValue::Str(self.type_tag.clone()) });
        out.push(
            Member {
                key: "controller".to_owned(),
                value: JsonValue::Str(self.controller.as_str().to_owned()),
            },
        );
        match self.key_data.payload() {
            Some(s) => {
                let f = key_field_of(&self.key_data);
                out.push(Member { key: key_field_name(f).to_owned(), value: JsonValue::Str(s.clone()) });
            },
            None => {},
        }
        let ghost head = members_view(out@);
        assert(head =~= seq![
            ("id"@, Json::Str(self@.id)),
            ("type"@, Json::Str(self@.tag)),
            ("controller"@, Json::Str(self@.controller)),
        ] + key_members(self@.key));
        append_entries(&mut out, &self.extra);
        proof {
            lemma_object_view(out);
        }
        JsonValue::Object(out)
    }

    /// The identifier of this method.
    pub fn subject(&self) -> (r: &Subject)
        ensures
            r@ == self@.id,
    {
        &self.id
    }

    /// The subject that controls this method.
    pub fn controller(&self) -> (r: &Subject)
        ensures
            r@ == self@.controller,
    {
        &self.controller
    }

    /// The kind named by the `type` tag.
    pub fn kind(&self) -> (r: VerificationMethodType)
        ensures
            r == method_type_of(self@.tag),
    {
        classify(&self.type_tag)
    }

    /// The `type` tag as it was written.
    pub fn type_tag(&self) -> (r: &String)
        ensures
            r@ == self@.tag,
    {
        &self.type_tag
    }

    /// A copy of the key material.
    pub fn encoding(&self) -> (r: PublicKeyEncoding)
        ensures
            r@ == self@.key,
    {
        self.key_data.duplicate()
    }

    /// The encoded key text; there is none when the encoding is unknown.
    pub fn data(&self) -> (r: &String)
        requires
            self@.key is Some,
        ensures
            r@ == self@.key->Some_0.1,
    {
        match self.key_data.payload() {
            Some(s) => s,
            None => {
                assert(false);
                &self.type_tag
            },
        }
    }

    /// The unrecognized members, in the order they were read.
    pub fn extra(&self) -> (r: &IndexMap<String, JsonValue>)
        ensures
            extension_entries(*r) == self@.extra,
    {
        &self.extra
    }
}

fn key_field_of(k: &PublicKeyEncoding) -> (r: KeyField)
    requires
        k@ is Some,
    ensures
        r == k@->Some_0.0,
{
    match k {
        PublicKeyEncoding::PublicKeyPem(_) => KeyField::Pem,
        PublicKeyEncoding::PublicKeyHex(_) => KeyField::Hex,
        PublicKeyEncoding::PublicKeyBase64(_) => KeyField::Base64,
        PublicKeyEncoding::PublicKeyBase58(_) => KeyField::Base58,
        PublicKeyEncoding::PublicKeyMultibase(_) => KeyField::Multibase,
        _ => KeyField::EthereumAddress,
    }
}

} // verus!
