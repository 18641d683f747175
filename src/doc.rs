use crate::context::{decode_context, encode_context, Context};
use crate::error::{DecodeError, Entity, Field};
use crate::json::{
    copy_json, find_member, lemma_array_view, lemma_object_view, items_view,
    lookup, members_view, string_field, string_member, Json, JsonValue, Member,
};
use crate::key_set_entry::{decode_entry, encode_entry, entry_wf, EntryView, KeySetEntry};
use crate::extension::{map_new, append_entries, extension_entries, names_unique};
use crate::names::{all_unknown, unrecognized, unrecognized_members};
use indexmap::IndexMap;
use crate::subject::{subject_of, Subject};
use crate::verification_method::{
    decode_method, method_members, method_wf, MethodView, VerificationMethod,
};
use vstd::prelude::*;

verus! {

/// The mathematical form of a document.
pub struct DocView {
    pub context: Seq<Seq<char>>,
    pub id: Seq<char>,
    pub created: Seq<char>,
    pub updated: Seq<char>,
    pub methods: Seq<MethodView>,
    pub authentication: Seq<EntryView>,
    pub assertion_method: Seq<EntryView>,
    pub key_agreement: Seq<EntryView>,
    pub capability_invocation: Seq<EntryView>,
    pub capability_delegation: Seq<EntryView>,
    pub service: Seq<Json>,
    /// Whether the `verificationMethod` member was given, even as an empty list.
    /// Whether the `created` member was given, even as the empty string.
    pub has_created: bool,
    /// Whether the `updated` member was given, even as the empty string.
    pub has_updated: bool,
    pub has_methods: bool,
    /// Whether the `authentication` member was given, even as an empty list.
    pub has_authentication: bool,
    /// Whether the `assertionMethod` member was given, even as an empty list.
    pub has_assertion_method: bool,
    /// Whether the `keyAgreement` member was given, even as an empty list.
    pub has_key_agreement: bool,
    /// Whether the `capabilityInvocation` member was given, even as an empty list.
    pub has_capability_invocation: bool,
    /// Whether the `capabilityDelegation` member was given, even as an empty list.
    pub has_capability_delegation: bool,
    /// Whether the `service` member was given, even as an empty list.
    pub has_service: bool,
    pub extra: Seq<(Seq<char>, Json)>,
}

/// Every element of a role list is well formed.
pub open spec fn entries_wf(s: Seq<EntryView>) -> bool {
    forall|i: int| 0 <= i < s.len() ==> entry_wf(#[trigger] s[i])
}

/// The invariant of a document: every part is well formed and the extension
/// holds no recognized name.
pub open spec fn doc_wf(d: DocView) -> bool {
    &&& d.context.len() > 0
    &&& d.id.len() > 0
    &&& forall|i: int| 0 <= i < d.methods.len() ==> method_wf(#[trigger] d.methods[i])
    &&& entries_wf(d.authentication)
    &&& entries_wf(d.assertion_method)
    &&& entries_wf(d.key_agreement)
    &&& entries_wf(d.capability_invocation)
    &&& entries_wf(d.capability_delegation)
    &&& all_unknown(d.extra, true)
    &&& !d.has_created ==> d.created.len() == 0
    &&& !d.has_updated ==> d.updated.len() == 0
    &&& !d.has_methods ==> d.methods.len() == 0
    &&& !d.has_authentication ==> d.authentication.len() == 0
    &&& !d.has_assertion_method ==> d.assertion_method.len() == 0
    &&& !d.has_key_agreement ==> d.key_agreement.len() == 0
    &&& !d.has_capability_invocation ==> d.capability_invocation.len() == 0
    &&& !d.has_capability_delegation ==> d.capability_delegation.len() == 0
    &&& !d.has_service ==> d.service.len() == 0
    &&& names_unique(d.extra)
}

/// Decoding of the first `n` items of a `verificationMethod` list; the first
/// failure decides.
pub open spec fn decode_methods_upto(a: Seq<Json>, n: int) -> Result<Seq<MethodView>, DecodeError>
    decreases n,
{
    if n <= 0 {
        Ok(Seq::empty())
    } else {
        match decode_methods_upto(a, n - 1) {
            Err(e) => Err(e),
            Ok(p) => match a[n - 1] {
                Json::Obj(m) => match decode_method(m, Entity::Method((n - 1) as usize)) {
                    Err(e) => Err(e),
                    Ok(x) => Ok(p.push(x)),
                },
                _ => Err(
                    DecodeError::WrongFieldType(
                        Entity::Method((n - 1) as usize),
                        Field::VerificationMethod,
                    ),
                ),
            },
        }
    }
}

/// Decoding of the first `n` items of a role list of the field `f`; the first
/// failure decides.
pub open spec fn decode_entries_upto(a: Seq<Json>, f: Field, n: int) -> Result<
    Seq<EntryView>,
    DecodeError,
>
    decreases n,
{
    if n <= 0 {
        Ok(Seq::empty())
    } else {
        match decode_entries_upto(a, f, n - 1) {
            Err(e) => Err(e),
            Ok(p) => match decode_entry(a[n - 1], f, (n - 1) as usize) {
                Err(e) => Err(e),
                Ok(x) => Ok(p.push(x)),
            },
        }
    }
}

/// An optional string member: absent is the empty string.
pub open spec fn optional_text(m: Seq<(Seq<char>, Json)>, name: Seq<char>, f: Field) -> Result<
    Seq<char>,
    DecodeError,
> {
    match lookup(m, name) {
        None => Ok(Seq::empty()),
        Some(Json::Str(s)) => Ok(s),
        Some(_) => Err(DecodeError::WrongFieldType(Entity::Document, f)),
    }
}

/// The optional `verificationMethod` list: absent is empty.
pub open spec fn method_list(m: Seq<(Seq<char>, Json)>) -> Result<Seq<MethodView>, DecodeError> {
    match lookup(m, "verificationMethod"@) {
        None => Ok(Seq::empty()),
        Some(Json::Arr(a)) => decode_methods_upto(a, a.len() as int),
        Some(_) => Err(DecodeError::WrongFieldType(Entity::Document, Field::VerificationMethod)),
    }
}

/// An optional role list: absent is empty.
pub open spec fn entry_list(m: Seq<(Seq<char>, Json)>, name: Seq<char>, f: Field) -> Result<
    Seq<EntryView>,
    DecodeError,
> {
    match lookup(m, name) {
        None => Ok(Seq::empty()),
        Some(Json::Arr(a)) => decode_entries_upto(a, f, a.len() as int),
        Some(_) => Err(DecodeError::WrongFieldType(Entity::Document, f)),
    }
}

/// The optional `service` list, kept as it is: absent is empty.
pub open spec fn service_list(m: Seq<(Seq<char>, Json)>) -> Result<Seq<Json>, DecodeError> {
    match lookup(m, "service"@) {
        None => Ok(Seq::empty()),
        Some(Json::Arr(a)) => Ok(a),
        Some(_) => Err(DecodeError::WrongFieldType(Entity::Document, Field::Service)),
    }
}

/// The required `@context` member.
pub open spec fn context_field(m: Seq<(Seq<char>, Json)>) -> Result<Seq<Seq<char>>, DecodeError> {
    match lookup(m, "@context"@) {
        None => Err(DecodeError::MissingRequiredField(Entity::Document, Field::Context)),
        Some(v) => decode_context(v),
    }
}

/// The required `id` member.
pub open spec fn id_field(m: Seq<(Seq<char>, Json)>) -> Result<Seq<char>, DecodeError> {
    match string_field(m, "id"@, Entity::Document, Field::Id) {
        Err(e) => Err(e),
        Ok(s) => subject_of(s, Entity::Document, Field::Id),
    }
}

/// Decoding of a document object. The fields are read in wire order
/// `@context`, `id`, `created`, `updated`, `verificationMethod`, the five role
/// lists, `service`; the first failure decides; every other member is kept as
/// an extension, in order.
pub open spec fn decode_document(v: Json) -> Result<DocView, DecodeError> {
    match v {
        Json::Obj(m) => match context_field(m) {
            Err(e) => Err(e),
            Ok(context) => match id_field(m) {
                Err(e) => Err(e),
                Ok(id) => match optional_text(m, "created"@, Field::Created) {
                    Err(e) => Err(e),
                    Ok(created) => match optional_text(m, "updated"@, Field::Updated) {
                        Err(e) => Err(e),
                        Ok(updated) => match method_list(m) {
                            Err(e) => Err(e),
                            Ok(methods) => match entry_list(
                                m,
                                "authentication"@,
                                Field::Authentication,
                            ) {
                                Err(e) => Err(e),
                                Ok(authentication) => match entry_list(
                                    m,
                                    "assertionMethod"@,
                                    Field::AssertionMethod,
                                ) {
                                    Err(e) => Err(e),
                                    Ok(assertion_method) => match entry_list(
                                        m,
                                        "keyAgreement"@,
                                        Field::KeyAgreement,
                                    ) {
                                        Err(e) => Err(e),
                                        Ok(key_agreement) => match entry_list(
                                            m,
                                            "capabilityInvocation"@,
                                            Field::CapabilityInvocation,
                                        ) {
                                            Err(e) => Err(e),
                                            Ok(capability_invocation) => match entry_list(
                                                m,
                                                "capabilityDelegation"@,
                                                Field::CapabilityDelegation,
                                            ) {
                                                Err(e) => Err(e),
                                                Ok(capability_delegation) => match service_list(
                                                    m,
                                                ) {
                                                    Err(e) => Err(e),
                                                    Ok(service) => Ok(
                                                        DocView {
                                                            context,
                                                            id,
                                                            created,
                                                            updated,
                                                            methods,
                                                            authentication,
                                                            assertion_method,
                                                            key_agreement,
                                                            capability_invocation,
                                                            capability_delegation,
                                                            service,
                                                            has_created: lookup(m, "created"@) is Some,
                                                            has_updated: lookup(m, "updated"@) is Some,
                                                            has_methods: lookup(m, "verificationMethod"@) is Some,
                                                            has_authentication: lookup(m, "authentication"@) is Some,
                                                            has_assertion_method: lookup(m, "assertionMethod"@) is Some,
                                                            has_key_agreement: lookup(m, "keyAgreement"@) is Some,
                                                            has_capability_invocation: lookup(m, "capabilityInvocation"@) is Some,
                                                            has_capability_delegation: lookup(m, "capabilityDelegation"@) is Some,
                                                            has_service: lookup(m, "service"@) is Some,
                                                            extra: unrecognized(m, true),
                                                        },
                                                    ),
                                                },
                                            },
                                        },
                                    },
                                },
                            },
                        },
                    },
                },
            },
        },
        _ => Err(DecodeError::NotAnObject),
    }
}

/// A string member that is written when it was given, even as the empty string.
pub open spec fn text_member(name: Seq<char>, s: Seq<char>, present: bool) -> Seq<
    (Seq<char>, Json),
> {
    if present {
        seq![(name, Json::Str(s))]
    } else {
        Seq::empty()
    }
}

/// A list member that is written when it was given, even as an empty list.
pub open spec fn list_member(name: Seq<char>, items: Seq<Json>, present: bool) -> Seq<
    (Seq<char>, Json),
> {
    if present {
        seq![(name, Json::Arr(items))]
    } else {
        Seq::empty()
    }
}

/// The encoded verification methods.
pub open spec fn methods_json(s: Seq<MethodView>) -> Seq<Json> {
    Seq::new(s.len(), |i: int| Json::Obj(method_members(s[i])))
}

/// The encoded elements of a role list.
pub open spec fn entries_json(s: Seq<EntryView>) -> Seq<Json> {
    Seq::new(s.len(), |i: int| encode_entry(s[i]))
}

/// The members of an encoded document: the typed fields in wire order, an
/// optional member whenever it was given (an empty list as `[]`), then the
/// extension in its order.
pub open spec fn document_members(d: DocView) -> Seq<(Seq<char>, Json)> {
    seq![("@context"@, encode_context(d.context)), ("id"@, Json::Str(d.id))]
        + text_member("created"@, d.created, d.has_created)
        + text_member("updated"@, d.updated, d.has_updated)
        + list_member("verificationMethod"@, methods_json(d.methods), d.has_methods)
        + list_member("authentication"@, entries_json(d.authentication), d.has_authentication)
        + list_member("assertionMethod"@, entries_json(d.assertion_method), d.has_assertion_method)
        + list_member("keyAgreement"@, entries_json(d.key_agreement), d.has_key_agreement)
        + list_member("capabilityInvocation"@, entries_json(d.capability_invocation), d.has_capability_invocation)
        + list_member("capabilityDelegation"@, entries_json(d.capability_delegation), d.has_capability_delegation)
        + list_member("service"@, d.service, d.has_service)
        + d.extra
}

/// Encoding of a document.
pub open spec fn encode_document(d: DocView) -> Json {
    Json::Obj(document_members(d))
}

/// The views of a list of verification methods.
pub open spec fn methods_view(v: Seq<VerificationMethod>) -> Seq<MethodView> {
    Seq::new(v.len(), |i: int| v[i]@)
}

/// The views of a role list.
pub open spec fn entries_view(v: Seq<KeySetEntry>) -> Seq<EntryView> {
    Seq::new(v.len(), |i: int| v[i]@)
}

fn decode_methods(a: &Vec<JsonValue>) -> (r: Result<Vec<VerificationMethod>, DecodeError>)
    ensures
        match decode_methods_upto(items_view(a@), a@.len() as int) {
            Ok(x) => r is Ok && methods_view(r->Ok_0@) == x,
            Err(e) => r == Err::<Vec<VerificationMethod>, DecodeError>(e),
        },
        r is Ok ==> forall|i: int| 0 <= i < r->Ok_0@.len() ==> (#[trigger] r->Ok_0@[i]).wf(),
{
    let ghost av = items_view(a@);
    let mut out: Vec<VerificationMethod> = Vec::new();
    let mut i: usize = 0;
    assert(methods_view(out@) =~= Seq::<MethodView>::empty());
    while i < a.len()
        invariant
            av == items_view(a@),
            i <= a@.len(),
            out@.len() == i,
            forall|j: int| 0 <= j < i ==> (#[trigger] out@[j]).wf(),
            decode_methods_upto(av, i as int) == Ok::<Seq<MethodView>, DecodeError>(
                methods_view(out@),
            ),
        decreases a@.len() - i,
    {
        let ghost before = methods_view(out@);
        match &a[i] {
            JsonValue::Object(m) => {
                proof {
                    lemma_object_view(*m);
                }
                match VerificationMethod::decode(m, Entity::Method(i)) {
                    Ok(x) => {
                        out.push(x);
                        assert(methods_view(out@) =~= before.push(out@[i as int]@));
                    },
                    Err(e) => {
                        proof {
                            lemma_methods_err(av, i as int + 1, a@.len() as int);
                        }
                        return Err(e);
                    },
                }
            },
            _ => {
                proof {
                    lemma_methods_err(av, i as int + 1, a@.len() as int);
                }
                return Err(DecodeError::WrongFieldType(Entity::Method(i), Field::VerificationMethod));
            },
        }
        i = i + 1;
    }
    Ok(out)
}

proof fn lemma_methods_err(a: Seq<Json>, n: int, m: int)
    requires
        0 <= n <= m,
        decode_methods_upto(a, n) is Err,
    ensures
        decode_methods_upto(a, m) == decode_methods_upto(a, n),
    decreases m - n,
{
    if n < m {
        lemma_methods_err(a, n, m - 1);
    }
}

proof fn lemma_entries_err(a: Seq<Json>, f: Field, n: int, m: int)
    requires
        0 <= n <= m,
        decode_entries_upto(a, f, n) is Err,
    ensures
        decode_entries_upto(a, f, m) == decode_entries_upto(a, f, n),
    decreases m - n,
{
    if n < m {
        lemma_entries_err(a, f, n, m - 1);
    }
}

fn decode_entries(a: &Vec<JsonValue>, f: Field) -> (r: Result<Vec<KeySetEntry>, DecodeError>)
    ensures
        match decode_entries_upto(items_view(a@), f, a@.len() as int) {
            Ok(x) => r is Ok && entries_view(r->Ok_0@) == x,
            Err(e) => r == Err::<Vec<KeySetEntry>, DecodeError>(e),
        },
        r is Ok ==> forall|i: int| 0 <= i < r->Ok_0@.len() ==> (#[trigger] r->Ok_0@[i]).wf(),
{
    let ghost av = items_view(a@);
    let mut out: Vec<KeySetEntry> = Vec::new();
    let mut i: usize = 0;
    assert(entries_view(out@) =~= Seq::<EntryView>::empty());
    while i < a.len()
        invariant
            av == items_view(a@),
            i <= a@.len(),
            out@.len() == i,
            forall|j: int| 0 <= j < i ==> (#[trigger] out@[j]).wf(),
            decode_entries_upto(av, f, i as int) == Ok::<Seq<EntryView>, DecodeError>(
                entries_view(out@),
            ),
        decreases a@.len() - i,
    {
        let ghost before = entries_view(out@);
        match KeySetEntry::decode(&a[i], f, i) {
            Ok(x) => {
                out.push(x);
                assert(entries_view(out@) =~= before.push(out@[i as int]@));
            },
            Err(e) => {
                proof {
                    lemma_entries_err(av, f, i as int + 1, a@.len() as int);
                }
                return Err(e);
            },
        }
        i = i + 1;
    }
    Ok(out)
}

fn optional_member(m: &Vec<Member>, name: &str, f: Field) -> (r: Result<String, DecodeError>)
    ensures
        match optional_text(members_view(m@), name@, f) {
            Ok(s) => r is Ok && r->Ok_0@ == s,
            Err(e) => r == Err::<String, DecodeError>(e),
        },
{
    match find_member(m, name) {
        None => Ok(String::new()),
        Some(i) => match &m[i].value {
            JsonValue::Str(s) => Ok(s.clone()),
            _ => Err(DecodeError::WrongFieldType(Entity::Document, f)),
        },
    }
}

fn method_members_of(m: &Vec<Member>) -> (r: Result<Vec<VerificationMethod>, DecodeError>)
    ensures
        match method_list(members_view(m@)) {
            Ok(x) => r is Ok && methods_view(r->Ok_0@) == x,
            Err(e) => r == Err::<Vec<VerificationMethod>, DecodeError>(e),
        },
        r is Ok ==> forall|i: int| 0 <= i < r->Ok_0@.len() ==> (#[trigger] r->Ok_0@[i]).wf(),
{
    match find_member(m, "verificationMethod") {
        None => {
            let r: Vec<VerificationMethod> = Vec::new();
            assert(methods_view(r@) =~= Seq::<MethodView>::empty());
            Ok(r)
        },
        Some(i) => match &m[i].value {
            JsonValue::Array(a) => {
                proof {
                    lemma_array_view(*a);
                }
                decode_methods(a)
            },
            _ => Err(DecodeError::WrongFieldType(Entity::Document, Field::VerificationMethod)),
        },
    }
}

fn entry_members_of(m: &Vec<Member>, name: &str, f: Field) -> (r: Result<Vec<KeySetEntry>, DecodeError>)
    ensures
        match entry_list(members_view(m@), name@, f) {
            Ok(x) => r is Ok && entries_view(r->Ok_0@) == x,
            Err(e) => r == Err::<Vec<KeySetEntry>, DecodeError>(e),
        },
        r is Ok ==> forall|i: int| 0 <= i < r->Ok_0@.len() ==> (#[trigger] r->Ok_0@[i]).wf(),
{
    match find_member(m, name) {
        None => {
            let r: Vec<KeySetEntry> = Vec::new();
            assert(entries_view(r@) =~= Seq::<EntryView>::empty());
            Ok(r)
        },
        Some(i) => match &m[i].value {
            JsonValue::Array(a) => {
                proof {
                    lemma_array_view(*a);
                }
                decode_entries(a, f)
            },
            _ => Err(DecodeError::WrongFieldType(Entity::Document, f)),
        },
    }
}

fn service_members_of(m: &Vec<Member>) -> (r: Result<Vec<JsonValue>, DecodeError>)
    ensures
        match service_list(members_view(m@)) {
            Ok(x) => r is Ok && items_view(r->Ok_0@) == x,
            Err(e) => r == Err::<Vec<JsonValue>, DecodeError>(e),
        },
{
    match find_member(m, "service") {
        None => {
            let r: Vec<JsonValue> = Vec::new();
            assert(items_view(r@) =~= Seq::<Json>::empty());
            Ok(r)
        },
        Some(i) => match &m[i].value {
            JsonValue::Array(a) => {
                proof {
                    lemma_array_view(*a);
                }
                Ok(copy_items(a))
            },
            _ => Err(DecodeError::WrongFieldType(Entity::Document, Field::Service)),
        },
    }
}

fn copy_items(a: &Vec<JsonValue>) -> (r: Vec<JsonValue>)
    ensures
        items_view(r@) == items_view(a@),
{
    let mut out: Vec<JsonValue> = Vec::new();
    let mut i: usize = 0;
    while i < a.len()
        invariant
            i <= a@.len(),
            out@.len() == i,
            forall|j: int| 0 <= j < i ==> out@[j]@ == a@[j]@,
        decreases a@.len() - i,
    {
        out.push(copy_json(&a[i]));
        i = i + 1;
    }
    assert(items_view(out@) =~= items_view(a@));
    out
}

fn push_text(out: &mut Vec<Member>, name: &str, s: &String, present: bool)
    ensures
        members_view(final(out)@) == members_view(old(out)@) + text_member(name@, s@, present),
{
    let ghost before = members_view(out@);
    if present {
        out.push(Member { key: name.to_owned(), value: JsonValue::Str(s.clone()) });
    }
    assert(members_view(out@) =~= before + text_member(name@, s@, present));
}

fn push_list(out: &mut Vec<Member>, name: &str, items: Vec<JsonValue>, present: bool)
    ensures
        members_view(final(out)@) == members_view(old(out)@) + list_member(
            name@,
            items_view(items@),
            present,
        ),
{
    let ghost before = members_view(out@);
    let ghost iv = items_view(items@);
    if present {
        proof {
            lemma_array_view(items);
        }
        out.push(Member { key: name.to_owned(), value: JsonValue::Array(items) });
    }
    assert(members_view(out@) =~= before + list_member(name@, iv, present));
}

fn encode_methods(v: &Vec<VerificationMethod>) -> (r: Vec<JsonValue>)
    ensures
        items_view(r@) == methods_json(methods_view(v@)),
{
    let mut out: Vec<JsonValue> = Vec::new();
    let mut i: usize = 0;
    while i < v.len()
        invariant
            i <= v@.len(),
            out@.len() == i,
            forall|j: int| 0 <= j < i ==> out@[j]@ == Json::Obj(method_members(v@[j]@)),
        decreases v@.len() - i,
    {
        out.push(v[i].encode());
        i = i + 1;
    }
    assert(items_view(out@) =~= methods_json(methods_view(v@)));
    out
}

fn encode_entries(v: &Vec<KeySetEntry>) -> (r: Vec<JsonValue>)
    ensures
        items_view(r@) == entries_json(entries_view(v@)),
{
    let mut out: Vec<JsonValue> = Vec::new();
    let mut i: usize = 0;
    while i < v.len()
        invariant
            i <= v@.len(),
            out@.len() == i,
            forall|j: int| 0 <= j < i ==> out@[j]@ == encode_entry(v@[j]@),
        decreases v@.len() - i,
    {
        out.push(v[i].encode());
        i = i + 1;
    }
    assert(items_view(out@) =~= entries_json(entries_view(v@)));
    out
}

proof fn lemma_methods_wf(v: &Vec<VerificationMethod>)
    requires
        forall|i: int| 0 <= i < v@.len() ==> (#[trigger] v@[i]).wf(),
    ensures
        forall|i: int|
            0 <= i < methods_view(v@).len() ==> method_wf(#[trigger] methods_view(v@)[i]),
{
    assert forall|i: int| 0 <= i < methods_view(v@).len() implies method_wf(
        #[trigger] methods_view(v@)[i],
    ) by {
        assert(v@[i].wf());
    }
}

proof fn lemma_entries_wf(v: &Vec<KeySetEntry>)
    requires
        forall|i: int| 0 <= i < v@.len() ==> (#[trigger] v@[i]).wf(),
    ensures
        entries_wf(entries_view(v@)),
{
    assert forall|i: int| 0 <= i < entries_view(v@).len() implies entry_wf(
        #[trigger] entries_view(v@)[i],
    ) by {
        assert(v@[i].wf());
    }
}

/// A decentralized-identity document.
#[derive(Debug, PartialEq)]
pub struct Document {
    context: Context,
    id: Subject,
    created: String,
    updated: String,
    verification_method: Vec<VerificationMethod>,
    authentication: Vec<KeySetEntry>,
    assertion_method: Vec<KeySetEntry>,
    key_agreement: Vec<KeySetEntry>,
    capability_invocation: Vec<KeySetEntry>,
    capability_delegation: Vec<KeySetEntry>,
    service: Vec<JsonValue>,
    has_created: bool,
    has_updated: bool,
    has_methods: bool,
    has_authentication: bool,
    has_assertion_method: bool,
    has_key_agreement: bool,
    has_capability_invocation: bool,
    has_capability_delegation: bool,
    has_service: bool,
    extra: IndexMap<String, JsonValue>,
}

impl View for Document {
    type V = DocView;

    closed spec fn view(&self) -> DocView {
        DocView {
            context: self.context@,
            id: self.id@,
            created: self.created@,
            updated: self.updated@,
            methods: methods_view(self.verification_method@),
            authentication: entries_view(self.authentication@),
            assertion_method: entries_view(self.assertion_method@),
            key_agreement: entries_view(self.key_agreement@),
            capability_invocation: entries_view(self.capability_invocation@),
            capability_delegation: entries_view(self.capability_delegation@),
            service: items_view(self.service@),
            has_created: self.has_created,
            has_updated: self.has_updated,
            has_methods: self.has_methods,
            has_authentication: self.has_authentication,
            has_assertion_method: self.has_assertion_method,
            has_key_agreement: self.has_key_agreement,
            has_capability_invocation: self.has_capability_invocation,
            has_capability_delegation: self.has_capability_delegation,
            has_service: self.has_service,
            extra: extension_entries(self.extra),
        }
    }
}

impl Document {
    /// The document is well formed.
    pub open spec fn wf(&self) -> bool {
        doc_wf(self@)
    }

    /// An empty document with one context declaration and the identifier
    /// `id`; an empty identifier is refused.
    pub fn new(context: &str, id: &str) -> (r: Result<Document, DecodeError>)
        ensures
            r is Ok ==> r->Ok_0.wf(),
            id@.len() == 0 ==> r == Err::<Document, DecodeError>(
                DecodeError::EmptyIdentifier(Entity::Document, Field::Id),
            ),
            id@.len() > 0 ==> r is Ok,
            r is Ok ==> r->Ok_0@ == (DocView {
                context: seq![context@],
                id: id@,
                created: Seq::empty(),
                updated: Seq::empty(),
                methods: Seq::empty(),
                authentication: Seq::empty(),
                assertion_method: Seq::empty(),
                key_agreement: Seq::empty(),
                capability_invocation: Seq::empty(),
                capability_delegation: Seq::empty(),
                service: Seq::empty(),
                has_created: false,
                has_updated: false,
                has_methods: false,
                has_authentication: false,
                has_assertion_method: false,
                has_key_agreement: false,
                has_capability_invocation: false,
                has_capability_delegation: false,
                has_service: false,
                extra: Seq::empty(),
            }),
    {
        let id = match Subject::new(id) {
            Ok(s) => s,
            Err(e) => return Err(e),
        };
        let r = Document {
            context: Context::new(context),
            id,
            created: String::new(),
            updated: String::new(),
            verification_method: Vec::new(),
            authentication: Vec::new(),
            assertion_method: Vec::new(),
            key_agreement: Vec::new(),
            capability_invocation: Vec::new(),
            capability_delegation: Vec::new(),
            service: Vec::new(),
            has_created: false,
            has_updated: false,
            has_methods: false,
            has_authentication: false,
            has_assertion_method: false,
            has_key_agreement: false,
            has_capability_invocation: false,
            has_capability_delegation: false,
            has_service: false,
            extra: map_new(),
        };
        assert(r@.methods =~= Seq::<MethodView>::empty());
        assert(r@.authentication =~= Seq::<EntryView>::empty());
        assert(r@.assertion_method =~= Seq::<EntryView>::empty());
        assert(r@.key_agreement =~= Seq::<EntryView>::empty());
        assert(r@.capability_invocation =~= Seq::<EntryView>::empty());
        assert(r@.capability_delegation =~= Seq::<EntryView>::empty());
        assert(r@.service =~= Seq::<Json>::empty());
        assert(r@.extra =~= Seq::<(Seq<char>, Json)>::empty());
        Ok(r)
    }

    /// Reads a document from a JSON value.
    pub fn decode(v: &JsonValue) -> (r: Result<Document, DecodeError>)
        ensures
            r is Ok ==> r->Ok_0.wf(),
            match decode_document(v@) {
                Ok(d) => r is Ok && r->Ok_0@ == d,
                Err(e) => r == Err::<Document, DecodeError>(e),
            },
    {
        let m = match v {
            JsonValue::Object(m) => m,
            _ => return Err(DecodeError::NotAnObject),
        };
        proof {
            lemma_object_view(*m);
        }
        let context = match find_member(m, "@context") {
            None => return Err(DecodeError::MissingRequiredField(Entity::Document, Field::Context)),
            Some(i) => match Context::decode(&m[i].value) {
                Ok(c) => c,
                Err(e) => return Err(e),
            },
        };
        let ids = match string_member(m, "id", Entity::Document, Field::Id) {
            Ok(s) => s,
            Err(e) => return Err(e),
        };
        let id = match Subject::from_string(ids, Entity::Document, Field::Id) {
            Ok(s) => s,
            Err(e) => return Err(e),
        };
        let created = match optional_member(m, "created", Field::Created) {
            Ok(s) => s,
            Err(e) => return Err(e),
        };
        let updated = match optional_member(m, "updated", Field::Updated) {
            Ok(s) => s,
            Err(e) => return Err(e),
        };
        let verification_method = match method_members_of(m) {
            Ok(x) => x,
            Err(e) => return Err(e),
        };
        let authentication = match entry_members_of(m, "authentication", Field::Authentication) {
            Ok(x) => x,
            Err(e) => return Err(e),
        };
        let assertion_method = match entry_members_of(m, "assertionMethod", Field::AssertionMethod) {
            Ok(x) => x,
            Err(e) => return Err(e),
        };
        let key_agreement = match entry_members_of(m, "keyAgreement", Field::KeyAgreement) {
            Ok(x) => x,
            Err(e) => return Err(e),
        };
        let capability_invocation = match entry_members_of(
            m,
            "capabilityInvocation",
            Field::CapabilityInvocation,
        ) {
            Ok(x) => x,
            Err(e) => return Err(e),
        };
        let capability_delegation = match entry_members_of(
            m,
            "capabilityDelegation",
            Field::CapabilityDelegation,
        ) {
            Ok(x) => x,
            Err(e) => return Err(e),
        };
        let service = match service_members_of(m) {
            Ok(x) => x,
            Err(e) => return Err(e),
        };
        let has_created = find_member(m, "created").is_some();
        let has_updated = find_member(m, "updated").is_some();
        let has_methods = find_member(m, "verificationMethod").is_some();
        let has_authentication = find_member(m, "authentication").is_some();
        let has_assertion_method = find_member(m, "assertionMethod").is_some();
        let has_key_agreement = find_member(m, "keyAgreement").is_some();
        let has_capability_invocation = find_member(m, "capabilityInvocation").is_some();
        let has_capability_delegation = find_member(m, "capabilityDelegation").is_some();
        let has_service = find_member(m, "service").is_some();
        let extra = unrecognized_members(m, true);
        let r = Document {
            context,
            id,
            created,
            updated,
            verification_method,
            authentication,
            assertion_method,
            key_agreement,
            capability_invocation,
            capability_delegation,
            service,
            has_created,
            has_updated,
            has_methods,
            has_authentication,
            has_assertion_method,
            has_key_agreement,
            has_capability_invocation,
            has_capability_delegation,
            has_service,
            extra,
        };
        assert(r@ == decode_document(v@)->Ok_0);
        proof {
            lemma_methods_wf(&r.verification_method);
            lemma_entries_wf(&r.authentication);
            lemma_entries_wf(&r.assertion_method);
            lemma_entries_wf(&r.key_agreement);
            lemma_entries_wf(&r.capability_invocation);
            lemma_entries_wf(&r.capability_delegation);
        }
        Ok(r)
    }

    /// Writes the document as a JSON object.
    pub fn encode(&self) -> (r: JsonValue)
        ensures
            r@ == encode_document(self@),
    {
        let mut out: Vec<Member> = Vec::new();
        out.push(Member { key: "@context".to_owned(), value: self.context.encode() });
        out.push(Member { key: "id".to_owned(), value: JsonValue::Str(self.id.as_str().to_owned()) });
        let ghost head = members_view(out@);
        assert(head =~= seq![("@context"@, encode_context(self@.context)), ("id"@, Json::Str(self@.id))]);
        push_text(&mut out, "created", &self.created, self.has_created);
        push_text(&mut out, "updated", &self.updated, self.has_updated);
        push_list(
            &mut out,
            "verificationMethod",
            encode_methods(&self.verification_method),
            self.has_methods,
        );
        push_list(
            &mut out,
            "authentication",
            encode_entries(&self.authentication),
            self.has_authentication,
        );
        push_list(
            &mut out,
            "assertionMethod",
            encode_entries(&self.assertion_method),
            self.has_assertion_method,
        );
        push_list(
            &mut out,
            "keyAgreement",
            encode_entries(&self.key_agreement),
            self.has_key_agreement,
        );
        push_list(
            &mut out,
            "capabilityInvocation",
            encode_entries(&self.capability_invocation),
            self.has_capability_invocation,
        );
        push_list(
            &mut out,
            "capabilityDelegation",
            encode_entries(&self.capability_delegation),
            self.has_capability_delegation,
        );
        push_list(
            &mut out,
            "service",
            copy_items(&self.service),
            self.has_service,
        );
        append_entries(&mut out, &self.extra);
        proof {
            lemma_object_view(out);
        }
        JsonValue::Object(out)
    }

    /// The context declarations, in order.
    pub fn context(&self) -> (r: &Vec<String>)
        ensures
            crate::context::texts(r@) == self@.context,
    {
        self.context.as_vec()
    }

    /// The document's own identifier.
    pub fn subject(&self) -> (r: &Subject)
        ensures
            r@ == self@.id,
    {
        &self.id
    }

    /// The creation time; empty when absent or given as empty.
    pub fn created(&self) -> (r: &String)
        ensures
            r@ == self@.created,
    {
        &self.created
    }

    /// The update time; empty when absent or given as empty.
    pub fn updated(&self) -> (r: &String)
        ensures
            r@ == self@.updated,
    {
        &self.updated
    }

    /// The verification methods.
    pub fn verification_method(&self) -> (r: &Vec<VerificationMethod>)
        ensures
            methods_view(r@) == self@.methods,
    {
        &self.verification_method
    }

    /// The `authentication` role list.
    pub fn authentication(&self) -> (r: &Vec<KeySetEntry>)
        ensures
            entries_view(r@) == self@.authentication,
    {
        &self.authentication
    }

    /// The `assertionMethod` role list.
    pub fn assertion_method(&self) -> (r: &Vec<KeySetEntry>)
        ensures
            entries_view(r@) == self@.assertion_method,
    {
        &self.assertion_method
    }

    /// The `keyAgreement` role list.
    pub fn key_agreement(&self) -> (r: &Vec<KeySetEntry>)
        ensures
            entries_view(r@) == self@.key_agreement,
    {
        &self.key_agreement
    }

    /// The `capabilityInvocation` role list.
    pub fn capability_invocation(&self) -> (r: &Vec<KeySetEntry>)
        ensures
            entries_view(r@) == self@.capability_invocation,
    {
        &self.capability_invocation
    }

    /// The `capabilityDelegation` role list.
    pub fn capability_delegation(&self) -> (r: &Vec<KeySetEntry>)
        ensures
            entries_view(r@) == self@.capability_delegation,
    {
        &self.capability_delegation
    }

    /// The service endpoints, as they were read.
    pub fn service(&self) -> (r: &Vec<JsonValue>)
        ensures
            items_view(r@) == self@.service,
    {
        &self.service
    }

    /// The unrecognized top-level members, in the order they were read.
    pub fn extra(&self) -> (r: &IndexMap<String, JsonValue>)
        ensures
            extension_entries(*r) == self@.extra,
    {
        &self.extra
    }
}

} // verus!
