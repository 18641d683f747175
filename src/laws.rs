use crate::context::{decode_context, encode_context};
use crate::error::{DecodeError, Entity, Field};
use crate::json::{
    find_from, has_key, lemma_find_from_absent, lemma_find_from_first, lookup,
    string_field, Json,
};
use crate::extension::names_unique;
use crate::names::{
    lemma_insert_keeps, all_unknown, is_key_name, is_known, is_vm_name, lemma_unrecognized_suffix, unrecognized,
    unrecognized_upto,
};
use crate::verification_method::{
    decode_key, decode_method, key_fields, key_members, key_name, method_members, method_wf,
    present_upto, KeyField, MethodView,
};
use crate::doc::{
    context_field, decode_document, decode_entries_upto, decode_methods_upto, doc_wf,
    document_members, encode_document, entries_json, entries_wf, entry_list, id_field,
    list_member, method_list, methods_json, optional_text, service_list, text_member, DocView,
};
use crate::key_set_entry::{decode_entry, encode_entry, entry_wf, EntryView};
use vstd::prelude::*;

verus! {

proof fn lemma_key_names()
    ensures
        forall|f: KeyField| #[trigger] is_key_name(key_name(f)) && is_vm_name(key_name(f)),
        forall|f: KeyField| key_name(f) != "id"@ && key_name(f) != "type"@ && #[trigger] key_name(f)
            != "controller"@,
        forall|f: KeyField, g: KeyField| f != g ==> #[trigger] key_name(f) != #[trigger] key_name(g),
        "id"@ != "type"@,
        "id"@ != "controller"@,
        "type"@ != "controller"@,
{
    reveal_strlit("id");
    reveal_strlit("type");
    reveal_strlit("controller");
    reveal_strlit("publicKeyPem");
    reveal_strlit("publicKeyHex");
    reveal_strlit("publicKeyBase64");
    reveal_strlit("publicKeyBase58");
    reveal_strlit("publicKeyMultibase");
    reveal_strlit("ethereumAddress");
    assert("id"@.len() == 2 && "type"@.len() == 4 && "controller"@.len() == 10);
    assert forall|f: KeyField|
        key_name(f) != "id"@ && key_name(f) != "type"@ && #[trigger] key_name(f)
            != "controller"@ by {
        assert(key_name(f).len() >= 12);
    }
    assert forall|f: KeyField, g: KeyField| f != g implies #[trigger] key_name(f) != #[trigger] key_name(
        g,
    ) by {
        let a = key_name(f);
        let b = key_name(g);
        if a.len() == b.len() {
            assert(a[0] != b[0] || a[9] != b[9] || a[13] != b[13]);
        }
    }
}

/// The members that come before the extension in an encoded method.
spec fn method_head(v: MethodView) -> Seq<(Seq<char>, Json)> {
    seq![("id"@, Json::Str(v.id)), ("type"@, Json::Str(v.tag)), ("controller"@, Json::Str(v.controller))]
        + key_members(v.key)
}

proof fn lemma_method_has_key(v: MethodView, g: KeyField)
    requires
        method_wf(v),
    ensures
        has_key(method_members(v), key_name(g)) <==> (v.key is Some && v.key->Some_0.0 == g),
{
    lemma_key_names();
    let head = method_head(v);
    let mm = method_members(v);
    assert(mm == head + v.extra);
    if v.key is Some && v.key->Some_0.0 == g {
        assert(mm[3].0 == key_name(g));
    } else {
        assert forall|i: int| 0 <= i < mm.len() implies mm[i].0 != key_name(g) by {
            if i >= head.len() {
                assert(mm[i] == v.extra[i - head.len()]);
                assert(!is_known(v.extra[i - head.len()].0, false));
            }
        }
    }
}

/// Decoding the members that encode a well-formed method gives that method back.
pub proof fn lemma_method_round_trip(v: MethodView, at: Entity)
    requires
        method_wf(v),
    ensures
        decode_method(method_members(v), at) == Ok::<MethodView, DecodeError>(v),
{
    lemma_key_names();
    let head = method_head(v);
    let mm = method_members(v);
    assert(mm == head + v.extra);
    lemma_find_from_first(mm, "id"@, 0, 0);
    lemma_find_from_first(mm, "type"@, 0, 1);
    lemma_find_from_first(mm, "controller"@, 0, 2);
    assert(string_field(mm, "id"@, at, Field::Id) == Ok::<Seq<char>, DecodeError>(v.id));
    assert(string_field(mm, "type"@, at, Field::Type) == Ok::<Seq<char>, DecodeError>(v.tag));
    assert(string_field(mm, "controller"@, at, Field::Controller) == Ok::<Seq<char>, DecodeError>(
        v.controller,
    ));
    assert forall|g: KeyField| #[trigger] has_key(mm, key_name(g)) <==> (v.key is Some
        && v.key->Some_0.0 == g) by {
        lemma_method_has_key(v, g);
    }
    reveal_with_fuel(present_upto, 7);
    let p = present_upto(mm, 6);
    if v.key is Some {
        let f = v.key->Some_0.0;
        assert(p =~= seq![f]);
        lemma_find_from_first(mm, key_name(f), 0, 3);
    } else {
        assert(p =~= Seq::<KeyField>::empty());
    }
    assert(decode_key(mm, at) == Ok::<Option<(KeyField, Seq<char>)>, DecodeError>(v.key));
    assert forall|i: int| 0 <= i < head.len() implies is_known(#[trigger] head[i].0, false) by {}
    lemma_unrecognized_suffix(head, v.extra, false);
}

proof fn lemma_find_shift(a: Seq<(Seq<char>, Json)>, b: Seq<(Seq<char>, Json)>, k: Seq<char>, t: int)
    requires
        0 <= t <= b.len(),
    ensures
        find_from(a + b, k, a.len() + t) == match find_from(b, k, t) {
            Some(j) => Some(j + a.len()),
            None => None,
        },
    decreases b.len() - t,
{
    if t < b.len() {
        assert((a + b)[a.len() + t] == b[t]);
        lemma_find_shift(a, b, k, t + 1);
    }
}

proof fn lemma_find_concat(a: Seq<(Seq<char>, Json)>, b: Seq<(Seq<char>, Json)>, k: Seq<char>, i: int)
    requires
        0 <= i <= a.len(),
    ensures
        find_from(a + b, k, i) == match find_from(a, k, i) {
            Some(j) => Some(j),
            None => match find_from(b, k, 0) {
                Some(j) => Some(j + a.len()),
                None => None,
            },
        },
    decreases a.len() - i,
{
    if i < a.len() {
        assert((a + b)[i] == a[i]);
        lemma_find_concat(a, b, k, i + 1);
    } else {
        lemma_find_shift(a, b, k, 0);
    }
}

proof fn lemma_find_in_range(m: Seq<(Seq<char>, Json)>, k: Seq<char>, i: int)
    requires
        0 <= i,
    ensures
        find_from(m, k, i) matches Some(j) ==> i <= j < m.len() && m[j].0 == k,
    decreases m.len() - i,
{
    if i < m.len() {
        lemma_find_in_range(m, k, i + 1);
    }
}

/// Looking a name up in two member lists joined: the first list wins.
proof fn lemma_lookup_concat(a: Seq<(Seq<char>, Json)>, b: Seq<(Seq<char>, Json)>)
    ensures
        forall|k: Seq<char>| #[trigger] lookup(a + b, k) == if lookup(a, k) is Some {
            lookup(a, k)
        } else {
            lookup(b, k)
        },
{
    assert forall|k: Seq<char>| #[trigger] lookup(a + b, k) == if lookup(a, k) is Some {
        lookup(a, k)
    } else {
        lookup(b, k)
    } by {
        lemma_find_concat(a, b, k, 0);
        lemma_find_in_range(a, k, 0);
        lemma_find_in_range(b, k, 0);
        if let Some(j) = find_from(a, k, 0) {
            assert((a + b)[j] == a[j]);
        } else if let Some(j) = find_from(b, k, 0) {
            assert((a + b)[j + a.len()] == b[j]);
        }
    }
}

proof fn lemma_lookup_small(n: Seq<char>, v: Json)
    ensures
        forall|k: Seq<char>| #[trigger] lookup(seq![(n, v)], k) == if k == n {
            Some(v)
        } else {
            None::<Json>
        },
        forall|k: Seq<char>| #[trigger] lookup(Seq::<(Seq<char>, Json)>::empty(), k) is None,
{
    assert forall|k: Seq<char>| #[trigger] lookup(seq![(n, v)], k) == if k == n {
        Some(v)
    } else {
        None::<Json>
    } by {
        lemma_find_in_range(seq![(n, v)], k, 0);
        lemma_find_in_range(seq![(n, v)], k, 1);
    }
    assert forall|k: Seq<char>| #[trigger] lookup(Seq::<(Seq<char>, Json)>::empty(), k) is None by {}
}

/// A context survives being written and read back.
pub proof fn lemma_context_round_trip(c: Seq<Seq<char>>)
    requires
        c.len() > 0,
    ensures
        decode_context(encode_context(c)) == Ok::<Seq<Seq<char>>, DecodeError>(c),
{
    if c.len() == 1 {
        assert(seq![c[0]] =~= c);
    } else {
        let a = encode_context(c)->Arr_0;
        assert(forall|i: int| 0 <= i < a.len() ==> (#[trigger] a[i]) is Str);
        assert(Seq::new(a.len(), |i: int| a[i]->Str_0) =~= c);
    }
}

/// A context written as one string and the same context written as a list of
/// that one string decode alike.
pub proof fn lemma_context_forms(s: Seq<char>)
    ensures
        decode_context(Json::Str(s)) == decode_context(Json::Arr(seq![Json::Str(s)])),
{
    let a = seq![Json::Str(s)];
    assert(forall|i: int| 0 <= i < a.len() ==> (#[trigger] a[i]) is Str);
    assert(Seq::new(a.len(), |i: int| a[i]->Str_0) =~= seq![s]);
}

/// A role-list element survives being written and read back.
pub proof fn lemma_entry_round_trip(e: EntryView, f: Field, i: usize)
    requires
        entry_wf(e),
    ensures
        decode_entry(encode_entry(e), f, i) == Ok::<EntryView, DecodeError>(e),
{
    if let EntryView::Method(v) = e {
        lemma_method_round_trip(v, Entity::RoleEntry(f, i));
    }
}

proof fn lemma_entries_round_trip(s: Seq<EntryView>, f: Field, n: int)
    requires
        entries_wf(s),
        0 <= n <= s.len(),
    ensures
        decode_entries_upto(entries_json(s), f, n) == Ok::<Seq<EntryView>, DecodeError>(
            s.take(n),
        ),
    decreases n,
{
    if n > 0 {
        lemma_entries_round_trip(s, f, n - 1);
        lemma_entry_round_trip(s[n - 1], f, (n - 1) as usize);
        assert(s.take(n) =~= s.take(n - 1).push(s[n - 1]));
    } else {
        assert(s.take(0) =~= Seq::<EntryView>::empty());
    }
}

proof fn lemma_methods_round_trip(s: Seq<MethodView>, n: int)
    requires
        forall|i: int| 0 <= i < s.len() ==> method_wf(#[trigger] s[i]),
        0 <= n <= s.len(),
    ensures
        decode_methods_upto(methods_json(s), n) == Ok::<Seq<MethodView>, DecodeError>(s.take(n)),
    decreases n,
{
    if n > 0 {
        lemma_methods_round_trip(s, n - 1);
        lemma_method_round_trip(s[n - 1], Entity::Method((n - 1) as usize));
        assert(s.take(n) =~= s.take(n - 1).push(s[n - 1]));
    } else {
        assert(s.take(0) =~= Seq::<MethodView>::empty());
    }
}

proof fn lemma_doc_names()
    ensures
        "@context"@ != "id"@,
        "@context"@ != "created"@,
        "@context"@ != "updated"@,
        "@context"@ != "verificationMethod"@,
        "@context"@ != "authentication"@,
        "@context"@ != "assertionMethod"@,
        "@context"@ != "keyAgreement"@,
        "@context"@ != "capabilityInvocation"@,
        "@context"@ != "capabilityDelegation"@,
        "@context"@ != "service"@,
        "id"@ != "created"@,
        "id"@ != "updated"@,
        "id"@ != "verificationMethod"@,
        "id"@ != "authentication"@,
        "id"@ != "assertionMethod"@,
        "id"@ != "keyAgreement"@,
        "id"@ != "capabilityInvocation"@,
        "id"@ != "capabilityDelegation"@,
        "id"@ != "service"@,
        "created"@ != "updated"@,
        "created"@ != "verificationMethod"@,
        "created"@ != "authentication"@,
        "created"@ != "assertionMethod"@,
        "created"@ != "keyAgreement"@,
        "created"@ != "capabilityInvocation"@,
        "created"@ != "capabilityDelegation"@,
        "created"@ != "service"@,
        "updated"@ != "verificationMethod"@,
        "updated"@ != "authentication"@,
        "updated"@ != "assertionMethod"@,
        "updated"@ != "keyAgreement"@,
        "updated"@ != "capabilityInvocation"@,
        "updated"@ != "capabilityDelegation"@,
        "updated"@ != "service"@,
        "verificationMethod"@ != "authentication"@,
        "verificationMethod"@ != "assertionMethod"@,
        "verificationMethod"@ != "keyAgreement"@,
        "verificationMethod"@ != "capabilityInvocation"@,
        "verificationMethod"@ != "capabilityDelegation"@,
        "verificationMethod"@ != "service"@,
        "authentication"@ != "assertionMethod"@,
        "authentication"@ != "keyAgreement"@,
        "authentication"@ != "capabilityInvocation"@,
        "authentication"@ != "capabilityDelegation"@,
        "authentication"@ != "service"@,
        "assertionMethod"@ != "keyAgreement"@,
        "assertionMethod"@ != "capabilityInvocation"@,
        "assertionMethod"@ != "capabilityDelegation"@,
        "assertionMethod"@ != "service"@,
        "keyAgreement"@ != "capabilityInvocation"@,
        "keyAgreement"@ != "capabilityDelegation"@,
        "keyAgreement"@ != "service"@,
        "capabilityInvocation"@ != "capabilityDelegation"@,
        "capabilityInvocation"@ != "service"@,
        "capabilityDelegation"@ != "service"@,
{
    reveal_strlit("@context");
    reveal_strlit("id");
    reveal_strlit("created");
    reveal_strlit("updated");
    reveal_strlit("verificationMethod");
    reveal_strlit("authentication");
    reveal_strlit("assertionMethod");
    reveal_strlit("keyAgreement");
    reveal_strlit("capabilityInvocation");
    reveal_strlit("capabilityDelegation");
    reveal_strlit("service");
    assert("@context"@.len() == 8);
    assert("id"@.len() == 2);
    assert("created"@.len() == 7);
    assert("updated"@.len() == 7);
    assert("verificationMethod"@.len() == 18);
    assert("authentication"@.len() == 14);
    assert("assertionMethod"@.len() == 15);
    assert("keyAgreement"@.len() == 12);
    assert("capabilityInvocation"@.len() == 20);
    assert("capabilityDelegation"@.len() == 20);
    assert("service"@.len() == 7);
    assert("created"@[0] != "updated"@[0]);
    assert("created"@[0] != "service"@[0]);
    assert("updated"@[0] != "service"@[0]);
    assert("capabilityInvocation"@[10] != "capabilityDelegation"@[10]);
}

spec fn all_known(m: Seq<(Seq<char>, Json)>, top: bool) -> bool {
    forall|i: int| 0 <= i < m.len() ==> is_known(#[trigger] m[i].0, top)
}

proof fn lemma_known_concat(a: Seq<(Seq<char>, Json)>, b: Seq<(Seq<char>, Json)>, top: bool)
    requires
        all_known(a, top),
        all_known(b, top),
    ensures
        all_known(a + b, top),
{
    assert forall|i: int| 0 <= i < (a + b).len() implies is_known(#[trigger] (a + b)[i].0, top) by {
        if i >= a.len() {
            assert((a + b)[i] == b[i - a.len()]);
        } else {
            assert((a + b)[i] == a[i]);
        }
    }
}

/// Decoding an encoded well-formed document gives that document back.
#[verifier::rlimit(60)]
pub proof fn lemma_document_round_trip(d: DocView)
    requires
        doc_wf(d),
    ensures
        decode_document(encode_document(d)) == Ok::<DocView, DecodeError>(d),
{
    lemma_doc_names();
    let ctx = encode_context(d.context);
    let pre0 = seq![("@context"@, ctx)];
    let part1 = seq![("id"@, Json::Str(d.id))];
    let pre1 = seq![("@context"@, ctx), ("id"@, Json::Str(d.id))];
    assert(pre1 =~= pre0 + part1);
    let part2 = text_member("created"@, d.created, d.has_created);
    let part3 = text_member("updated"@, d.updated, d.has_updated);
    let part4 = list_member("verificationMethod"@, methods_json(d.methods), d.has_methods);
    let part5 = list_member("authentication"@, entries_json(d.authentication), d.has_authentication);
    let part6 = list_member("assertionMethod"@, entries_json(d.assertion_method), d.has_assertion_method);
    let part7 = list_member("keyAgreement"@, entries_json(d.key_agreement), d.has_key_agreement);
    let part8 = list_member("capabilityInvocation"@, entries_json(d.capability_invocation), d.has_capability_invocation);
    let part9 = list_member("capabilityDelegation"@, entries_json(d.capability_delegation), d.has_capability_delegation);
    let part10 = list_member("service"@, d.service, d.has_service);
    let pre2 = pre1 + part2;
    let pre3 = pre2 + part3;
    let pre4 = pre3 + part4;
    let pre5 = pre4 + part5;
    let pre6 = pre5 + part6;
    let pre7 = pre6 + part7;
    let pre8 = pre7 + part8;
    let pre9 = pre8 + part9;
    let pre10 = pre9 + part10;
    let dm = document_members(d);
    assert(dm == pre10 + d.extra);
    lemma_lookup_concat(pre0, part1);
    lemma_lookup_concat(pre1, part2);
    lemma_lookup_concat(pre2, part3);
    lemma_lookup_concat(pre3, part4);
    lemma_lookup_concat(pre4, part5);
    lemma_lookup_concat(pre5, part6);
    lemma_lookup_concat(pre6, part7);
    lemma_lookup_concat(pre7, part8);
    lemma_lookup_concat(pre8, part9);
    lemma_lookup_concat(pre9, part10);
    lemma_lookup_concat(pre10, d.extra);
    lemma_lookup_small("@context"@, ctx);
    lemma_lookup_small("id"@, Json::Str(d.id));
    lemma_lookup_small("created"@, Json::Str(d.created));
    lemma_lookup_small("updated"@, Json::Str(d.updated));
    lemma_lookup_small("verificationMethod"@, Json::Arr(methods_json(d.methods)));
    lemma_lookup_small("authentication"@, Json::Arr(entries_json(d.authentication)));
    lemma_lookup_small("assertionMethod"@, Json::Arr(entries_json(d.assertion_method)));
    lemma_lookup_small("keyAgreement"@, Json::Arr(entries_json(d.key_agreement)));
    lemma_lookup_small("capabilityInvocation"@, Json::Arr(entries_json(d.capability_invocation)));
    lemma_lookup_small("capabilityDelegation"@, Json::Arr(entries_json(d.capability_delegation)));
    lemma_lookup_small("service"@, Json::Arr(d.service));
    assert forall|k: Seq<char>| is_known(k, true) implies #[trigger] lookup(d.extra, k) is None by {
        lemma_find_from_absent(d.extra, k, 0);
    }
    assert(is_known("@context"@, true) && is_known("id"@, true) && is_known("created"@, true)
        && is_known("updated"@, true) && is_known("verificationMethod"@, true) && is_known(
        "authentication"@,
        true,
    ) && is_known("assertionMethod"@, true) && is_known("keyAgreement"@, true) && is_known(
        "capabilityInvocation"@,
        true,
    ) && is_known("capabilityDelegation"@, true) && is_known("service"@, true));

    lemma_context_round_trip(d.context);
    assert(context_field(dm) == Ok::<Seq<Seq<char>>, DecodeError>(d.context));
    assert(id_field(dm) == Ok::<Seq<char>, DecodeError>(d.id));
    if d.created.len() == 0 {
        assert(d.created =~= Seq::<char>::empty());
    }
    assert(optional_text(dm, "created"@, Field::Created) == Ok::<Seq<char>, DecodeError>(d.created));
    if d.updated.len() == 0 {
        assert(d.updated =~= Seq::<char>::empty());
    }
    assert(optional_text(dm, "updated"@, Field::Updated) == Ok::<Seq<char>, DecodeError>(d.updated));
    lemma_methods_round_trip(d.methods, d.methods.len() as int);
    assert(d.methods.take(d.methods.len() as int) =~= d.methods);
    if d.methods.len() == 0 {
        assert(d.methods =~= Seq::<MethodView>::empty());
    }
    assert(method_list(dm) == Ok::<Seq<MethodView>, DecodeError>(d.methods));
    lemma_entry_list_round_trip(dm, "authentication"@, Field::Authentication, d.authentication, d.has_authentication);
    lemma_entry_list_round_trip(dm, "assertionMethod"@, Field::AssertionMethod, d.assertion_method, d.has_assertion_method);
    lemma_entry_list_round_trip(dm, "keyAgreement"@, Field::KeyAgreement, d.key_agreement, d.has_key_agreement);
    lemma_entry_list_round_trip(dm, "capabilityInvocation"@, Field::CapabilityInvocation, d.capability_invocation, d.has_capability_invocation);
    lemma_entry_list_round_trip(dm, "capabilityDelegation"@, Field::CapabilityDelegation, d.capability_delegation, d.has_capability_delegation);
    if d.service.len() == 0 {
        assert(d.service =~= Seq::<Json>::empty());
    }
    assert(service_list(dm) == Ok::<Seq<Json>, DecodeError>(d.service));

    assert(all_known(pre0, true));
    assert(all_known(part1, true));
    assert(all_known(part2, true));
    assert(all_known(part3, true));
    assert(all_known(part4, true));
    assert(all_known(part5, true));
    assert(all_known(part6, true));
    assert(all_known(part7, true));
    assert(all_known(part8, true));
    assert(all_known(part9, true));
    assert(all_known(part10, true));
    lemma_known_concat(pre0, part1, true);
    lemma_known_concat(pre1, part2, true);
    lemma_known_concat(pre2, part3, true);
    lemma_known_concat(pre3, part4, true);
    lemma_known_concat(pre4, part5, true);
    lemma_known_concat(pre5, part6, true);
    lemma_known_concat(pre6, part7, true);
    lemma_known_concat(pre7, part8, true);
    lemma_known_concat(pre8, part9, true);
    lemma_known_concat(pre9, part10, true);
    lemma_unrecognized_suffix(pre10, d.extra, true);
}

proof fn lemma_entry_list_round_trip(
    m: Seq<(Seq<char>, Json)>,
    name: Seq<char>,
    f: Field,
    s: Seq<EntryView>,
    present: bool,
)
    requires
        entries_wf(s),
        !present ==> s.len() == 0,
        lookup(m, name) == (if present {
            Some(Json::Arr(entries_json(s)))
        } else {
            None
        }),
    ensures
        entry_list(m, name, f) == Ok::<Seq<EntryView>, DecodeError>(s),
{
    lemma_entries_round_trip(s, f, s.len() as int);
    assert(s.take(s.len() as int) =~= s);
    if s.len() == 0 {
        assert(s =~= Seq::<EntryView>::empty());
    }
}

proof fn lemma_unrecognized_unknown(m: Seq<(Seq<char>, Json)>, top: bool, n: int)
    ensures
        all_unknown(unrecognized_upto(m, top, n), top),
        names_unique(unrecognized_upto(m, top, n)),
    decreases n,
{
    if n > 0 {
        lemma_unrecognized_unknown(m, top, n - 1);
        lemma_insert_keeps(unrecognized_upto(m, top, n - 1), m[n - 1], top);
    }
}

proof fn lemma_decoded_method_wf(m: Seq<(Seq<char>, Json)>, at: Entity)
    requires
        decode_method(m, at) is Ok,
    ensures
        method_wf(decode_method(m, at)->Ok_0),
{
    lemma_unrecognized_unknown(m, false, m.len() as int);
}

proof fn lemma_decoded_methods_wf(a: Seq<Json>, n: int)
    requires
        decode_methods_upto(a, n) is Ok,
    ensures
        forall|i: int|
            0 <= i < decode_methods_upto(a, n)->Ok_0.len() ==> method_wf(
                #[trigger] decode_methods_upto(a, n)->Ok_0[i],
            ),
    decreases n,
{
    if n > 0 {
        lemma_decoded_methods_wf(a, n - 1);
        lemma_decoded_method_wf(a[n - 1]->Obj_0, Entity::Method((n - 1) as usize));
    }
}

proof fn lemma_decoded_entries_wf(a: Seq<Json>, f: Field, n: int)
    requires
        decode_entries_upto(a, f, n) is Ok,
    ensures
        entries_wf(decode_entries_upto(a, f, n)->Ok_0),
    decreases n,
{
    if n > 0 {
        lemma_decoded_entries_wf(a, f, n - 1);
        if a[n - 1] is Obj {
            lemma_decoded_method_wf(a[n - 1]->Obj_0, Entity::RoleEntry(f, (n - 1) as usize));
        }
        let p = decode_entries_upto(a, f, n - 1)->Ok_0;
        let x = decode_entry(a[n - 1], f, (n - 1) as usize)->Ok_0;
        assert forall|i: int| 0 <= i < p.push(x).len() implies entry_wf(#[trigger] p.push(x)[i]) by {
            if i < p.len() {
                assert(p.push(x)[i] == p[i]);
            }
        }
    }
}

proof fn lemma_entry_list_wf(m: Seq<(Seq<char>, Json)>, name: Seq<char>, f: Field)
    requires
        entry_list(m, name, f) is Ok,
    ensures
        entries_wf(entry_list(m, name, f)->Ok_0),
{
    if let Some(Json::Arr(a)) = lookup(m, name) {
        lemma_decoded_entries_wf(a, f, a.len() as int);
    }
}

/// What decoding yields is a well-formed document.
pub proof fn lemma_decoded_document_wf(x: Json)
    requires
        decode_document(x) is Ok,
    ensures
        doc_wf(decode_document(x)->Ok_0),
{
    let m = x->Obj_0;
    if let Some(Json::Arr(a)) = lookup(m, "verificationMethod"@) {
        lemma_decoded_methods_wf(a, a.len() as int);
    }
    lemma_entry_list_wf(m, "authentication"@, Field::Authentication);
    lemma_entry_list_wf(m, "assertionMethod"@, Field::AssertionMethod);
    lemma_entry_list_wf(m, "keyAgreement"@, Field::KeyAgreement);
    lemma_entry_list_wf(m, "capabilityInvocation"@, Field::CapabilityInvocation);
    lemma_entry_list_wf(m, "capabilityDelegation"@, Field::CapabilityDelegation);
    lemma_unrecognized_unknown(m, true, m.len() as int);
}

/// Idempotence: decoding what was encoded from a decoded document gives the
/// same document as the first decoding.
pub proof fn lemma_decode_idempotent(x: Json)
    requires
        decode_document(x) is Ok,
    ensures
        decode_document(encode_document(decode_document(x)->Ok_0)) == decode_document(x),
{
    lemma_decoded_document_wf(x);
    lemma_document_round_trip(decode_document(x)->Ok_0);
}

/// Extension preservation for documents: the unrecognized top-level members of
/// a valid document are written back last, with the same values and in the
/// same relative order, and read back as the same extension.
pub proof fn lemma_document_extension_preserved(x: Json)
    requires
        decode_document(x) is Ok,
    ensures
        ({
            let out = document_members(decode_document(x)->Ok_0);
            let u = unrecognized(x->Obj_0, true);
            &&& u.len() <= out.len()
            &&& out.subrange(out.len() - u.len(), out.len() as int) == u
            &&& decode_document(Json::Obj(out))->Ok_0.extra == u
        }),
{
    let d = decode_document(x)->Ok_0;
    let out = document_members(d);
    let u = unrecognized(x->Obj_0, true);
    assert(out.subrange(out.len() - u.len(), out.len() as int) =~= u);
    lemma_decode_idempotent(x);
}

/// Extension preservation for verification methods: the unrecognized members
/// of a valid method object are written back last, with the same values and in
/// the same relative order, and read back as the same extension.
pub proof fn lemma_method_extension_preserved(m: Seq<(Seq<char>, Json)>, at: Entity)
    requires
        decode_method(m, at) is Ok,
    ensures
        ({
            let out = method_members(decode_method(m, at)->Ok_0);
            let u = unrecognized(m, false);
            &&& u.len() <= out.len()
            &&& out.subrange(out.len() - u.len(), out.len() as int) == u
            &&& decode_method(out, at)->Ok_0.extra == u
        }),
{
    let v = decode_method(m, at)->Ok_0;
    let out = method_members(v);
    let u = unrecognized(m, false);
    assert(out.subrange(out.len() - u.len(), out.len() as int) =~= u);
    lemma_decoded_method_wf(m, at);
    lemma_method_round_trip(v, at);
}

/// A `@context` value written as a list of one string, rewritten as that string.
pub open spec fn canonical_context(v: Json) -> Json {
    match v {
        Json::Arr(a) => if a.len() == 1 && a[0] is Str {
            a[0]
        } else {
            v
        },
        _ => v,
    }
}

/// The canonical form of a document object: each `@context` member written as
/// a list of one string holds that string instead; nothing else changes.
pub open spec fn canonicalize(x: Json) -> Json {
    match x {
        Json::Obj(m) => Json::Obj(
            Seq::new(
                m.len(),
                |i: int|
                    if m[i].0 == "@context"@ {
                        (m[i].0, canonical_context(m[i].1))
                    } else {
                        m[i]
                    },
            ),
        ),
        _ => x,
    }
}

proof fn lemma_canonical_context(v: Json)
    ensures
        decode_context(canonical_context(v)) == decode_context(v),
{
    if let Json::Arr(a) = v {
        if a.len() == 1 && a[0] is Str {
            assert(a =~= seq![a[0]]);
            lemma_context_forms(a[0]->Str_0);
        }
    }
}

proof fn lemma_find_same_keys(
    m1: Seq<(Seq<char>, Json)>,
    m2: Seq<(Seq<char>, Json)>,
    k: Seq<char>,
    i: int,
)
    requires
        m1.len() == m2.len(),
        forall|j: int| 0 <= j < m1.len() ==> (#[trigger] m1[j]).0 == m2[j].0,
    ensures
        find_from(m1, k, i) == find_from(m2, k, i),
    decreases m1.len() - i,
{
    if 0 <= i < m1.len() {
        lemma_find_same_keys(m1, m2, k, i + 1);
    }
}

proof fn lemma_unrecognized_same(
    m1: Seq<(Seq<char>, Json)>,
    m2: Seq<(Seq<char>, Json)>,
    n: int,
)
    requires
        m1.len() == m2.len(),
        n <= m1.len(),
        forall|j: int| 0 <= j < m1.len() ==> (#[trigger] m1[j]).0 == m2[j].0,
        forall|j: int| 0 <= j < m1.len() && !is_known(m1[j].0, true) ==> (#[trigger] m1[j]) == m2[j],
    ensures
        unrecognized_upto(m1, true, n) == unrecognized_upto(m2, true, n),
    decreases n,
{
    if n > 0 {
        lemma_unrecognized_same(m1, m2, n - 1);
    }
}

/// Round trip: for a document whose canonical form is already written in the
/// order and shape that encoding produces, decoding succeeds and encoding the
/// result gives exactly that canonical form.
pub proof fn lemma_round_trip_canonical(x: Json, d: DocView)
    requires
        doc_wf(d),
        canonicalize(x) == encode_document(d),
    ensures
        decode_document(x) == Ok::<DocView, DecodeError>(d),
        encode_document(decode_document(x)->Ok_0) == canonicalize(x),
{
    lemma_document_round_trip(d);
    let dm = document_members(d);
    let m = x->Obj_0;
    assert(x is Obj);
    let cm = canonicalize(x)->Obj_0;
    assert(cm == dm);
    assert(m.len() == dm.len());
    assert forall|j: int| 0 <= j < m.len() implies (#[trigger] m[j]).0 == dm[j].0 by {
        assert(cm[j].0 == m[j].0);
    }
    assert forall|j: int| 0 <= j < m.len() && m[j].0 != "@context"@ implies (#[trigger] m[j]) == dm[j] by {
        assert(cm[j] == m[j]);
    }
    assert forall|k: Seq<char>| #[trigger] find_from(m, k, 0) == find_from(dm, k, 0) by {
        lemma_find_same_keys(m, dm, k, 0);
    }
    assert forall|k: Seq<char>| k != "@context"@ implies #[trigger] lookup(m, k) == lookup(dm, k) by {
        lemma_find_in_range(m, k, 0);
    }
    lemma_find_in_range(m, "@context"@, 0);
    if let Some(j) = find_from(m, "@context"@, 0) {
        assert(cm[j].1 == canonical_context(m[j].1));
        lemma_canonical_context(m[j].1);
    }
    assert(context_field(m) == context_field(dm));
    lemma_doc_names();
    assert(is_known("@context"@, true));
    lemma_unrecognized_same(m, dm, m.len() as int);
    assert(id_field(m) == id_field(dm));
    assert(optional_text(m, "created"@, Field::Created) == optional_text(
        dm,
        "created"@,
        Field::Created,
    ));
    assert(optional_text(m, "updated"@, Field::Updated) == optional_text(
        dm,
        "updated"@,
        Field::Updated,
    ));
    assert(method_list(m) == method_list(dm));
    assert(entry_list(m, "authentication"@, Field::Authentication) == entry_list(
        dm,
        "authentication"@,
        Field::Authentication,
    ));
    assert(entry_list(m, "assertionMethod"@, Field::AssertionMethod) == entry_list(
        dm,
        "assertionMethod"@,
        Field::AssertionMethod,
    ));
    assert(entry_list(m, "keyAgreement"@, Field::KeyAgreement) == entry_list(
        dm,
        "keyAgreement"@,
        Field::KeyAgreement,
    ));
    assert(entry_list(m, "capabilityInvocation"@, Field::CapabilityInvocation) == entry_list(
        dm,
        "capabilityInvocation"@,
        Field::CapabilityInvocation,
    ));
    assert(entry_list(m, "capabilityDelegation"@, Field::CapabilityDelegation) == entry_list(
        dm,
        "capabilityDelegation"@,
        Field::CapabilityDelegation,
    ));
    assert(service_list(m) == service_list(dm));
    assert(unrecognized(m, true) == unrecognized(dm, true));
    assert(decode_document(x) == decode_document(Json::Obj(dm)));
}

proof fn lemma_present_grows(m: Seq<(Seq<char>, Json)>, n: int, k: int)
    requires
        0 <= k <= n,
    ensures
        present_upto(m, k).len() <= present_upto(m, n).len(),
    decreases n - k,
{
    if k < n {
        lemma_present_grows(m, n - 1, k);
    }
}

/// Exclusivity: a method object that carries two different key-material
/// fields is refused as conflicting, whatever the order of its members.
pub proof fn lemma_conflicting_key_fields(
    m: Seq<(Seq<char>, Json)>,
    at: Entity,
    f: KeyField,
    g: KeyField,
)
    requires
        f != g,
        has_key(m, key_name(f)),
        has_key(m, key_name(g)),
    ensures
        decode_key(m, at) == Err::<Option<(KeyField, Seq<char>)>, DecodeError>(
            DecodeError::ConflictingKeyEncoding(at),
        ),
{
    let i = index_of(f);
    let j = index_of(g);
    let (lo, hi) = if i < j {
        (i, j)
    } else {
        (j, i)
    };
    assert(has_key(m, key_name(key_fields()[lo])));
    assert(has_key(m, key_name(key_fields()[hi])));
    lemma_present_grows(m, hi, lo + 1);
    assert(present_upto(m, lo + 1).len() == present_upto(m, lo).len() + 1);
    assert(present_upto(m, hi + 1).len() == present_upto(m, hi).len() + 1);
    lemma_present_grows(m, 6, hi + 1);
    assert(present_upto(m, 6).len() >= 2);
}

spec fn index_of(f: KeyField) -> int {
    match f {
        KeyField::Pem => 0,
        KeyField::Hex => 1,
        KeyField::Base64 => 2,
        KeyField::Base58 => 3,
        KeyField::Multibase => 4,
        KeyField::EthereumAddress => 5,
    }
}

} // verus!
