use crate::extension::{
    extension_entries, has_name, insert_entry, map_insert, map_new, names_unique,
};
use crate::json::{copy_json, members_view, same_text, Json, JsonValue, Member};
use indexmap::IndexMap;
use vstd::prelude::*;

verus! {

/// The wire names of the key-material fields.
pub open spec fn is_key_name(k: Seq<char>) -> bool {
    k == "publicKeyPem"@ || k == "publicKeyHex"@ || k == "publicKeyBase64"@ || k
        == "publicKeyBase58"@ || k == "publicKeyMultibase"@ || k == "ethereumAddress"@
}

/// The wire names that a verification method object gives meaning to.
pub open spec fn is_vm_name(k: Seq<char>) -> bool {
    k == "id"@ || k == "type"@ || k == "controller"@ || is_key_name(k)
}

/// The wire names that a document object gives meaning to.
pub open spec fn is_doc_name(k: Seq<char>) -> bool {
    k == "@context"@ || k == "id"@ || k == "created"@ || k == "updated"@ || k
        == "verificationMethod"@ || k == "authentication"@ || k == "assertionMethod"@ || k
        == "keyAgreement"@ || k == "capabilityInvocation"@ || k == "capabilityDelegation"@ || k
        == "service"@
}

/// Whether `k` is recognized in a document object (`top`) or in a
/// verification method object (`!top`).
pub open spec fn is_known(k: Seq<char>, top: bool) -> bool {
    if top {
        is_doc_name(k)
    } else {
        is_vm_name(k)
    }
}

/// The extension built from the first `n` members of `m`: each member whose
/// name is not recognized is inserted in turn.
pub open spec fn unrecognized_upto(m: Seq<(Seq<char>, Json)>, top: bool, n: int) -> Seq<
    (Seq<char>, Json),
>
    decreases n,
{
    if n <= 0 {
        Seq::empty()
    } else {
        let p = unrecognized_upto(m, top, n - 1);
        if is_known(m[n - 1].0, top) {
            p
        } else {
            insert_entry(p, m[n - 1])
        }
    }
}

/// The extension of `m`: its members whose names are not recognized, in the
/// order they were read; a repeated name keeps its first place and its last value.
pub open spec fn unrecognized(m: Seq<(Seq<char>, Json)>, top: bool) -> Seq<(Seq<char>, Json)> {
    unrecognized_upto(m, top, m.len() as int)
}

/// Whether no member of `m` carries a recognized name.
pub open spec fn all_unknown(m: Seq<(Seq<char>, Json)>, top: bool) -> bool {
    forall|i: int| 0 <= i < m.len() ==> !is_known(#[trigger] m[i].0, top)
}

/// Whether `k` is one of the key-material field names.
pub fn key_name_test(k: &String) -> (r: bool)
    ensures
        r == is_key_name(k@),
{
    same_text(k, "publicKeyPem") || same_text(k, "publicKeyHex") || same_text(k, "publicKeyBase64")
        || same_text(k, "publicKeyBase58") || same_text(k, "publicKeyMultibase") || same_text(
        k,
        "ethereumAddress",
    )
}

/// Whether `k` is recognized in a document (`top`) or a verification method.
pub fn known_test(k: &String, top: bool) -> (r: bool)
    ensures
        r == is_known(k@, top),
{
    if top {
        same_text(k, "@context") || same_text(k, "id") || same_text(k, "created") || same_text(
            k,
            "updated",
        ) || same_text(k, "verificationMethod") || same_text(k, "authentication") || same_text(
            k,
            "assertionMethod",
        ) || same_text(k, "keyAgreement") || same_text(k, "capabilityInvocation") || same_text(
            k,
            "capabilityDelegation",
        ) || same_text(k, "service")
    } else {
        same_text(k, "id") || same_text(k, "type") || same_text(k, "controller") || key_name_test(k)
    }
}

/// Inserting keeps names unique, and keeps every name unrecognized when the
/// new one is.
pub proof fn lemma_insert_keeps(s: Seq<(Seq<char>, Json)>, e: (Seq<char>, Json), top: bool)
    requires
        names_unique(s),
    ensures
        names_unique(insert_entry(s, e)),
        all_unknown(s, top) && !is_known(e.0, top) ==> all_unknown(insert_entry(s, e), top),
        !has_name(s, e.0) ==> insert_entry(s, e) == s.push(e),
{
    let r = insert_entry(s, e);
    if has_name(s, e.0) {
        let j = choose|j: int| 0 <= j < s.len() && s[j].0 == e.0;
        assert forall|a: int, b: int| 0 <= a < b < r.len() implies (#[trigger] r[a]).0 != (
        #[trigger] r[b]).0 by {
            assert(r[a].0 == s[a].0 && r[b].0 == s[b].0);
        }
        assert forall|i: int| 0 <= i < r.len() implies !is_known(#[trigger] r[i].0, top) || !(
        all_unknown(s, top) && !is_known(e.0, top)) by {
            assert(r[i].0 == s[i].0);
        }
    } else {
        assert forall|a: int, b: int| 0 <= a < b < r.len() implies (#[trigger] r[a]).0 != (
        #[trigger] r[b]).0 by {
            if b == s.len() {
                assert(r[a] == s[a]);
            }
        }
    }
}

/// The extension of a list of members: those whose names are not recognized.
pub fn unrecognized_members(m: &Vec<Member>, top: bool) -> (r: IndexMap<String, JsonValue>)
    ensures
        extension_entries(r) == unrecognized(members_view(m@), top),
        all_unknown(extension_entries(r), top),
        names_unique(extension_entries(r)),
{
    let ghost mv = members_view(m@);
    let mut out = map_new();
    let mut i: usize = 0;
    while i < m.len()
        invariant
            mv == members_view(m@),
            i <= m@.len(),
            extension_entries(out) == unrecognized_upto(mv, top, i as int),
            all_unknown(extension_entries(out), top),
            names_unique(extension_entries(out)),
        decreases m@.len() - i,
    {
        if !known_test(&m[i].key, top) {
            let k = m[i].key.clone();
            let c = copy_json(&m[i].value);
            proof {
                lemma_insert_keeps(extension_entries(out), mv[i as int], top);
            }
            map_insert(&mut out, k, c);
        }
        i = i + 1;
    }
    out
}

/// Recognized members followed by unrecognized ones leave exactly the latter.
pub proof fn lemma_unrecognized_suffix(a: Seq<(Seq<char>, Json)>, b: Seq<(Seq<char>, Json)>, top: bool)
    requires
        forall|i: int| 0 <= i < a.len() ==> is_known(#[trigger] a[i].0, top),
        all_unknown(b, top),
        names_unique(b),
    ensures
        unrecognized(a + b, top) == b,
{
    let m = a + b;
    assert forall|n: int| 0 <= n <= m.len() implies #[trigger] unrecognized_upto(m, top, n) == (
    if n <= a.len() {
        Seq::<(Seq<char>, Json)>::empty()
    } else {
        b.subrange(0, n - a.len())
    }) by {
        lemma_unrecognized_prefix(a, b, top, n);
    }
    assert(b.subrange(0, b.len() as int) =~= b);
    if b.len() == 0 {
        assert(unrecognized_upto(m, top, m.len() as int) == Seq::<(Seq<char>, Json)>::empty());
        assert(b =~= Seq::<(Seq<char>, Json)>::empty());
    }
}

proof fn lemma_unrecognized_prefix(a: Seq<(Seq<char>, Json)>, b: Seq<(Seq<char>, Json)>, top: bool, n: int)
    requires
        forall|i: int| 0 <= i < a.len() ==> is_known(#[trigger] a[i].0, top),
        all_unknown(b, top),
        names_unique(b),
        0 <= n <= a.len() + b.len(),
    ensures
        unrecognized_upto(a + b, top, n) == (if n <= a.len() {
            Seq::<(Seq<char>, Json)>::empty()
        } else {
            b.subrange(0, n - a.len())
        }),
    decreases n,
{
    let m = a + b;
    if n > 0 {
        lemma_unrecognized_prefix(a, b, top, n - 1);
        if n <= a.len() {
            assert(m[n - 1] == a[n - 1]);
        } else {
            assert(m[n - 1] == b[n - 1 - a.len()]);
            let t = n - 1 - a.len();
            assert(!is_known(b[t].0, top));
            let p = b.subrange(0, t);
            assert forall|j: int| 0 <= j < p.len() implies p[j].0 != b[t].0 by {
                assert(p[j] == b[j]);
            }
            assert(!has_name(p, b[t].0));
            assert(b.subrange(0, n - a.len()) =~= p.push(b[t]));
        }
    }
}

} // verus!
