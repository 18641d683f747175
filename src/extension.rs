use crate::json::{copy_json, members_view, Json, JsonValue, Member};
use indexmap::IndexMap;
use vstd::prelude::*;

verus! {

#[verifier::external_type_specification]
#[verifier::external_body]
#[verifier::reject_recursive_types(K)]
#[verifier::reject_recursive_types(V)]
#[verifier::reject_recursive_types(S)]
pub struct ExIndexMap<K, V, S>(IndexMap<K, V, S>);

/// The entries of an extension map, in insertion order.
pub uninterp spec fn extension_entries(m: IndexMap<String, JsonValue>) -> Seq<(Seq<char>, Json)>;

/// Whether no two entries share a name.
pub open spec fn names_unique(s: Seq<(Seq<char>, Json)>) -> bool {
    forall|i: int, j: int| 0 <= i < j < s.len() ==> (#[trigger] s[i]).0 != (#[trigger] s[j]).0
}

/// Whether some entry is named `k`.
pub open spec fn has_name(s: Seq<(Seq<char>, Json)>, k: Seq<char>) -> bool {
    exists|j: int| 0 <= j < s.len() && s[j].0 == k
}

/// Inserting an entry: an entry of the same name keeps its place and takes
/// the new value; otherwise the entry goes last.
pub open spec fn insert_entry(s: Seq<(Seq<char>, Json)>, e: (Seq<char>, Json)) -> Seq<
    (Seq<char>, Json),
> {
    if has_name(s, e.0) {
        let j = choose|j: int| 0 <= j < s.len() && s[j].0 == e.0;
        s.update(j, e)
    } else {
        s.push(e)
    }
}

/// Relies on `IndexMap::new`: a new map holds no entries.
#[verifier::external_body]
pub(crate) fn map_new() -> (r: IndexMap<String, JsonValue>)
    ensures
        extension_entries(r) == Seq::<(Seq<char>, Json)>::empty(),
{
    IndexMap::new()
}

/// Relies on `IndexMap::insert`: an existing key keeps its place in the order
/// and its value is replaced; a new key is inserted last.
#[verifier::external_body]
pub(crate) fn map_insert(m: &mut IndexMap<String, JsonValue>, k: String, v: JsonValue)
    ensures
        extension_entries(*final(m)) == insert_entry(extension_entries(*old(m)), (k@, v@)),
{
    m.insert(k, v);
}

/// Relies on `IndexMap::len`: the number of entries.
#[verifier::external_body]
pub(crate) fn map_len(m: &IndexMap<String, JsonValue>) -> (r: usize)
    ensures
        r == extension_entries(*m).len(),
{
    m.len()
}

/// Relies on `IndexMap::get_index`: the entry at a position of the insertion
/// order, for positions below the length.
#[verifier::external_body]
pub(crate) fn map_get(m: &IndexMap<String, JsonValue>, i: usize) -> (r: Option<(&String, &JsonValue)>)
    ensures
        (i < extension_entries(*m).len()) <==> r is Some,
        r matches Some(p) ==> p.0@ == extension_entries(*m)[i as int].0 && p.1@
            == extension_entries(*m)[i as int].1,
{
    m.get_index(i)
}

/// Appends copies of the entries of `m`, in order, as object members.
pub fn append_entries(out: &mut Vec<Member>, m: &IndexMap<String, JsonValue>)
    ensures
        members_view(final(out)@) == members_view(old(out)@) + extension_entries(*m),
{
    let ghost before = members_view(out@);
    let ghost ev = extension_entries(*m);
    let n = map_len(m);
    let mut i: usize = 0;
    while i < n
        invariant
            ev == extension_entries(*m),
            n == ev.len(),
            i <= n,
            members_view(out@) == before + ev.take(i as int),
        decreases n - i,
    {
        match map_get(m, i) {
            Some(p) => {
                let ghost prev = members_view(out@);
                out.push(Member { key: p.0.clone(), value: copy_json(p.1) });
                assert(members_view(out@) =~= prev.push(ev[i as int]));
                assert(ev.take(i + 1) =~= ev.take(i as int).push(ev[i as int]));
            },
            None => {},
        }
        i = i + 1;
    }
    assert(ev.take(i as int) =~= ev);
}

} // verus!
