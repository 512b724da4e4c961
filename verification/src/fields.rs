//! The ordered name-to-value mapping that carries a note's fields.
//!
//! The mapping is kept in an `indexmap::IndexMap`, which preserves insertion
//! order and keeps keys unique.  Verified code reaches it only through the
//! wrappers below, whose contracts speak of the map's entries in order.

use vstd::prelude::*;

verus! {

#[verifier::external_type_specification]
#[verifier::external_body]
#[verifier::reject_recursive_types(K)]
#[verifier::reject_recursive_types(V)]
#[verifier::reject_recursive_types(S)]
pub struct ExIndexMap<K, V, S>(indexmap::IndexMap<K, V, S>);

/// The entries a field map holds, as key/value pairs in insertion order.
pub uninterp spec fn fields_entries(m: indexmap::IndexMap<String, String>) -> Seq<
    (Seq<char>, Seq<char>),
>;

/// Whether some entry carries this key.
pub open spec fn fields_has_key(s: Seq<(Seq<char>, Seq<char>)>, k: Seq<char>) -> bool {
    exists|i: int| 0 <= i < s.len() && s[i].0 == k
}

/// Whether the keys of the entries are pairwise distinct.
pub open spec fn fields_unique(s: Seq<(Seq<char>, Seq<char>)>) -> bool {
    forall|i: int, j: int| 0 <= i < j < s.len() ==> s[i].0 != s[j].0
}

/// Relies on `indexmap::IndexMap::new`: makes a map with no entries.
#[verifier::external_body]
pub fn fields_new() -> (r: indexmap::IndexMap<String, String>)
    ensures
        fields_entries(r) == Seq::<(Seq<char>, Seq<char>)>::empty(),
{
    indexmap::IndexMap::new()
}

/// Relies on `indexmap::IndexMap::insert`: an existing key keeps its place in
/// the order and takes the new value; a new key is appended last.
#[verifier::external_body]
pub fn fields_insert(m: &mut indexmap::IndexMap<String, String>, k: String, v: String)
    ensures
        ({
            let olds = fields_entries(*old(m));
            let news = fields_entries(*final(m));
            fields_unique(olds) ==> {
                &&& fields_unique(news)
                &&& if fields_has_key(olds, k@) {
                    &&& news.len() == olds.len()
                    &&& forall|i: int|
                        0 <= i < olds.len() && olds[i].0 != k@ ==> news[i] == olds[i]
                    &&& forall|i: int|
                        0 <= i < olds.len() && olds[i].0 == k@ ==> news[i] == (k@, v@)
                } else {
                    news == olds.push((k@, v@))
                }
            }
        }),
{
    m.insert(k, v);
}

/// Relies on `indexmap::IndexMap::len`.
#[verifier::external_body]
pub fn fields_len(m: &indexmap::IndexMap<String, String>) -> (r: usize)
    ensures
        r == fields_entries(*m).len(),
{
    m.len()
}

/// Relies on `indexmap::IndexMap::iter`: yields the entries in their order.
#[verifier::external_body]
pub fn fields_pairs(m: &indexmap::IndexMap<String, String>) -> (r: Vec<(String, String)>)
    ensures
        r@.len() == fields_entries(*m).len(),
        forall|i: int|
            0 <= i < r@.len() ==> (r@[i].0@, r@[i].1@) == fields_entries(*m)[i],
{
    m.iter().map(|(k, v)| (k.clone(), v.clone())).collect()
}

} // verus!
