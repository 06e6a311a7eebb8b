//! Trusted interface to the qp-trie that indexes each theme's memo table.
//!
//! The trie maps an icon name (keyed by its raw bytes, so lookups cost no
//! more than the name's length) to a slot in the owning cache's entry list.
//! Its contents are named by [`trie_view`]; every operation the caching
//! layer uses is wrapped here with a contract over that name. Two `&str`
//! keys have the same UTF-8 bytes exactly when they have the same character
//! sequence, so a view keyed by `Seq<char>` distinguishes exactly the keys
//! the trie distinguishes.

use vstd::prelude::*;

verus! {

/// qp_trie's radix trie type, used as the memo table index.
#[verifier::external_type_specification]
#[verifier::external_body]
#[verifier::reject_recursive_types(K)]
#[verifier::reject_recursive_types(V)]
pub struct ExTrie<K, V>(qp_trie::Trie<K, V>);

/// qp_trie's owned byte-string key wrapper.
#[verifier::external_type_specification]
#[verifier::external_body]
pub struct ExBString(qp_trie::wrapper::BString);

/// The entries a memo trie holds: each stored icon name, as the character
/// sequence of the key it was inserted under, to the stored slot.
pub uninterp spec fn trie_view(t: qp_trie::Trie<qp_trie::wrapper::BString, usize>) -> Map<
    Seq<char>,
    usize,
>;

/// Relies on qp_trie::Trie::new: a freshly created trie holds no entries.
#[verifier::external_body]
pub(crate) fn trie_new() -> (r: qp_trie::Trie<qp_trie::wrapper::BString, usize>)
    ensures
        trie_view(r) =~= Map::empty(),
{
    qp_trie::Trie::new()
}

/// Relies on qp_trie::Trie::get_str: returns the value stored under the
/// key's bytes, if any.
#[verifier::external_body]
pub(crate) fn trie_get(t: &qp_trie::Trie<qp_trie::wrapper::BString, usize>, key: &str) -> (r:
    Option<usize>)
    ensures
        match r {
            Some(v) => trie_view(*t).dom().contains(key@) && trie_view(*t)[key@] == v,
            None => !trie_view(*t).dom().contains(key@),
        },
{
    t.get_str(key).copied()
}

/// Relies on qp_trie::Trie::insert_str: stores `val` under the key's bytes,
/// replacing and returning the value previously stored there, if any.
#[verifier::external_body]
pub(crate) fn trie_insert(
    t: &mut qp_trie::Trie<qp_trie::wrapper::BString, usize>,
    key: &str,
    val: usize,
) -> (r: Option<usize>)
    ensures
        trie_view(*final(t)) == trie_view(*old(t)).insert(key@, val),
        match r {
            Some(v) => trie_view(*old(t)).dom().contains(key@) && trie_view(*old(t))[key@] == v,
            None => !trie_view(*old(t)).dom().contains(key@),
        },
{
    t.insert_str(key, val)
}

/// Relies on qp_trie::Trie::clear: removes every entry.
#[verifier::external_body]
pub(crate) fn trie_clear(t: &mut qp_trie::Trie<qp_trie::wrapper::BString, usize>)
    ensures
        trie_view(*final(t)) =~= Map::empty(),
{
    t.clear()
}

/// Relies on qp_trie::Trie::count: the number of entries the trie holds.
#[verifier::external_body]
pub(crate) fn trie_count(t: &qp_trie::Trie<qp_trie::wrapper::BString, usize>) -> (r: usize)
    ensures
        trie_view(*t).dom().finite() ==> r == trie_view(*t).dom().len(),
{
    t.count()
}

} // verus!
