//! The table from a request to the way it is consumed: a hash map with the
//! `fx` hash of `rustc_hash`.

use crate::consume::ConsumeModel;
use crate::consume::ConsumeOptions;
use rustc_hash::FxHashMap;
use vstd::prelude::*;

verus! {

#[verifier::external_type_specification]
#[verifier::external_body]
pub struct ExFxHasher(rustc_hash::FxHasher);

#[verifier::external_type_specification]
#[verifier::external_body]
#[verifier::reject_recursive_types(H)]
pub struct ExBuildHasherDefault<H>(core::hash::BuildHasherDefault<H>);

/// What a table holds: for each request in it, the options.
pub uninterp spec fn consume_map_entries(m: FxHashMap<String, ConsumeOptions>) -> Map<
    Seq<char>,
    ConsumeModel,
>;

/// `FxHashMap::default`: a map that holds nothing.
#[verifier::external_body]
pub(crate) fn map_new() -> (m: FxHashMap<String, ConsumeOptions>)
    ensures
        consume_map_entries(m).dom() == Set::<Seq<char>>::empty(),
{
    FxHashMap::default()
}

/// `HashMap::insert` on an `FxHashMap`: afterwards the map holds `value`
/// under `key`, in place of what it held under an equal key, and all else
/// as before.
#[verifier::external_body]
pub(crate) fn map_insert(
    m: &mut FxHashMap<String, ConsumeOptions>,
    key: String,
    value: ConsumeOptions,
)
    ensures
        consume_map_entries(*final(m)) == consume_map_entries(*old(m)).insert(key@, value@),
{
    m.insert(key, value);
}

/// `HashMap::get` on an `FxHashMap`: what the map holds under a key equal
/// to `key`, if it holds such a key.
#[verifier::external_body]
pub(crate) fn map_get<'a>(m: &'a FxHashMap<String, ConsumeOptions>, key: &str) -> (found: Option<
    &'a ConsumeOptions,
>)
    ensures
        match found {
            Some(value) => consume_map_entries(*m).contains_key(key@) && value@
                == consume_map_entries(*m)[key@],
            None => !consume_map_entries(*m).contains_key(key@),
        },
{
    m.get(key)
}

/// `HashMap::keys` on an `FxHashMap`, each key copied: the keys of the map,
/// each once, in an order that is not stated.
#[verifier::external_body]
pub(crate) fn map_keys(m: &FxHashMap<String, ConsumeOptions>) -> (keys: Vec<String>)
    ensures
        forall|i: int|
            0 <= i < keys@.len() ==> consume_map_entries(*m).contains_key(#[trigger] keys@[i]@),
        forall|k: Seq<char>|
            consume_map_entries(*m).contains_key(k) ==> exists|i: int|
                0 <= i < keys@.len() && #[trigger] keys@[i]@ == k,
        forall|i: int, j: int|
            0 <= i < j < keys@.len() ==> #[trigger] keys@[i]@ != #[trigger] keys@[j]@,
{
    m.keys().cloned().collect()
}

} // verus!
