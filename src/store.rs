//! The ordered maps that hold the non-default cells of a layer, kept in
//! `im_rc::OrdMap`. Keys are (row, column) pairs, so the map's ascending key
//! order is raster order.
use vstd::prelude::*;

use crate::cell::{GroundCell, OverlayCell};

verus! {

#[verifier::external_type_specification]
#[verifier::external_body]
#[verifier::reject_recursive_types(K)]
#[verifier::reject_recursive_types(V)]
pub struct ExOrdMap<K, V>(im_rc::OrdMap<K, V>);

/// A storage key: (row, column).
pub type Key = (i32, i32);

/// The store of a ground layer.
pub type GroundMap = im_rc::OrdMap<(i32, i32), GroundCell>;

/// The store of an overlay layer.
pub type OverlayMap = im_rc::OrdMap<(i32, i32), OverlayCell>;

/// Lexicographic order on keys, which is the order of `Ord` on tuples.
pub open spec fn key_lt(a: (i32, i32), b: (i32, i32)) -> bool {
    a.0 < b.0 || (a.0 == b.0 && a.1 < b.1)
}

/// What a map of ground cells holds.
pub uninterp spec fn ground_entries(m: GroundMap) -> Map<
    (i32, i32),
    GroundCell,
>;

/// What a map of overlay cells holds.
pub uninterp spec fn overlay_entries(m: OverlayMap) -> Map<
    (i32, i32),
    OverlayCell,
>;

/// The entries of `m` listed in ascending key order.
pub open spec fn lists_in_order<V>(r: Seq<((i32, i32), V)>, m: Map<(i32, i32), V>) -> bool {
    &&& forall|i: int| 0 <= i < r.len() ==> #[trigger] m.contains_key(r[i].0) && m[r[i].0] == r[i].1
    &&& forall|k: (i32, i32)| #[trigger]
        m.contains_key(k) ==> exists|i: int| 0 <= i < r.len() && r[i].0 == k
    &&& forall|i: int, j: int| 0 <= i < j < r.len() ==> key_lt(r[i].0, r[j].0)
}

/// Relies on `im_rc::OrdMap::new`: an empty map.
#[verifier::external_body]
pub(crate) fn ground_new() -> (empty: GroundMap)
    ensures
        ground_entries(empty).dom() == Set::<Key>::empty(),
{
    im_rc::OrdMap::new()
}

/// Relies on `Clone` of `im_rc::OrdMap`: a map with the same entries.
#[verifier::external_body]
pub(crate) fn ground_clone(m: &GroundMap) -> (r: GroundMap)
    ensures
        ground_entries(r) == ground_entries(*m),
{
    m.clone()
}

/// Relies on `im_rc::OrdMap::get`: the value stored under the key, if any.
#[verifier::external_body]
pub(crate) fn ground_get(m: &GroundMap, k: (i32, i32)) -> (r: Option<
    GroundCell,
>)
    ensures
        r == (if ground_entries(*m).contains_key(k) {
            Some(ground_entries(*m)[k])
        } else {
            None
        }),
{
    m.get(&k).copied()
}

/// Relies on `im_rc::OrdMap::insert`: the key now maps to the value, other
/// keys are untouched.
#[verifier::external_body]
pub(crate) fn ground_insert(m: &mut GroundMap, k: (i32, i32), v: GroundCell)
    ensures
        ground_entries(*final(m)) == ground_entries(*old(m)).insert(k, v),
{
    m.insert(k, v);
}

/// Relies on `im_rc::OrdMap::remove`: the key is gone, other keys are
/// untouched.
#[verifier::external_body]
pub(crate) fn ground_remove(m: &mut GroundMap, k: (i32, i32))
    ensures
        ground_entries(*final(m)) == ground_entries(*old(m)).remove(k),
{
    m.remove(&k);
}

/// Relies on `im_rc::OrdMap::iter`: every entry once, keys from lowest to
/// highest.
#[verifier::external_body]
pub(crate) fn ground_iter(m: &GroundMap) -> (r: Vec<((i32, i32), GroundCell)>)
    ensures
        lists_in_order(r@, ground_entries(*m)),
{
    m.iter().map(|(k, v)| (*k, *v)).collect()
}

/// Relies on `im_rc::OrdMap::new`: an empty map.
#[verifier::external_body]
pub(crate) fn overlay_new() -> (r: OverlayMap)
    ensures
        overlay_entries(r).dom() == Set::<Key>::empty(),
{
    im_rc::OrdMap::new()
}

/// Relies on `Clone` of `im_rc::OrdMap`: a map with the same entries.
#[verifier::external_body]
pub(crate) fn overlay_clone(m: &OverlayMap) -> (r: OverlayMap)
    ensures
        overlay_entries(r) == overlay_entries(*m),
{
    m.clone()
}

/// Relies on `im_rc::OrdMap::get`: the value stored under the key, if any.
#[verifier::external_body]
pub(crate) fn overlay_get(m: &OverlayMap, k: (i32, i32)) -> (r: Option<
    OverlayCell,
>)
    ensures
        r == (if overlay_entries(*m).contains_key(k) {
            Some(overlay_entries(*m)[k])
        } else {
            None
        }),
{
    m.get(&k).copied()
}

/// Relies on `im_rc::OrdMap::insert`: the key now maps to the value, other
/// keys are untouched.
#[verifier::external_body]
pub(crate) fn overlay_insert(
    m: &mut OverlayMap,
    k: (i32, i32),
    v: OverlayCell,
)
    ensures
        overlay_entries(*final(m)) == overlay_entries(*old(m)).insert(k, v),
{
    m.insert(k, v);
}

/// Relies on `im_rc::OrdMap::remove`: the key is gone, other keys are
/// untouched.
#[verifier::external_body]
pub(crate) fn overlay_remove(m: &mut OverlayMap, k: (i32, i32))
    ensures
        overlay_entries(*final(m)) == overlay_entries(*old(m)).remove(k),
{
    m.remove(&k);
}

/// Relies on `im_rc::OrdMap::iter`: every entry once, keys from lowest to
/// highest.
#[verifier::external_body]
pub(crate) fn overlay_iter(m: &OverlayMap) -> (r: Vec<((i32, i32), OverlayCell)>)
    ensures
        lists_in_order(r@, overlay_entries(*m)),
{
    m.iter().map(|(k, v)| (*k, *v)).collect()
}

} // verus!
