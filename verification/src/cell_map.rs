//! Bevy's deterministic hash map, as the grid uses it: keys are integer
//! cell coordinates, values are entity ids in their `u64` bit form.
use bevy::platform::collections::HashMap;
use bevy::platform::hash::FixedHasher;
use vstd::prelude::*;

verus! {

/// A grid cell: its integer `x`, `y` and `z` coordinates.
pub type Cell = (i32, i32, i32);

/// Declares `bevy::platform::collections::HashMap` (a wrapper around
/// hashbrown's map) to Verus as an opaque type; what it holds is named by
/// [`cell_entries`].
#[verifier::external_type_specification]
#[verifier::external_body]
#[verifier::reject_recursive_types(K)]
#[verifier::reject_recursive_types(V)]
#[verifier::reject_recursive_types(S)]
pub struct ExBevyHashMap<K, V, S>(HashMap<K, V, S>);

/// Declares `bevy::platform::hash::FixedHasher`, the map's default hasher, to
/// Verus as an opaque type.
#[verifier::external_type_specification]
#[verifier::external_body]
pub struct ExFixedHasher(FixedHasher);

/// The entries that a map from cells to entity ids holds: for each key in
/// the map, the value stored for it.
pub uninterp spec fn cell_entries(m: HashMap<(i32, i32, i32), u64>) -> Map<(i32, i32, i32), u64>;

/// Calls `bevy::platform::collections::HashMap::new`: the map it makes holds
/// no entry.
#[verifier::external_body]
pub(crate) fn cell_map_new() -> (fresh: HashMap<Cell, u64>)
    ensures
        cell_entries(fresh).is_empty(),
{
    HashMap::new()
}

/// Calls `HashMap::contains_key`: true exactly when the map holds an entry
/// for `cell`.
#[verifier::external_body]
pub(crate) fn cell_map_contains(m: &HashMap<Cell, u64>, cell: &Cell) -> (r: bool)
    ensures
        r == cell_entries(*m).contains_key(*cell),
{
    m.contains_key(cell)
}

/// Calls `HashMap::insert`: afterwards the map holds `entity` for `cell` and
/// every other entry as before; the result is the entity that `cell` held
/// before, if any.
#[verifier::external_body]
pub(crate) fn cell_map_insert(m: &mut HashMap<Cell, u64>, cell: Cell, entity: u64) -> (r: Option<u64>)
    ensures
        cell_entries(*final(m)) == cell_entries(*old(m)).insert(cell, entity),
        r == (if cell_entries(*old(m)).contains_key(cell) {
            Some(cell_entries(*old(m))[cell])
        } else {
            None
        }),
{
    m.insert(cell, entity)
}

/// Calls `HashMap::remove`: afterwards the map holds no entry for `cell` and
/// every other entry as before; the result is the entity that `cell` held
/// before, if any.
#[verifier::external_body]
pub(crate) fn cell_map_remove(m: &mut HashMap<Cell, u64>, cell: &Cell) -> (r: Option<u64>)
    ensures
        cell_entries(*final(m)) == cell_entries(*old(m)).remove(*cell),
        r == (if cell_entries(*old(m)).contains_key(*cell) {
            Some(cell_entries(*old(m))[*cell])
        } else {
            None
        }),
{
    m.remove(cell)
}

} // verus!
