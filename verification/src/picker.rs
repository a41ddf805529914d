//! The placement grid and the preview model that follows the cursor.
//!
//! Each cell of the ground grid holds at most one placed model.  A left click
//! on a free cell places the palette's selected model there; a left click on
//! an occupied cell does nothing; a right click removes what the cell holds.
use crate::cell_map::{
    Cell, cell_entries, cell_map_contains, cell_map_insert, cell_map_new,
    cell_map_remove,
};
use crate::pannel::AssetPalette;
use bevy::platform::collections::HashMap;
use vstd::prelude::*;

verus! {

/// The models placed on the grid: for each occupied cell, the id (in its
/// `u64` bit form) of the entity that stands there.
pub struct WorldGrid {
    pub cells: HashMap<Cell, u64>,
}

impl View for WorldGrid {
    type V = Map<Cell, u64>;

    open spec fn view(&self) -> Map<Cell, u64> {
        cell_entries(self.cells)
    }
}

impl WorldGrid {
    /// An empty grid.
    pub fn new() -> (grid: WorldGrid)
        ensures
            grid@ == Map::<Cell, u64>::empty(),
    {
        let cells = cell_map_new();
        assert(cell_entries(cells) =~= Map::<Cell, u64>::empty());
        WorldGrid { cells }
    }

    /// Whether `cell` holds a placed model.
    pub fn is_occupied(&self, cell: Cell) -> (r: bool)
        ensures
            r == self@.contains_key(cell),
    {
        cell_map_contains(&self.cells, &cell)
    }

    /// Records that `entity` now stands on `cell`; returns what the cell held
    /// before, if anything.
    pub fn place(&mut self, cell: Cell, entity: u64) -> (previous: Option<u64>)
        ensures
            final(self)@ == old(self)@.insert(cell, entity),
            previous == (if old(self)@.contains_key(cell) {
                Some(old(self)@[cell])
            } else {
                None
            }),
    {
        cell_map_insert(&mut self.cells, cell, entity)
    }
}

impl Default for WorldGrid {
    fn default() -> (grid: WorldGrid)
        ensures
            grid@ == Map::<Cell, u64>::empty(),
    {
        WorldGrid::new()
    }
}

/// The mouse button of a press on the grid or on a placed model.
#[derive(Clone, Copy, Debug, PartialEq, Eq, Structural)]
pub enum PointerButton {
    Primary,
    Secondary,
    Middle,
}

/// A model to spawn: the palette entry `model_index`, on `cell`.
#[derive(Clone, Copy, Debug, PartialEq, Eq)]
pub struct Placement {
    pub cell: Cell,
    pub model_index: usize,
}

/// What a press on the grid asks of the world.
#[derive(Clone, Copy, Debug, PartialEq, Eq)]
pub enum ClickOutcome {
    /// Nothing to do.
    Ignored,
    /// Spawn the model, then record it with [`WorldGrid::place`].
    Spawn(Placement),
    /// The entity was taken off the grid; despawn it.
    Despawn(u64),
}

/// What a left click on `position` places, given the grid and the palette:
/// nothing without a position, on an occupied cell, without a selection, or
/// when the selection names no loaded model; otherwise the selected model on
/// that cell.
pub open spec fn left_click_plan(
    cells: Map<Cell, u64>,
    selected: Option<usize>,
    model_count: nat,
    position: Option<Cell>,
) -> Option<Placement> {
    match position {
        None => None,
        Some(cell) => {
            if cells.contains_key(cell) {
                None
            } else {
                match selected {
                    None => None,
                    Some(i) => if i < model_count {
                        Some(Placement { cell, model_index: i })
                    } else {
                        None
                    },
                }
            }
        },
    }
}

/// Decides what a left click places.  The grid does not change here: once
/// the model is spawned, the caller records it with [`WorldGrid::place`].
pub fn left_click<H>(grid: &WorldGrid, palette: &AssetPalette<H>, position: Option<Cell>) -> (r:
    Option<Placement>)
    ensures
        r == left_click_plan(grid@, palette.selected_index, palette.loaded_models@.len(), position),
{
    let cell = match position {
        None => return None,
        Some(cell) => cell,
    };
    if grid.is_occupied(cell) {
        return None;
    }
    let i = match palette.selected_index {
        None => return None,
        Some(i) => i,
    };
    if i >= palette.loaded_models.len() {
        return None;
    }
    Some(Placement { cell, model_index: i })
}

/// Takes whatever stands on `cell` off the grid and returns its entity, to
/// be despawned; an empty cell leaves the grid as it was.
pub fn delete_entity(grid: &mut WorldGrid, cell: Cell) -> (removed: Option<u64>)
    ensures
        final(grid)@ == old(grid)@.remove(cell),
        removed == (if old(grid)@.contains_key(cell) {
            Some(old(grid)@[cell])
        } else {
            None
        }),
{
    cell_map_remove(&mut grid.cells, &cell)
}

/// A right click: without a position nothing happens; otherwise the cell
/// under the cursor is cleared as [`delete_entity`] does.
pub fn grid_right_click(grid: &mut WorldGrid, position: Option<Cell>) -> (removed: Option<u64>)
    ensures
        match position {
            None => final(grid)@ == old(grid)@ && removed is None,
            Some(cell) => {
                &&& final(grid)@ == old(grid)@.remove(cell)
                &&& removed == (if old(grid)@.contains_key(cell) {
                    Some(old(grid)@[cell])
                } else {
                    None
                })
            },
        },
{
    match position {
        None => None,
        Some(cell) => delete_entity(grid, cell),
    }
}

/// A press on the grid or on a placed model: the primary button places as
/// [`left_click`] decides, the secondary button removes as
/// [`grid_right_click`] does, any other button is ignored.
pub fn on_click<H>(
    grid: &mut WorldGrid,
    palette: &AssetPalette<H>,
    button: PointerButton,
    position: Option<Cell>,
) -> (r: ClickOutcome)
    ensures
        button == PointerButton::Primary ==> {
            &&& final(grid)@ == old(grid)@
            &&& r == match left_click_plan(
                old(grid)@,
                palette.selected_index,
                palette.loaded_models@.len(),
                position,
            ) {
                Some(p) => ClickOutcome::Spawn(p),
                None => ClickOutcome::Ignored,
            }
        },
        button == PointerButton::Secondary ==> match position {
            None => final(grid)@ == old(grid)@ && r == ClickOutcome::Ignored,
            Some(cell) => {
                &&& final(grid)@ == old(grid)@.remove(cell)
                &&& r == (if old(grid)@.contains_key(cell) {
                    ClickOutcome::Despawn(old(grid)@[cell])
                } else {
                    ClickOutcome::Ignored
                })
            },
        },
        button == PointerButton::Middle ==> final(grid)@ == old(grid)@ && r == ClickOutcome::Ignored,
{
    match button {
        PointerButton::Primary => match left_click(grid, palette, position) {
            Some(p) => ClickOutcome::Spawn(p),
            None => ClickOutcome::Ignored,
        },
        PointerButton::Secondary => match grid_right_click(grid, position) {
            Some(e) => ClickOutcome::Despawn(e),
            None => ClickOutcome::Ignored,
        },
        PointerButton::Middle => ClickOutcome::Ignored,
    }
}

/// The preview model that follows the cursor over the grid.
///
/// `pos` is the cell whose centre the preview was last moved to; it is
/// `None` while the preview still stands where it started, at the world
/// origin, which is the centre of no cell.  `origin_mesh` is the palette
/// index of the model being previewed, and `entity` the id of the preview
/// entity, once one is spawned.
#[derive(Clone, Copy, Debug, PartialEq, Eq)]
pub struct PreEntity {
    pub pos: Option<Cell>,
    pub origin_mesh: Option<usize>,
    pub entity: Option<u64>,
}

impl PreEntity {
    /// No preview yet: at the origin, no model, no entity.
    pub fn new() -> (pre: PreEntity)
        ensures
            pre.pos is None,
            pre.origin_mesh is None,
            pre.entity is None,
    {
        PreEntity { pos: None, origin_mesh: None, entity: None }
    }
}

impl Default for PreEntity {
    fn default() -> (pre: PreEntity)
        ensures
            pre.pos is None,
            pre.origin_mesh is None,
            pre.entity is None,
    {
        PreEntity::new()
    }
}

/// One cursor move over the grid: the preview and the entity to move to the
/// centre of the hovered cell, if it moves.  It moves only when the cursor
/// is over a cell other than the one it stands on, a model is chosen and a
/// preview entity exists; otherwise nothing changes.
pub open spec fn follow_cursor(pre: PreEntity, position: Option<Cell>) -> (PreEntity, Option<u64>) {
    match position {
        None => (pre, None),
        Some(cell) => {
            if pre.pos == Some(cell) || pre.origin_mesh is None || pre.entity is None {
                (pre, None)
            } else {
                (PreEntity { pos: Some(cell), ..pre }, pre.entity)
            }
        },
    }
}

/// Moves the preview to the hovered cell; returns the preview entity when it
/// has to be moved to that cell's centre.
pub fn update_pre_entity(pre_entity: &mut PreEntity, position: Option<Cell>) -> (moved: Option<u64>)
    ensures
        (*final(pre_entity), moved) == follow_cursor(*old(pre_entity), position),
        final(pre_entity).origin_mesh == old(pre_entity).origin_mesh,
        final(pre_entity).entity == old(pre_entity).entity,
        position matches Some(c) ==> (moved is Some <==> (old(pre_entity).pos != Some(c)
            && old(pre_entity).origin_mesh is Some && old(pre_entity).entity is Some)),
        moved is Some ==> moved == old(pre_entity).entity && final(pre_entity).pos == position,
        moved is None ==> final(pre_entity).pos == old(pre_entity).pos,
{
    proof {
        lemma_preview_moves_to_every_other_cell(*old(pre_entity), position);
    }
    let cell = match position {
        None => return None,
        Some(cell) => cell,
    };
    let already_there = match pre_entity.pos {
        Some(p) => p.0 == cell.0 && p.1 == cell.1 && p.2 == cell.2,
        None => false,
    };
    if already_there || pre_entity.origin_mesh.is_none() {
        return None;
    }
    let entity = match pre_entity.entity {
        None => return None,
        Some(e) => e,
    };
    pre_entity.pos = Some(cell);
    Some(entity)
}

/// A model placed on a free cell is exactly what a right click on that cell
/// then takes off, and the grid is left as it was before the placement.
pub proof fn lemma_place_then_remove(cells: Map<Cell, u64>, cell: Cell, entity: u64)
    requires
        !cells.contains_key(cell),
    ensures
        cells.insert(cell, entity).contains_key(cell),
        cells.insert(cell, entity)[cell] == entity,
        cells.insert(cell, entity).remove(cell) == cells,
{
    assert(cells.insert(cell, entity).remove(cell) =~= cells);
}

/// A second right click on the same cell finds it empty and changes nothing.
pub proof fn lemma_remove_twice(cells: Map<Cell, u64>, cell: Cell)
    ensures
        !cells.remove(cell).contains_key(cell),
        cells.remove(cell).remove(cell) == cells.remove(cell),
{
    assert(cells.remove(cell).remove(cell) =~= cells.remove(cell));
}

/// A left click never replaces a placed model: on an occupied cell it plans
/// nothing, and when it plans a placement, the cell is free, the model is a
/// loaded one, and recording the new entity keeps every model already on the
/// grid where it was.
pub proof fn lemma_left_click_keeps_placed_models(
    cells: Map<Cell, u64>,
    selected: Option<usize>,
    model_count: nat,
    position: Option<Cell>,
    entity: u64,
)
    ensures
        (position matches Some(cell) && cells.contains_key(cell)) ==> left_click_plan(
            cells,
            selected,
            model_count,
            position,
        ) is None,
        left_click_plan(cells, selected, model_count, position) matches Some(p) ==> {
            &&& position == Some(p.cell)
            &&& selected == Some(p.model_index)
            &&& p.model_index < model_count
            &&& !cells.contains_key(p.cell)
            &&& forall|c: Cell| #[trigger]
                cells.contains_key(c) ==> cells.insert(p.cell, entity).contains_key(c)
                    && cells.insert(p.cell, entity)[c] == cells[c]
        },
{
}

/// A preview with a model and an entity moves to every cell other than the
/// exact one it stands on: the result is its entity and its cell becomes the
/// hovered one.  Without a hovered cell, on the very same cell, or without a
/// model or an entity, it stays where it is.
pub proof fn lemma_preview_moves_to_every_other_cell(pre: PreEntity, position: Option<Cell>)
    ensures
        follow_cursor(pre, position).0.origin_mesh == pre.origin_mesh,
        follow_cursor(pre, position).0.entity == pre.entity,
        position matches Some(c) ==> ((follow_cursor(pre, position).1 is Some) <==> (pre.pos
            != Some(c) && pre.origin_mesh is Some && pre.entity is Some)),
        follow_cursor(pre, position).1 is Some ==> {
            &&& follow_cursor(pre, position).1 == pre.entity
            &&& follow_cursor(pre, position).0.pos == position
        },
        follow_cursor(pre, position).1 is None ==> follow_cursor(pre, position).0.pos == pre.pos,
{
}

/// Moving the cursor within the same cell again changes nothing, and
/// following the cursor never changes which model is previewed nor which
/// entity shows it.
pub proof fn lemma_follow_cursor_settles(pre: PreEntity, position: Option<Cell>)
    ensures
        follow_cursor(follow_cursor(pre, position).0, position) == (follow_cursor(pre, position).0, None::<u64>),
        follow_cursor(pre, position).0.origin_mesh == pre.origin_mesh,
        follow_cursor(pre, position).0.entity == pre.entity,
{
}

} // verus!
