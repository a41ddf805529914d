use tunic::pannel::AssetPalette;
use tunic::picker::{
    delete_entity, grid_right_click, left_click, on_click, ClickOutcome, Placement, PointerButton,
    WorldGrid,
};

fn palette_with(names: &[&str], selected: Option<usize>) -> AssetPalette<u32> {
    let mut palette = AssetPalette::new();
    for (i, name) in names.iter().enumerate() {
        palette.register_model(name.to_string(), i as u32);
    }
    palette.selected_index = selected;
    palette
}

#[test]
fn new_grid_is_empty() {
    let grid = WorldGrid::new();
    assert!(!grid.is_occupied((0, 0, 0)));
    assert!(!WorldGrid::default().is_occupied((3, 0, -2)));
}

#[test]
fn place_marks_cell_occupied() {
    let mut grid = WorldGrid::new();
    assert_eq!(grid.place((2, 0, -5), 77), None);
    assert!(grid.is_occupied((2, 0, -5)));
    assert!(!grid.is_occupied((2, 0, -4)));
    assert_eq!(grid.place((2, 0, -5), 78), Some(77));
}

#[test]
fn left_click_places_selected_model_on_free_cell() {
    let grid = WorldGrid::new();
    let palette = palette_with(&["chair.glb", "table.gltf"], Some(1));
    assert_eq!(
        left_click(&grid, &palette, Some((4, 0, 7))),
        Some(Placement { cell: (4, 0, 7), model_index: 1 })
    );
}

#[test]
fn left_click_without_position_does_nothing() {
    let grid = WorldGrid::new();
    let palette = palette_with(&["chair.glb"], Some(0));
    assert_eq!(left_click(&grid, &palette, None), None);
}

#[test]
fn left_click_on_occupied_cell_does_nothing() {
    let mut grid = WorldGrid::new();
    grid.place((1, 0, 1), 10);
    let palette = palette_with(&["chair.glb"], Some(0));
    assert_eq!(left_click(&grid, &palette, Some((1, 0, 1))), None);
}

#[test]
fn left_click_without_selection_does_nothing() {
    let grid = WorldGrid::new();
    let palette = palette_with(&["chair.glb"], None);
    assert_eq!(left_click(&grid, &palette, Some((0, 0, 0))), None);
}

#[test]
fn left_click_with_selection_past_the_palette_does_nothing() {
    let grid = WorldGrid::new();
    let palette = palette_with(&["chair.glb"], Some(1));
    assert_eq!(left_click(&grid, &palette, Some((0, 0, 0))), None);
}

#[test]
fn delete_entity_returns_what_the_cell_held() {
    let mut grid = WorldGrid::new();
    grid.place((-3, 0, 8), 42);
    grid.place((0, 0, 0), 43);
    assert_eq!(delete_entity(&mut grid, (-3, 0, 8)), Some(42));
    assert!(!grid.is_occupied((-3, 0, 8)));
    assert!(grid.is_occupied((0, 0, 0)));
    assert_eq!(delete_entity(&mut grid, (-3, 0, 8)), None);
}

#[test]
fn right_click_without_position_changes_nothing() {
    let mut grid = WorldGrid::new();
    grid.place((5, 0, 5), 9);
    assert_eq!(grid_right_click(&mut grid, None), None);
    assert!(grid.is_occupied((5, 0, 5)));
}

#[test]
fn right_click_on_empty_cell_changes_nothing() {
    let mut grid = WorldGrid::new();
    grid.place((5, 0, 5), 9);
    assert_eq!(grid_right_click(&mut grid, Some((6, 0, 5))), None);
    assert!(grid.is_occupied((5, 0, 5)));
}

#[test]
fn on_click_dispatches_by_button() {
    let mut grid = WorldGrid::new();
    let palette = palette_with(&["chair.glb"], Some(0));
    let out = on_click(&mut grid, &palette, PointerButton::Primary, Some((2, 0, 3)));
    assert_eq!(out, ClickOutcome::Spawn(Placement { cell: (2, 0, 3), model_index: 0 }));
    assert!(!grid.is_occupied((2, 0, 3)));
    grid.place((2, 0, 3), 500);
    assert_eq!(
        on_click(&mut grid, &palette, PointerButton::Primary, Some((2, 0, 3))),
        ClickOutcome::Ignored
    );
    assert_eq!(
        on_click(&mut grid, &palette, PointerButton::Middle, Some((2, 0, 3))),
        ClickOutcome::Ignored
    );
    assert!(grid.is_occupied((2, 0, 3)));
    assert_eq!(
        on_click(&mut grid, &palette, PointerButton::Secondary, Some((2, 0, 3))),
        ClickOutcome::Despawn(500)
    );
    assert!(!grid.is_occupied((2, 0, 3)));
    assert_eq!(
        on_click(&mut grid, &palette, PointerButton::Secondary, Some((2, 0, 3))),
        ClickOutcome::Ignored
    );
}

#[test]
fn place_then_remove_restores_grid() {
    let mut grid = WorldGrid::new();
    grid.place((0, 0, 1), 1);
    grid.place((7, 0, 1), 2);
    assert_eq!(grid.place((-1, 0, -1), 3), None);
    assert_eq!(grid_right_click(&mut grid, Some((-1, 0, -1))), Some(3));
    assert!(!grid.is_occupied((-1, 0, -1)));
    assert_eq!(delete_entity(&mut grid, (0, 0, 1)), Some(1));
    assert_eq!(delete_entity(&mut grid, (7, 0, 1)), Some(2));
}

#[test]
fn placing_keeps_earlier_models() {
    let mut grid = WorldGrid::new();
    let palette = palette_with(&["a.glb", "b.glb"], Some(0));
    grid.place((1, 0, 1), 11);
    let plan = left_click(&grid, &palette, Some((1, 0, 2))).unwrap();
    grid.place(plan.cell, 12);
    assert_eq!(delete_entity(&mut grid, (1, 0, 1)), Some(11));
    assert_eq!(delete_entity(&mut grid, (1, 0, 2)), Some(12));
}

#[test]
fn extreme_cells_are_distinct() {
    let mut grid = WorldGrid::new();
    grid.place((i32::MIN, 0, i32::MAX), 1);
    assert!(grid.is_occupied((i32::MIN, 0, i32::MAX)));
    assert!(!grid.is_occupied((i32::MAX, 0, i32::MIN)));
}
