//! The asset palette: the models imported so far and the one selected.
use crate::cell_map::Cell;
use crate::picker::{left_click_plan, Placement, PreEntity};
use vstd::prelude::*;
use vstd::string::StringExecFns;

verus! {

/// The imported models, each a display name and a loaded scene handle, in
/// the order they were imported, and the index that was last selected.
pub struct AssetPalette<H> {
    pub loaded_models: Vec<(String, H)>,
    pub selected_index: Option<usize>,
}

impl<H> AssetPalette<H> {
    /// A palette with no model and no selection.
    pub fn new() -> (palette: AssetPalette<H>)
        ensures
            palette.loaded_models@.len() == 0,
            palette.selected_index is None,
    {
        AssetPalette { loaded_models: Vec::new(), selected_index: None }
    }

    /// Adds an imported model at the end of the palette and returns its
    /// index; the models already there keep their indices.
    pub fn register_model(&mut self, name: String, handle: H) -> (index: usize)
        ensures
            final(self).loaded_models@ == old(self).loaded_models@.push((name, handle)),
            final(self).selected_index == old(self).selected_index,
            index == old(self).loaded_models@.len(),
    {
        self.loaded_models.push((name, handle));
        self.loaded_models.len() - 1
    }
}

impl<H> Default for AssetPalette<H> {
    fn default() -> (palette: AssetPalette<H>)
        ensures
            palette.loaded_models@.len() == 0,
            palette.selected_index is None,
    {
        AssetPalette::new()
    }
}

/// A new preview to show after a palette button was pressed: spawn the model
/// `model_index`, after despawning the old preview entity, if there was one.
/// Once spawned, the new entity is recorded with [`PreEntity::attach`].
#[derive(Clone, Copy, Debug, PartialEq, Eq)]
pub struct PreviewSwap {
    pub model_index: usize,
    pub despawn: Option<u64>,
}

impl PreEntity {
    /// Records the newly spawned preview entity.
    pub fn attach(&mut self, entity: u64)
        ensures
            *final(self) == (PreEntity { entity: Some(entity), ..*old(self) }),
    {
        self.entity = Some(entity);
    }
}

/// A press on the palette button for model `index`.  The palette selects
/// `index` whether or not it names a model.  When it names one, that model
/// becomes the previewed one and the old preview entity is handed back to be
/// despawned; otherwise the preview stays as it was.
pub fn on_asset_selected<H>(
    palette: &mut AssetPalette<H>,
    pre_entity: &mut PreEntity,
    index: usize,
) -> (swap: Option<PreviewSwap>)
    ensures
        final(palette).loaded_models@ == old(palette).loaded_models@,
        final(palette).selected_index == Some(index),
        index < old(palette).loaded_models@.len() ==> {
            &&& swap == Some(PreviewSwap { model_index: index, despawn: old(pre_entity).entity })
            &&& *final(pre_entity) == (PreEntity {
                origin_mesh: Some(index),
                entity: None,
                ..*old(pre_entity)
            })
        },
        index >= old(palette).loaded_models@.len() ==> {
            &&& swap is None
            &&& *final(pre_entity) == *old(pre_entity)
        },
{
    palette.selected_index = Some(index);
    if index >= palette.loaded_models.len() {
        return None;
    }
    pre_entity.origin_mesh = Some(index);
    let despawn = pre_entity.entity;
    pre_entity.entity = None;
    Some(PreviewSwap { model_index: index, despawn })
}

/// Where an imported file with name `file_name` is copied to.
pub open spec fn import_destination_of(file_name: Seq<char>) -> Seq<char> {
    "assets/imports/"@ + file_name
}

/// The asset path under which the first scene of the imported file is
/// loaded, relative to the asset folder.
pub open spec fn scene_asset_path_of(file_name: Seq<char>) -> Seq<char> {
    "imports/"@ + file_name + "#Scene0"@
}

/// The path, `assets/imports/` followed by the file name, that an imported
/// model file is copied to.
pub fn import_destination(file_name: &str) -> (dest: String)
    ensures
        dest@ == import_destination_of(file_name@),
        dest@.len() == 15 + file_name@.len(),
        dest@.subrange(0, 15) == "assets/imports/"@,
        dest@.subrange(15, dest@.len() as int) == file_name@,
{
    proof {
        lemma_import_paths_keep_whole_name(file_name@);
    }
    let mut dest = String::from_str("assets/imports/");
    dest.append(file_name);
    dest
}

/// The asset path, `imports/` followed by the file name and `#Scene0`, that
/// loads the first scene of an imported model.
pub fn scene_asset_path(file_name: &str) -> (path: String)
    ensures
        path@ == scene_asset_path_of(file_name@),
        path@.len() == 8 + file_name@.len() + 7,
        path@.subrange(0, 8) == "imports/"@,
        path@.subrange(8, 8int + file_name@.len()) == file_name@,
        path@.subrange(8int + file_name@.len(), path@.len() as int) == "#Scene0"@,
{
    proof {
        lemma_import_paths_keep_whole_name(file_name@);
    }
    let mut path = String::from_str("imports/");
    path.append(file_name);
    path.append("#Scene0");
    path
}

/// A registered model is found again at the index that registration
/// returned, and every model registered before keeps its index.
pub proof fn lemma_register_keeps_indices<H>(models: Seq<(String, H)>, entry: (String, H))
    ensures
        models.push(entry).len() == models.len() + 1,
        models.push(entry)[models.len() as int] == entry,
        forall|i: int| 0 <= i < models.len() ==> #[trigger] models.push(entry)[i] == models[i],
{
}

/// Once the palette button of a loaded model is pressed, a left click on a
/// free cell places that model there.
pub proof fn lemma_selected_model_is_placed(
    cells: Map<Cell, u64>,
    index: usize,
    model_count: nat,
    cell: Cell,
)
    requires
        index < model_count,
        !cells.contains_key(cell),
    ensures
        left_click_plan(cells, Some(index), model_count, Some(cell)) == Some(
            Placement { cell, model_index: index },
        ),
{
}

/// For every file name, the copy destination is the 15 characters
/// `assets/imports/` followed by the whole file name, and the asset path is
/// the 8 characters `imports/`, the whole file name, then the 7 characters
/// `#Scene0`: the name is kept whole, so distinct names give distinct paths.
pub proof fn lemma_import_paths_keep_whole_name(file_name: Seq<char>)
    ensures
        import_destination_of(file_name).len() == 15 + file_name.len(),
        import_destination_of(file_name).subrange(0, 15) == "assets/imports/"@,
        import_destination_of(file_name).subrange(15, 15int + file_name.len()) == file_name,
        scene_asset_path_of(file_name).len() == 8 + file_name.len() + 7,
        scene_asset_path_of(file_name).subrange(0, 8) == "imports/"@,
        scene_asset_path_of(file_name).subrange(8, 8int + file_name.len()) == file_name,
        scene_asset_path_of(file_name).subrange(8int + file_name.len(), 15int + file_name.len())
            == "#Scene0"@,
{
    reveal_strlit("assets/imports/");
    reveal_strlit("imports/");
    reveal_strlit("#Scene0");
    let d = import_destination_of(file_name);
    let a = scene_asset_path_of(file_name);
    assert(d.subrange(0, 15) =~= "assets/imports/"@);
    assert(d.subrange(15, 15int + file_name.len()) =~= file_name);
    assert(a.subrange(0, 8) =~= "imports/"@);
    assert(a.subrange(8, 8int + file_name.len()) =~= file_name);
    assert(a.subrange(8int + file_name.len(), 15int + file_name.len()) =~= "#Scene0"@);
}

/// Two different file names are copied to different destinations and
/// loaded from different asset paths.
pub proof fn lemma_import_paths_distinguish_names(a: Seq<char>, b: Seq<char>)
    requires
        a != b,
    ensures
        import_destination_of(a) != import_destination_of(b),
        scene_asset_path_of(a) != scene_asset_path_of(b),
{
    lemma_import_paths_keep_whole_name(a);
    lemma_import_paths_keep_whole_name(b);
    if import_destination_of(a) == import_destination_of(b) {
        assert(a =~= b);
    }
    if scene_asset_path_of(a) == scene_asset_path_of(b) {
        assert(a.len() == b.len());
        assert(a =~= b);
    }
}

/// The file that the asset path loads is the file that the import copied:
/// the asset folder `assets/` followed by the asset path is the import
/// destination followed by the scene label.
pub proof fn lemma_import_path_matches_asset_path(file_name: Seq<char>)
    ensures
        "assets/"@ + scene_asset_path_of(file_name) == import_destination_of(file_name) + "#Scene0"@,
{
    reveal_strlit("assets/");
    reveal_strlit("imports/");
    reveal_strlit("assets/imports/");
    assert("assets/"@ + "imports/"@ =~= "assets/imports/"@);
    assert("assets/"@ + scene_asset_path_of(file_name) =~= import_destination_of(file_name)
        + "#Scene0"@);
}

} // verus!
