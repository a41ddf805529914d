//! The decisions of a small grid-based level editor: where models are placed
//! and removed, which model the palette has selected, where the preview
//! follows the cursor, and how the camera keys turn into motion.
pub mod cell_map;
pub mod pannel;
pub mod picker;
pub mod camera;
