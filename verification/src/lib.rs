//! Outrider: the verified core of a spatial code-map viewer. Colour
//! derivation, texture-cache bookkeeping, persistent texture-file framing,
//! settings repair and editing, project filter categories, the symbol-tree
//! index, search matching, text wrapping and colour runs for the paint
//! path, and the small state machines that drive keyboard routing, focus,
//! navigation, notifications and background loading.

pub mod theme;
pub mod text;
pub mod symbol;
pub mod hash;
pub mod project_settings;
pub mod palette;
pub mod texture_store;
pub mod keyed;
pub mod rasterize;
pub mod navigation;
pub mod overlays;
pub mod paint_model;
pub mod project_loader;
pub mod settings;
pub mod gibibytes;
pub mod settings_draft;
pub mod texture_cache;
pub mod disk_worker;
pub mod tree_index;
pub mod focus;
pub mod buffers;
pub mod world;
pub mod content;
pub mod interaction;
