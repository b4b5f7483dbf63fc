//! Apply one structured edit to a source file: locate a named top-level
//! declaration (a function or a struct), and replace it, remove it, or
//! append a new one if no match exists; then render the result back to
//! text for comparison with the original.

pub mod decl;
pub mod laws;
pub mod parse;
pub mod patch;
pub mod render;

pub use decl::DeclKind;
pub use decl::Declaration;
pub use decl::SourceFile;
pub use decl::match_item;
pub use decl::str_eq;
pub use patch::PatchError;
pub use patch::apply_patch;
pub use patch::locate;
pub use patch::modify_items;
pub use patch::parse_kind;
pub use render::canonical_source;
pub use render::changes_detected;
pub use render::render;
