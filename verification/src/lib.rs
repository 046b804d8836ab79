//! Render a tree of command-line interface definitions into Markdown
//! documentation, one document per command, with deterministic file
//! naming that mirrors the command hierarchy.

pub mod laws;
pub mod model;
pub mod render;
pub mod text;
pub mod walk;

pub use model::get_canonical_name;
pub use render::write_arg_markdown;
pub use render::write_command_markdown;
pub use text::get_alias_string;
pub use text::indent;
pub use text::pluralize;
pub use walk::generate_command_to;
pub use walk::generate_to;
