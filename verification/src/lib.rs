//! Packaging of a compiled desktop application as a sandboxed Flatpak bundle:
//! the staging layout, the manifest record and its rendering, the order of
//! the external tools, and the small helpers an application uses at run time
//! inside the sandbox.

pub mod text;
pub mod arch;
pub mod paths;
pub mod settings;
pub mod layout;
pub mod error;
pub mod json;
pub mod manifest;
pub mod render;
pub mod commands;
pub mod pipeline;
pub mod bundle;
pub mod shell;
pub mod portal;
pub mod flatpak_info;
