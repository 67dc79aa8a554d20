//! Verified core of a GPU-rendered plugin editor: which surface format and
//! configuration the renderer uses, how it answers window events, and what
//! the editor reports to its host. Windowing, GPU submission and the host's
//! parameter calls are carried out by the caller, following the decisions
//! made here.

pub mod editor;
pub mod render;
pub mod surface;
pub mod vertex;

pub use editor::WgpuEditor;
pub use render::WgpuRenderer;
