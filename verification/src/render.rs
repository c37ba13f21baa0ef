//! Rendering: the cell buffer, the frame differ and the renderer.

pub mod backend;
pub mod buffer;
pub mod diff;
pub mod renderer;

pub use backend::Backend;
pub use buffer::Buffer;
pub use buffer::Cell;
pub use diff::compute_diff;
pub use diff::compute_diff_precise;
pub use diff::DirtyRegion;
pub use renderer::Renderer;
