//! A reactive terminal user-interface library: a character-cell screen driven
//! by a declarative component tree over reactive state, with a frame differ,
//! a layout engine, focus management, event routing and a command engine.

pub mod animation;
pub mod command;
pub mod error;
pub mod event;
pub mod event_router;
pub mod focus;
pub mod frame;
pub mod layout;
pub mod plugin;
pub mod render;
pub mod state;
pub mod sync;
pub mod theme;
pub mod view;

pub use layout::Rect;
