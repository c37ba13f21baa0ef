//! Reactive state: signals, derived values and the shared store.

pub mod derived;
pub mod signal;
pub mod store;

pub use derived::Derived;
pub use signal::Signal;
pub use signal::Subscription;
pub use store::Store;
