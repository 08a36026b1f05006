//! Typed, comparable, hashable handles for objects kept in an external store.
//!
//! A [`HandleKey`] is the identity of such an object: a static label, an
//! owned label, or a numeric index. A [`Handle`] wraps a key with a
//! compile-time marker type and, for dynamically created handles, a shared
//! counter that tracks how many clones of the handle are alive.

pub mod handle;
pub mod hashing;
pub mod key;
pub mod render;

pub use handle::Handle;
pub use key::HandleKey;
pub use key::KeyView;
