//! Transport of type-erased values. A value is boxed behind a capability
//! interface (introspectable, displayable, debuggable, error-like), framed as
//! its type's selector followed by its own serialized bytes, and rebuilt on the
//! receiving side through a registry of the selectors this process knows. The
//! rebuilt box downcasts back to the type it was erased from, or hands itself back.
pub mod capability;
pub mod erased;
pub mod factory;
pub mod laws;
pub mod registry;
pub mod traits;
pub mod wire;
