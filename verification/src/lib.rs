//! Singularity: a compile-time dependency resolver.
//!
//! Dependencies are resolved statically, via type constraints, with no
//! service locator and no runtime reflection.  A [`container::Container`]
//! is a stateless handle; asking it for a type walks the type's declared
//! dependency aggregate recursively and applies each type's construction
//! function.

pub mod container;
pub mod derive_input;
pub mod examples;
pub mod injectable_struct;
pub mod struct_kind;

pub use container::Container;
pub use container::Injectable;
pub use container::Invokable;
pub use container::ResolveDepsFrom;
pub use container::Scope;
