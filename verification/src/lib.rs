//! Derivation of the familiar `Option`/`Result`-style helper vocabulary
//! (`is`, `ok`, `unwrap_or`, `and_then`, ...) for the variants of a sum type.
//!
//! The crate models a sum-type declaration as plain data ([`input::EnumDecl`]),
//! resolves each variant's used name (honouring a rename override), validates
//! that no two variants derive colliding names, and emits one implementation
//! block of helper functions per variant, as source text
//! ([`emit::derive_variantly_fns`]).
//!
//! The behaviour that the emitted functions promise is itself written out and
//! proved on two representative sum types ([`expanded::TestEnum`] and
//! [`shapes::TestEnum`]), one method per emitted template.

pub mod emit;
pub mod error;
pub mod expanded;
pub mod idents;
pub mod input;
pub mod laws;
pub mod shapes;
