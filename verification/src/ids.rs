//! Opaque handles into the append-only interning tables of the symbol
//! database.
//!
//! The database owns the tables; this crate never dereferences a handle
//! directly, it only asks the naming context for a short name, a fully
//! qualified path, or (for types) a rendered string. Keeping the handles as
//! small integers keeps equality cheap and identity stable across incremental
//! recomputation.

use vstd::prelude::*;

verus! {

/// Handle of an interface ("trait") declaration.
#[derive(Clone, Copy, Debug, PartialEq, Eq, Hash, Structural)]
pub struct TraitId(pub usize);

/// Handle of one function signature declared by an interface.
#[derive(Clone, Copy, Debug, PartialEq, Eq, Hash, Structural)]
pub struct TraitFunctionId(pub usize);

/// Handle of a concrete implementation of an interface.
#[derive(Clone, Copy, Debug, PartialEq, Eq, Hash, Structural)]
pub struct ImplDefId(pub usize);

/// Handle of one function inside an implementation.
#[derive(Clone, Copy, Debug, PartialEq, Eq, Hash, Structural)]
pub struct ImplFunctionId(pub usize);

/// Handle of a struct declaration.
#[derive(Clone, Copy, Debug, PartialEq, Eq, Hash, Structural)]
pub struct StructId(pub usize);

/// Handle of an enum declaration.
#[derive(Clone, Copy, Debug, PartialEq, Eq, Hash, Structural)]
pub struct EnumId(pub usize);

/// Handle of a free function's signature.
#[derive(Clone, Copy, Debug, PartialEq, Eq, Hash, Structural)]
pub struct FunctionSignatureId(pub usize);

/// Handle of a fully resolved type. Two types are the same type exactly when
/// their handles are equal (the external inference engine interns them).
#[derive(Clone, Copy, Debug, PartialEq, Eq, Hash, Structural)]
pub struct TypeId(pub usize);

/// Handle of an interface together with a specific substitution of its
/// generic arguments.
#[derive(Clone, Copy, Debug, PartialEq, Eq, Hash, Structural)]
pub struct ConcreteTraitId(pub usize);

/// Handle of one file of one module.
#[derive(Clone, Copy, Debug, PartialEq, Eq, Hash, Structural)]
pub struct ModuleFileId(pub usize);

/// Handle of a source file.
#[derive(Clone, Copy, Debug, PartialEq, Eq, Hash, Structural)]
pub struct FileId(pub usize);

/// A structural pointer to a syntax node, robust to unrelated edits elsewhere
/// in the file; the source map resolves it to a byte span only when a finding
/// is displayed.
#[derive(Clone, Copy, Debug, PartialEq, Eq, Hash, Structural)]
pub struct SyntaxStablePtrId(pub usize);

} // verus!
