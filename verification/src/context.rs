//! The naming side of the external symbol database, and the source map of the
//! external stable-location provider.
//!
//! The database itself is an external collaborator: it interns symbols and
//! types into append-only arenas and hands this crate opaque integer handles
//! (see [`crate::ids`]). All this crate ever asks of it is a short name, a
//! fully qualified path, a rendered type, or the long form of a concrete
//! trait, so the context is modelled as exactly those side tables, each
//! indexed by the handle's integer.

use vstd::prelude::*;

use crate::ids::{
    ConcreteTraitId, EnumId, FileId, FunctionSignatureId, ImplDefId, ImplFunctionId, ModuleFileId,
    StructId, SyntaxStablePtrId, TraitFunctionId, TraitId, TypeId,
};
use crate::TextSpan;

verus! {

/// The long form of a concrete trait: the interface handle together with the
/// ordered generic-argument types substituted into it.
pub struct ConcreteTraitLongId {
    pub trait_id: TraitId,
    pub generic_args: Vec<TypeId>,
}

/// Read-only naming tables of the symbol database, one per handle kind.
///
/// `xyz_names` holds short names, `xyz_paths` fully qualified paths, and
/// `type_names` the rendered form of each interned type. `concrete_traits`
/// maps a [`ConcreteTraitId`] back to its long form.
pub struct NamingContext {
    pub trait_names: Vec<String>,
    pub trait_paths: Vec<String>,
    pub impl_names: Vec<String>,
    pub impl_paths: Vec<String>,
    pub impl_fn_names: Vec<String>,
    pub trait_fn_names: Vec<String>,
    pub trait_fn_paths: Vec<String>,
    pub struct_paths: Vec<String>,
    pub enum_paths: Vec<String>,
    pub signature_paths: Vec<String>,
    pub type_names: Vec<String>,
    pub concrete_traits: Vec<ConcreteTraitLongId>,
}

impl NamingContext {
    pub open spec fn trait_in(self, id: TraitId) -> bool {
        id.0 < self.trait_names.len() && id.0 < self.trait_paths.len()
    }

    pub open spec fn impl_in(self, id: ImplDefId) -> bool {
        id.0 < self.impl_names.len() && id.0 < self.impl_paths.len()
    }

    pub open spec fn impl_fn_in(self, id: ImplFunctionId) -> bool {
        id.0 < self.impl_fn_names.len()
    }

    pub open spec fn trait_fn_in(self, id: TraitFunctionId) -> bool {
        id.0 < self.trait_fn_names.len() && id.0 < self.trait_fn_paths.len()
    }

    pub open spec fn struct_in(self, id: StructId) -> bool {
        id.0 < self.struct_paths.len()
    }

    pub open spec fn enum_in(self, id: EnumId) -> bool {
        id.0 < self.enum_paths.len()
    }

    pub open spec fn signature_in(self, id: FunctionSignatureId) -> bool {
        id.0 < self.signature_paths.len()
    }

    pub open spec fn type_in(self, id: TypeId) -> bool {
        id.0 < self.type_names.len()
    }

    /// A concrete trait handle is interned and its long form in turn only
    /// holds interned handles.
    pub open spec fn concrete_trait_in(self, id: ConcreteTraitId) -> bool {
        &&& id.0 < self.concrete_traits.len()
        &&& self.trait_in(self.concrete_traits@[id.0 as int].trait_id)
        &&& forall|i: int|
            0 <= i < self.concrete_traits@[id.0 as int].generic_args@.len() ==> self.type_in(
                #[trigger] self.concrete_traits@[id.0 as int].generic_args@[i],
            )
    }

    /// The rendered form of a type, as the database interned it.
    pub open spec fn spec_rendered_type(self, id: TypeId) -> Seq<char> {
        self.type_names@[id.0 as int]@
    }

    pub fn rendered_type(&self, id: TypeId) -> (r: &String)
        requires
            self.type_in(id),
        ensures
            r@ == self.spec_rendered_type(id),
    {
        &self.type_names[id.0]
    }

    pub open spec fn spec_trait_name(self, id: TraitId) -> Seq<char> {
        self.trait_names@[id.0 as int]@
    }

    pub fn trait_name(&self, id: TraitId) -> (r: &String)
        requires
            self.trait_in(id),
        ensures
            r@ == self.spec_trait_name(id),
    {
        &self.trait_names[id.0]
    }

    pub open spec fn spec_trait_path(self, id: TraitId) -> Seq<char> {
        self.trait_paths@[id.0 as int]@
    }

    pub fn trait_path(&self, id: TraitId) -> (r: &String)
        requires
            self.trait_in(id),
        ensures
            r@ == self.spec_trait_path(id),
    {
        &self.trait_paths[id.0]
    }

    pub open spec fn spec_impl_name(self, id: ImplDefId) -> Seq<char> {
        self.impl_names@[id.0 as int]@
    }

    pub fn impl_name(&self, id: ImplDefId) -> (r: &String)
        requires
            self.impl_in(id),
        ensures
            r@ == self.spec_impl_name(id),
    {
        &self.impl_names[id.0]
    }

    pub open spec fn spec_impl_path(self, id: ImplDefId) -> Seq<char> {
        self.impl_paths@[id.0 as int]@
    }

    pub fn impl_path(&self, id: ImplDefId) -> (r: &String)
        requires
            self.impl_in(id),
        ensures
            r@ == self.spec_impl_path(id),
    {
        &self.impl_paths[id.0]
    }

    pub open spec fn spec_impl_fn_name(self, id: ImplFunctionId) -> Seq<char> {
        self.impl_fn_names@[id.0 as int]@
    }

    pub fn impl_fn_name(&self, id: ImplFunctionId) -> (r: &String)
        requires
            self.impl_fn_in(id),
        ensures
            r@ == self.spec_impl_fn_name(id),
    {
        &self.impl_fn_names[id.0]
    }

    pub open spec fn spec_trait_fn_name(self, id: TraitFunctionId) -> Seq<char> {
        self.trait_fn_names@[id.0 as int]@
    }

    pub fn trait_fn_name(&self, id: TraitFunctionId) -> (r: &String)
        requires
            self.trait_fn_in(id),
        ensures
            r@ == self.spec_trait_fn_name(id),
    {
        &self.trait_fn_names[id.0]
    }

    pub open spec fn spec_trait_fn_path(self, id: TraitFunctionId) -> Seq<char> {
        self.trait_fn_paths@[id.0 as int]@
    }

    pub fn trait_fn_path(&self, id: TraitFunctionId) -> (r: &String)
        requires
            self.trait_fn_in(id),
        ensures
            r@ == self.spec_trait_fn_path(id),
    {
        &self.trait_fn_paths[id.0]
    }

    pub open spec fn spec_struct_path(self, id: StructId) -> Seq<char> {
        self.struct_paths@[id.0 as int]@
    }

    pub fn struct_path(&self, id: StructId) -> (r: &String)
        requires
            self.struct_in(id),
        ensures
            r@ == self.spec_struct_path(id),
    {
        &self.struct_paths[id.0]
    }

    pub open spec fn spec_enum_path(self, id: EnumId) -> Seq<char> {
        self.enum_paths@[id.0 as int]@
    }

    pub fn enum_path(&self, id: EnumId) -> (r: &String)
        requires
            self.enum_in(id),
        ensures
            r@ == self.spec_enum_path(id),
    {
        &self.enum_paths[id.0]
    }

    pub open spec fn spec_signature_path(self, id: FunctionSignatureId) -> Seq<char> {
        self.signature_paths@[id.0 as int]@
    }

    pub fn signature_path(&self, id: FunctionSignatureId) -> (r: &String)
        requires
            self.signature_in(id),
        ensures
            r@ == self.spec_signature_path(id),
    {
        &self.signature_paths[id.0]
    }

    pub open spec fn spec_concrete_trait(self, id: ConcreteTraitId) -> ConcreteTraitLongId {
        self.concrete_traits@[id.0 as int]
    }

    pub fn concrete_trait(&self, id: ConcreteTraitId) -> (r: &ConcreteTraitLongId)
        requires
            id.0 < self.concrete_traits.len(),
        ensures
            *r == self.spec_concrete_trait(id),
    {
        &self.concrete_traits[id.0]
    }
}

/// The stable-location provider's resolution tables: which source file each
/// module file lives in, and the byte span each structural pointer currently
/// denotes. Unrelated edits elsewhere in a file change these tables, never the
/// pointers, which is what keeps findings identity-stable.
pub struct SourceMap {
    pub module_files: Vec<FileId>,
    pub spans: Vec<TextSpan>,
}

impl SourceMap {
    pub open spec fn module_file_in(self, id: ModuleFileId) -> bool {
        id.0 < self.module_files.len()
    }

    pub open spec fn ptr_in(self, ptr: SyntaxStablePtrId) -> bool {
        ptr.0 < self.spans.len()
    }

    pub open spec fn spec_file_of(self, id: ModuleFileId) -> FileId {
        self.module_files@[id.0 as int]
    }

    pub fn file_of(&self, id: ModuleFileId) -> (r: FileId)
        requires
            self.module_file_in(id),
        ensures
            r == self.spec_file_of(id),
    {
        self.module_files[id.0]
    }

    pub open spec fn spec_span_of(self, ptr: SyntaxStablePtrId) -> TextSpan {
        self.spans@[ptr.0 as int]
    }

    pub fn span_of(&self, ptr: SyntaxStablePtrId) -> (r: TextSpan)
        requires
            self.ptr_in(ptr),
        ensures
            r == self.spec_span_of(ptr),
    {
        self.spans[ptr.0]
    }
}

} // verus!
