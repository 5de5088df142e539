//! The diagnostic data model: a single finding, its kind, and the
//! append-only, insertion-order-preserving collection findings accumulate in.
//!
//! A finding is an immutable value of stable location, kind and positioning
//! flag; two findings are equal exactly when all three parts are, which is
//! what downstream deduplication across incremental recomputation rests on.
//! Contracts throughout the crate speak of findings through the ghost
//! [`DiagModel`] view, which abstracts every owned string to its character
//! sequence.

use vstd::prelude::*;

use crate::ids::{
    ConcreteTraitId, EnumId, FileId, FunctionSignatureId, ImplDefId, ImplFunctionId, ModuleFileId,
    StructId, SyntaxStablePtrId, TraitFunctionId, TraitId, TypeId,
};
use crate::TextSpan;

verus! {

/// A source position that survives unrelated edits elsewhere in the file:
/// the owning module file plus a structural pointer to a syntax node. It is
/// resolved to a concrete file and byte span only when a finding is displayed.
#[derive(Clone, Copy, Debug, PartialEq, Eq, Hash, Structural)]
pub struct StableLocation {
    pub module_file_id: ModuleFileId,
    pub stable_ptr: SyntaxStablePtrId,
}

impl StableLocation {
    pub fn new(module_file_id: ModuleFileId, stable_ptr: SyntaxStablePtrId) -> (r: Self)
        ensures
            r == (StableLocation { module_file_id, stable_ptr }),
    {
        StableLocation { module_file_id, stable_ptr }
    }

    /// The stable location of a syntax node in the given module file.
    pub fn from_ast(module_file_id: ModuleFileId, node: &SyntaxNode) -> (r: Self)
        ensures
            r == (StableLocation { module_file_id, stable_ptr: node.stable_ptr }),
    {
        StableLocation { module_file_id, stable_ptr: node.stable_ptr }
    }
}

/// A syntax node, as far as this crate reads one: the structural pointer the
/// external parser assigned to it.
#[derive(Clone, Copy, Debug, PartialEq, Eq, Hash, Structural)]
pub struct SyntaxNode {
    pub stable_ptr: SyntaxStablePtrId,
}

/// A fully resolved display position: source file and byte span.
#[derive(Clone, Copy, Debug, PartialEq, Eq, Hash, Structural)]
pub struct DiagnosticLocation {
    pub file_id: FileId,
    pub span: TextSpan,
}

impl DiagnosticLocation {
    /// The same location collapsed to the zero-width point after its span.
    pub fn after(self) -> (r: DiagnosticLocation)
        ensures
            r.file_id == self.file_id,
            r.span.start == self.span.end,
            r.span.end == self.span.end,
    {
        DiagnosticLocation { file_id: self.file_id, span: self.span.after() }
    }
}

/// A finding supplied by an external plugin: an opaque message with the byte
/// span the plugin anchored it to. Such findings are rendered as-is and never
/// re-validated.
#[derive(Clone, Debug, PartialEq, Eq, Hash)]
pub struct PluginDiagnostic {
    pub span: TextSpan,
    pub message: String,
}

/// A plugin finding that was mapped back onto user-written code, carried
/// alongside the native finding it was derived from.
#[derive(Clone, Debug, PartialEq, Eq, Hash)]
pub struct PluginMappedDiagnostic {
    pub span: TextSpan,
    pub message: String,
}

/// The category of item a path was expected to resolve to.
#[derive(Clone, Copy, Debug, PartialEq, Eq, Hash, Structural)]
pub enum NotFoundItemType {
    Identifier,
    Function,
    Type,
    Trait,
    Impl,
}

/// A language feature that is only meaningful inside a function body.
#[derive(Clone, Copy, Debug, PartialEq, Eq, Hash, Structural)]
pub enum UnsupportedOutsideOfFunctionFeatureName {
    FunctionCall,
    ReturnStatement,
    ErrorPropagate,
}

/// The kind of language element a path resolved to.
#[derive(Clone, Copy, Debug, PartialEq, Eq, Hash, Structural)]
pub enum ElementKind {
    Constant,
    Variable,
    Module,
    Function,
    TraitFunction,
    Type,
    Variant,
    Trait,
    Impl,
}

/// What went wrong, as a closed tagged union. Each variant carries exactly
/// the payload its rendered message and its tests need.
#[derive(Debug, PartialEq, Eq, Hash)]
pub enum SemanticDiagnosticKind {
    ModuleFileNotFound { path: String },
    Unsupported,
    UnknownLiteral,
    UnsupportedUnaryOperator { op: String, ty: TypeId },
    UnknownBinaryOperator,
    UnsupportedBinaryOperator { op: String, type1: TypeId, type2: TypeId },
    UnknownFunction,
    UnknownTrait,
    UnknownImpl,
    UnexpectedElement { expected: Vec<ElementKind>, actual: ElementKind },
    UnknownType,
    UnknownStruct,
    UnknownEnum,
    NoLiteralFunctionFound,
    NotAVariant,
    NotAStruct,
    NotAType,
    NotATrait,
    FunctionNotMemberOfTrait {
        impl_def_id: ImplDefId,
        impl_function_id: ImplFunctionId,
        trait_id: TraitId,
    },
    UnexpectedGenericArgs,
    UnknownMember,
    MemberSpecifiedMoreThanOnce,
    UseCycle,
    TypeAliasCycle,
    ExpectedConcreteVariant,
    MissingMember { member_name: String },
    WrongNumberOfParameters {
        impl_def_id: ImplDefId,
        impl_function_id: ImplFunctionId,
        trait_id: TraitId,
        expected: usize,
        actual: usize,
    },
    WrongNumberOfArguments { expected: usize, actual: usize },
    WrongNumberOfGenericArguments { expected: usize, actual: usize },
    ConstGenericInferenceUnsupported,
    ImplGenericsUnsupported,
    WrongParameterType {
        impl_def_id: ImplDefId,
        impl_function_id: ImplFunctionId,
        trait_id: TraitId,
        expected_ty: TypeId,
        actual_ty: TypeId,
    },
    VariantCtorNotImmutable,
    TraitParamMutable { trait_id: TraitId, function_id: TraitFunctionId },
    TraitFunctionWithBody { trait_id: TraitId, function_id: TraitFunctionId },
    ParamaterShouldBeReference {
        impl_def_id: ImplDefId,
        impl_function_id: ImplFunctionId,
        trait_id: TraitId,
    },
    ParameterShouldNotBeReference {
        impl_def_id: ImplDefId,
        impl_function_id: ImplFunctionId,
        trait_id: TraitId,
    },
    WrongType { expected_ty: TypeId, actual_ty: TypeId },
    WrongArgumentType { expected_ty: TypeId, actual_ty: TypeId },
    WrongReturnType { expected_ty: TypeId, actual_ty: TypeId },
    WrongReturnTypeForImpl {
        impl_def_id: ImplDefId,
        impl_function_id: ImplFunctionId,
        trait_id: TraitId,
        expected_ty: TypeId,
        actual_ty: TypeId,
    },
    NoImplementationOfTraitFunction {
        concrete_trait_id: ConcreteTraitId,
        function_name: String,
    },
    AmbiguousTrait {
        trait_function_id0: TraitFunctionId,
        trait_function_id1: TraitFunctionId,
    },
    MultipleImplementationOfTraitFunction {
        trait_id: TraitId,
        all_impl_ids: Vec<ImplDefId>,
        function_name: String,
    },
    VariableNotFound { name: String },
    StructMemberRedefinition { struct_id: StructId, member_name: String },
    EnumVariantRedefinition { enum_id: EnumId, variant_name: String },
    ParamNameRedefinition { function_signature_id: FunctionSignatureId, param_name: String },
    IncompatibleMatchArms { match_ty: TypeId, arm_ty: TypeId },
    IncompatibleIfBlockTypes { block_if_ty: TypeId, block_else_ty: TypeId },
    TypeHasNoMembers { ty: TypeId, member_name: String },
    TypeYetUnknown,
    NoSuchMember { struct_id: StructId, member_name: String },
    NoSuchVariant { enum_id: EnumId, variant_name: String },
    IncompatibleErrorPropagateType { return_ty: TypeId, err_ty: TypeId },
    ErrorPropagateOnNonErrorType { ty: TypeId },
    RefArgNotAVariable,
    RefArgNotMutable,
    RefArgNotExplicit,
    ImmutableArgWithModifiers,
    AssignmentToImmutableVar,
    InvalidLhsForAssignment,
    InvalidMemberExpression,
    InvalidPath,
    PathNotFound(NotFoundItemType),
    SuperUsedInRootModule,
    RedundantModifier { current_modifier: String, previous_modifier: String },
    ReferenceLocalVariable,
    UnexpectedLiteralPattern { ty: TypeId },
    UnexpectedEnumPattern { ty: TypeId },
    UnexpectedStructPattern { ty: TypeId },
    UnexpectedTuplePattern { ty: TypeId },
    WrongEnum { expected_enum: EnumId, actual_enum: EnumId },
    ShortStringMustBeAscii,
    IllegalStringEscaping(String),
    InvalidCopyTraitImpl,
    InvalidDropTraitImpl,
    InvalidImplItem { item_kw: String },
    MissingItemsInImpl { item_names: Vec<String> },
    PassPanicAsNopanic { impl_function_id: ImplFunctionId, trait_id: TraitId },
    PanicableFromNonPanicable,
    PanicableExternFunction,
    PluginDiagnostic(PluginDiagnostic),
    WrappedPluginDiagnostic {
        diagnostic: PluginMappedDiagnostic,
        original_diag: Box<SemanticDiagnostic>,
    },
    NameDefinedMultipleTimes { name: String },
    NamedArgumentsAreNotSupported,
    UnnamedArgumentFollowsNamed,
    NamedArgumentMismatch { expected: String, found: String },
    UnsupportedOutsideOfFunction { feature_name: UnsupportedOutsideOfFunctionFeatureName },
    OnlyLiteralConstants,
    ExternItemWithImplGenericsNotSupported,
    MissingSemicolon,
    TraitMismatch,
}

/// One finding: where, what, and whether the reported span is the location's
/// own span or the zero-width point just after it. The kind is fixed at
/// construction; `after` only ever shifts the reported span, never the
/// diagnosed entity.
#[derive(Debug, PartialEq, Eq, Hash)]
pub struct SemanticDiagnostic {
    pub stable_location: StableLocation,
    pub kind: SemanticDiagnosticKind,
    pub after: bool,
}

impl SemanticDiagnostic {
    /// Create a finding at the given location.
    pub fn new(stable_location: StableLocation, kind: SemanticDiagnosticKind) -> (r: Self)
        ensures
            r@ == (DiagModel { location: stable_location, kind: kind@, after: false }),
    {
        SemanticDiagnostic { stable_location, kind, after: false }
    }

    /// Create a finding at the zero-width location after the given location.
    pub fn new_after(stable_location: StableLocation, kind: SemanticDiagnosticKind) -> (r: Self)
        ensures
            r@ == (DiagModel { location: stable_location, kind: kind@, after: true }),
    {
        SemanticDiagnostic { stable_location, kind, after: true }
    }
}

/// The ghost abstraction of a [`SemanticDiagnosticKind`]: the same tagged
/// union with every owned string read as its character sequence. Contracts
/// state which findings an analysis step appends in terms of this type, so
/// that they pin down the content of a finding without fixing a particular
/// heap allocation of its strings.
#[verifier::ext_equal]
pub enum KindModel {
    ModuleFileNotFound { path: Seq<char> },
    Unsupported,
    UnknownLiteral,
    UnsupportedUnaryOperator { op: Seq<char>, ty: TypeId },
    UnknownBinaryOperator,
    UnsupportedBinaryOperator { op: Seq<char>, type1: TypeId, type2: TypeId },
    UnknownFunction,
    UnknownTrait,
    UnknownImpl,
    UnexpectedElement { expected: Seq<ElementKind>, actual: ElementKind },
    UnknownType,
    UnknownStruct,
    UnknownEnum,
    NoLiteralFunctionFound,
    NotAVariant,
    NotAStruct,
    NotAType,
    NotATrait,
    FunctionNotMemberOfTrait {
        impl_def_id: ImplDefId,
        impl_function_id: ImplFunctionId,
        trait_id: TraitId,
    },
    UnexpectedGenericArgs,
    UnknownMember,
    MemberSpecifiedMoreThanOnce,
    UseCycle,
    TypeAliasCycle,
    ExpectedConcreteVariant,
    MissingMember { member_name: Seq<char> },
    WrongNumberOfParameters {
        impl_def_id: ImplDefId,
        impl_function_id: ImplFunctionId,
        trait_id: TraitId,
        expected: usize,
        actual: usize,
    },
    WrongNumberOfArguments { expected: usize, actual: usize },
    WrongNumberOfGenericArguments { expected: usize, actual: usize },
    ConstGenericInferenceUnsupported,
    ImplGenericsUnsupported,
    WrongParameterType {
        impl_def_id: ImplDefId,
        impl_function_id: ImplFunctionId,
        trait_id: TraitId,
        expected_ty: TypeId,
        actual_ty: TypeId,
    },
    VariantCtorNotImmutable,
    TraitParamMutable { trait_id: TraitId, function_id: TraitFunctionId },
    TraitFunctionWithBody { trait_id: TraitId, function_id: TraitFunctionId },
    ParamaterShouldBeReference {
        impl_def_id: ImplDefId,
        impl_function_id: ImplFunctionId,
        trait_id: TraitId,
    },
    ParameterShouldNotBeReference {
        impl_def_id: ImplDefId,
        impl_function_id: ImplFunctionId,
        trait_id: TraitId,
    },
    WrongType { expected_ty: TypeId, actual_ty: TypeId },
    WrongArgumentType { expected_ty: TypeId, actual_ty: TypeId },
    WrongReturnType { expected_ty: TypeId, actual_ty: TypeId },
    WrongReturnTypeForImpl {
        impl_def_id: ImplDefId,
        impl_function_id: ImplFunctionId,
        trait_id: TraitId,
        expected_ty: TypeId,
        actual_ty: TypeId,
    },
    NoImplementationOfTraitFunction {
        concrete_trait_id: ConcreteTraitId,
        function_name: Seq<char>,
    },
    AmbiguousTrait {
        trait_function_id0: TraitFunctionId,
        trait_function_id1: TraitFunctionId,
    },
    MultipleImplementationOfTraitFunction {
        trait_id: TraitId,
        all_impl_ids: Seq<ImplDefId>,
        function_name: Seq<char>,
    },
    VariableNotFound { name: Seq<char> },
    StructMemberRedefinition { struct_id: StructId, member_name: Seq<char> },
    EnumVariantRedefinition { enum_id: EnumId, variant_name: Seq<char> },
    ParamNameRedefinition { function_signature_id: FunctionSignatureId, param_name: Seq<char> },
    IncompatibleMatchArms { match_ty: TypeId, arm_ty: TypeId },
    IncompatibleIfBlockTypes { block_if_ty: TypeId, block_else_ty: TypeId },
    TypeHasNoMembers { ty: TypeId, member_name: Seq<char> },
    TypeYetUnknown,
    NoSuchMember { struct_id: StructId, member_name: Seq<char> },
    NoSuchVariant { enum_id: EnumId, variant_name: Seq<char> },
    IncompatibleErrorPropagateType { return_ty: TypeId, err_ty: TypeId },
    ErrorPropagateOnNonErrorType { ty: TypeId },
    RefArgNotAVariable,
    RefArgNotMutable,
    RefArgNotExplicit,
    ImmutableArgWithModifiers,
    AssignmentToImmutableVar,
    InvalidLhsForAssignment,
    InvalidMemberExpression,
    InvalidPath,
    PathNotFound(NotFoundItemType),
    SuperUsedInRootModule,
    RedundantModifier { current_modifier: Seq<char>, previous_modifier: Seq<char> },
    ReferenceLocalVariable,
    UnexpectedLiteralPattern { ty: TypeId },
    UnexpectedEnumPattern { ty: TypeId },
    UnexpectedStructPattern { ty: TypeId },
    UnexpectedTuplePattern { ty: TypeId },
    WrongEnum { expected_enum: EnumId, actual_enum: EnumId },
    ShortStringMustBeAscii,
    IllegalStringEscaping(Seq<char>),
    InvalidCopyTraitImpl,
    InvalidDropTraitImpl,
    InvalidImplItem { item_kw: Seq<char> },
    MissingItemsInImpl { item_names: Seq<Seq<char>> },
    PassPanicAsNopanic { impl_function_id: ImplFunctionId, trait_id: TraitId },
    PanicableFromNonPanicable,
    PanicableExternFunction,
    PluginDiagnostic { span: TextSpan, message: Seq<char> },
    WrappedPluginDiagnostic {
        span: TextSpan,
        message: Seq<char>,
        original_diag: Box<SemanticDiagnostic>,
    },
    NameDefinedMultipleTimes { name: Seq<char> },
    NamedArgumentsAreNotSupported,
    UnnamedArgumentFollowsNamed,
    NamedArgumentMismatch { expected: Seq<char>, found: Seq<char> },
    UnsupportedOutsideOfFunction { feature_name: UnsupportedOutsideOfFunctionFeatureName },
    OnlyLiteralConstants,
    ExternItemWithImplGenericsNotSupported,
    MissingSemicolon,
    TraitMismatch,
}

/// The ghost abstraction of one finding.
#[verifier::ext_equal]
pub struct DiagModel {
    pub location: StableLocation,
    pub kind: KindModel,
    pub after: bool,
}

impl View for SemanticDiagnosticKind {
    type V = KindModel;

    open spec fn view(&self) -> KindModel {
        match self {
            SemanticDiagnosticKind::ModuleFileNotFound { path } => KindModel::ModuleFileNotFound {
                path: path@,
            },
            SemanticDiagnosticKind::Unsupported => KindModel::Unsupported,
            SemanticDiagnosticKind::UnknownLiteral => KindModel::UnknownLiteral,
            SemanticDiagnosticKind::UnsupportedUnaryOperator { op, ty } => {
                KindModel::UnsupportedUnaryOperator { op: op@, ty: *ty }
            },
            SemanticDiagnosticKind::UnknownBinaryOperator => KindModel::UnknownBinaryOperator,
            SemanticDiagnosticKind::UnsupportedBinaryOperator { op, type1, type2 } => {
                KindModel::UnsupportedBinaryOperator { op: op@, type1: *type1, type2: *type2 }
            },
            SemanticDiagnosticKind::UnknownFunction => KindModel::UnknownFunction,
            SemanticDiagnosticKind::UnknownTrait => KindModel::UnknownTrait,
            SemanticDiagnosticKind::UnknownImpl => KindModel::UnknownImpl,
            SemanticDiagnosticKind::UnexpectedElement { expected, actual } => {
                KindModel::UnexpectedElement { expected: expected@, actual: *actual }
            },
            SemanticDiagnosticKind::UnknownType => KindModel::UnknownType,
            SemanticDiagnosticKind::UnknownStruct => KindModel::UnknownStruct,
            SemanticDiagnosticKind::UnknownEnum => KindModel::UnknownEnum,
            SemanticDiagnosticKind::NoLiteralFunctionFound => KindModel::NoLiteralFunctionFound,
            SemanticDiagnosticKind::NotAVariant => KindModel::NotAVariant,
            SemanticDiagnosticKind::NotAStruct => KindModel::NotAStruct,
            SemanticDiagnosticKind::NotAType => KindModel::NotAType,
            SemanticDiagnosticKind::NotATrait => KindModel::NotATrait,
            SemanticDiagnosticKind::FunctionNotMemberOfTrait {
                impl_def_id,
                impl_function_id,
                trait_id,
            } => KindModel::FunctionNotMemberOfTrait {
                impl_def_id: *impl_def_id,
                impl_function_id: *impl_function_id,
                trait_id: *trait_id,
            },
            SemanticDiagnosticKind::UnexpectedGenericArgs => KindModel::UnexpectedGenericArgs,
            SemanticDiagnosticKind::UnknownMember => KindModel::UnknownMember,
            SemanticDiagnosticKind::MemberSpecifiedMoreThanOnce => {
                KindModel::MemberSpecifiedMoreThanOnce
            },
            SemanticDiagnosticKind::UseCycle => KindModel::UseCycle,
            SemanticDiagnosticKind::TypeAliasCycle => KindModel::TypeAliasCycle,
            SemanticDiagnosticKind::ExpectedConcreteVariant => KindModel::ExpectedConcreteVariant,
            SemanticDiagnosticKind::MissingMember { member_name } => KindModel::MissingMember {
                member_name: member_name@,
            },
            SemanticDiagnosticKind::WrongNumberOfParameters {
                impl_def_id,
                impl_function_id,
                trait_id,
                expected,
                actual,
            } => KindModel::WrongNumberOfParameters {
                impl_def_id: *impl_def_id,
                impl_function_id: *impl_function_id,
                trait_id: *trait_id,
                expected: *expected,
                actual: *actual,
            },
            SemanticDiagnosticKind::WrongNumberOfArguments { expected, actual } => {
                KindModel::WrongNumberOfArguments { expected: *expected, actual: *actual }
            },
            SemanticDiagnosticKind::WrongNumberOfGenericArguments { expected, actual } => {
                KindModel::WrongNumberOfGenericArguments { expected: *expected, actual: *actual }
            },
            SemanticDiagnosticKind::ConstGenericInferenceUnsupported => {
                KindModel::ConstGenericInferenceUnsupported
            },
            SemanticDiagnosticKind::ImplGenericsUnsupported => KindModel::ImplGenericsUnsupported,
            SemanticDiagnosticKind::WrongParameterType {
                impl_def_id,
                impl_function_id,
                trait_id,
                expected_ty,
                actual_ty,
            } => KindModel::WrongParameterType {
                impl_def_id: *impl_def_id,
                impl_function_id: *impl_function_id,
                trait_id: *trait_id,
                expected_ty: *expected_ty,
                actual_ty: *actual_ty,
            },
            SemanticDiagnosticKind::VariantCtorNotImmutable => KindModel::VariantCtorNotImmutable,
            SemanticDiagnosticKind::TraitParamMutable { trait_id, function_id } => {
                KindModel::TraitParamMutable { trait_id: *trait_id, function_id: *function_id }
            },
            SemanticDiagnosticKind::TraitFunctionWithBody { trait_id, function_id } => {
                KindModel::TraitFunctionWithBody { trait_id: *trait_id, function_id: *function_id }
            },
            SemanticDiagnosticKind::ParamaterShouldBeReference {
                impl_def_id,
                impl_function_id,
                trait_id,
            } => KindModel::ParamaterShouldBeReference {
                impl_def_id: *impl_def_id,
                impl_function_id: *impl_function_id,
                trait_id: *trait_id,
            },
            SemanticDiagnosticKind::ParameterShouldNotBeReference {
                impl_def_id,
                impl_function_id,
                trait_id,
            } => KindModel::ParameterShouldNotBeReference {
                impl_def_id: *impl_def_id,
                impl_function_id: *impl_function_id,
                trait_id: *trait_id,
            },
            SemanticDiagnosticKind::WrongType { expected_ty, actual_ty } => KindModel::WrongType {
                expected_ty: *expected_ty,
                actual_ty: *actual_ty,
            },
            SemanticDiagnosticKind::WrongArgumentType { expected_ty, actual_ty } => {
                KindModel::WrongArgumentType { expected_ty: *expected_ty, actual_ty: *actual_ty }
            },
            SemanticDiagnosticKind::WrongReturnType { expected_ty, actual_ty } => {
                KindModel::WrongReturnType { expected_ty: *expected_ty, actual_ty: *actual_ty }
            },
            SemanticDiagnosticKind::WrongReturnTypeForImpl {
                impl_def_id,
                impl_function_id,
                trait_id,
                expected_ty,
                actual_ty,
            } => KindModel::WrongReturnTypeForImpl {
                impl_def_id: *impl_def_id,
                impl_function_id: *impl_function_id,
                trait_id: *trait_id,
                expected_ty: *expected_ty,
                actual_ty: *actual_ty,
            },
            SemanticDiagnosticKind::NoImplementationOfTraitFunction {
                concrete_trait_id,
                function_name,
            } => KindModel::NoImplementationOfTraitFunction {
                concrete_trait_id: *concrete_trait_id,
                function_name: function_name@,
            },
            SemanticDiagnosticKind::AmbiguousTrait { trait_function_id0, trait_function_id1 } => {
                KindModel::AmbiguousTrait {
                    trait_function_id0: *trait_function_id0,
                    trait_function_id1: *trait_function_id1,
                }
            },
            SemanticDiagnosticKind::MultipleImplementationOfTraitFunction {
                trait_id,
                all_impl_ids,
                function_name,
            } => KindModel::MultipleImplementationOfTraitFunction {
                trait_id: *trait_id,
                all_impl_ids: all_impl_ids@,
                function_name: function_name@,
            },
            SemanticDiagnosticKind::VariableNotFound { name } => KindModel::VariableNotFound {
                name: name@,
            },
            SemanticDiagnosticKind::StructMemberRedefinition { struct_id, member_name } => {
                KindModel::StructMemberRedefinition {
                    struct_id: *struct_id,
                    member_name: member_name@,
                }
            },
            SemanticDiagnosticKind::EnumVariantRedefinition { enum_id, variant_name } => {
                KindModel::EnumVariantRedefinition {
                    enum_id: *enum_id,
                    variant_name: variant_name@,
                }
            },
            SemanticDiagnosticKind::ParamNameRedefinition {
                function_signature_id,
                param_name,
            } => KindModel::ParamNameRedefinition {
                function_signature_id: *function_signature_id,
                param_name: param_name@,
            },
            SemanticDiagnosticKind::IncompatibleMatchArms { match_ty, arm_ty } => {
                KindModel::IncompatibleMatchArms { match_ty: *match_ty, arm_ty: *arm_ty }
            },
            SemanticDiagnosticKind::IncompatibleIfBlockTypes { block_if_ty, block_else_ty } => {
                KindModel::IncompatibleIfBlockTypes {
                    block_if_ty: *block_if_ty,
                    block_else_ty: *block_else_ty,
                }
            },
            SemanticDiagnosticKind::TypeHasNoMembers { ty, member_name } => {
                KindModel::TypeHasNoMembers { ty: *ty, member_name: member_name@ }
            },
            SemanticDiagnosticKind::TypeYetUnknown => KindModel::TypeYetUnknown,
            SemanticDiagnosticKind::NoSuchMember { struct_id, member_name } => {
                KindModel::NoSuchMember { struct_id: *struct_id, member_name: member_name@ }
            },
            SemanticDiagnosticKind::NoSuchVariant { enum_id, variant_name } => {
                KindModel::NoSuchVariant { enum_id: *enum_id, variant_name: variant_name@ }
            },
            SemanticDiagnosticKind::IncompatibleErrorPropagateType { return_ty, err_ty } => {
                KindModel::IncompatibleErrorPropagateType {
                    return_ty: *return_ty,
                    err_ty: *err_ty,
                }
            },
            SemanticDiagnosticKind::ErrorPropagateOnNonErrorType { ty } => {
                KindModel::ErrorPropagateOnNonErrorType { ty: *ty }
            },
            SemanticDiagnosticKind::RefArgNotAVariable => KindModel::RefArgNotAVariable,
            SemanticDiagnosticKind::RefArgNotMutable => KindModel::RefArgNotMutable,
            SemanticDiagnosticKind::RefArgNotExplicit => KindModel::RefArgNotExplicit,
            SemanticDiagnosticKind::ImmutableArgWithModifiers => {
                KindModel::ImmutableArgWithModifiers
            },
            SemanticDiagnosticKind::AssignmentToImmutableVar => KindModel::AssignmentToImmutableVar,
            SemanticDiagnosticKind::InvalidLhsForAssignment => KindModel::InvalidLhsForAssignment,
            SemanticDiagnosticKind::InvalidMemberExpression => KindModel::InvalidMemberExpression,
            SemanticDiagnosticKind::InvalidPath => KindModel::InvalidPath,
            SemanticDiagnosticKind::PathNotFound(item_type) => KindModel::PathNotFound(*item_type),
            SemanticDiagnosticKind::SuperUsedInRootModule => KindModel::SuperUsedInRootModule,
            SemanticDiagnosticKind::RedundantModifier {
                current_modifier,
                previous_modifier,
            } => KindModel::RedundantModifier {
                current_modifier: current_modifier@,
                previous_modifier: previous_modifier@,
            },
            SemanticDiagnosticKind::ReferenceLocalVariable => KindModel::ReferenceLocalVariable,
            SemanticDiagnosticKind::UnexpectedLiteralPattern { ty } => {
                KindModel::UnexpectedLiteralPattern { ty: *ty }
            },
            SemanticDiagnosticKind::UnexpectedEnumPattern { ty } => {
                KindModel::UnexpectedEnumPattern { ty: *ty }
            },
            SemanticDiagnosticKind::UnexpectedStructPattern { ty } => {
                KindModel::UnexpectedStructPattern { ty: *ty }
            },
            SemanticDiagnosticKind::UnexpectedTuplePattern { ty } => {
                KindModel::UnexpectedTuplePattern { ty: *ty }
            },
            SemanticDiagnosticKind::WrongEnum { expected_enum, actual_enum } => {
                KindModel::WrongEnum { expected_enum: *expected_enum, actual_enum: *actual_enum }
            },
            SemanticDiagnosticKind::ShortStringMustBeAscii => KindModel::ShortStringMustBeAscii,
            SemanticDiagnosticKind::IllegalStringEscaping(err) => {
                KindModel::IllegalStringEscaping(err@)
            },
            SemanticDiagnosticKind::InvalidCopyTraitImpl => KindModel::InvalidCopyTraitImpl,
            SemanticDiagnosticKind::InvalidDropTraitImpl => KindModel::InvalidDropTraitImpl,
            SemanticDiagnosticKind::InvalidImplItem { item_kw } => KindModel::InvalidImplItem {
                item_kw: item_kw@,
            },
            SemanticDiagnosticKind::MissingItemsInImpl { item_names } => {
                KindModel::MissingItemsInImpl { item_names: item_names.deep_view() }
            },
            SemanticDiagnosticKind::PassPanicAsNopanic { impl_function_id, trait_id } => {
                KindModel::PassPanicAsNopanic {
                    impl_function_id: *impl_function_id,
                    trait_id: *trait_id,
                }
            },
            SemanticDiagnosticKind::PanicableFromNonPanicable => {
                KindModel::PanicableFromNonPanicable
            },
            SemanticDiagnosticKind::PanicableExternFunction => KindModel::PanicableExternFunction,
            SemanticDiagnosticKind::PluginDiagnostic(diagnostic) => KindModel::PluginDiagnostic {
                span: diagnostic.span,
                message: diagnostic.message@,
            },
            SemanticDiagnosticKind::WrappedPluginDiagnostic { diagnostic, original_diag } => {
                KindModel::WrappedPluginDiagnostic {
                    span: diagnostic.span,
                    message: diagnostic.message@,
                    original_diag: *original_diag,
                }
            },
            SemanticDiagnosticKind::NameDefinedMultipleTimes { name } => {
                KindModel::NameDefinedMultipleTimes { name: name@ }
            },
            SemanticDiagnosticKind::NamedArgumentsAreNotSupported => {
                KindModel::NamedArgumentsAreNotSupported
            },
            SemanticDiagnosticKind::UnnamedArgumentFollowsNamed => {
                KindModel::UnnamedArgumentFollowsNamed
            },
            SemanticDiagnosticKind::NamedArgumentMismatch { expected, found } => {
                KindModel::NamedArgumentMismatch { expected: expected@, found: found@ }
            },
            SemanticDiagnosticKind::UnsupportedOutsideOfFunction { feature_name } => {
                KindModel::UnsupportedOutsideOfFunction { feature_name: *feature_name }
            },
            SemanticDiagnosticKind::OnlyLiteralConstants => KindModel::OnlyLiteralConstants,
            SemanticDiagnosticKind::ExternItemWithImplGenericsNotSupported => {
                KindModel::ExternItemWithImplGenericsNotSupported
            },
            SemanticDiagnosticKind::MissingSemicolon => KindModel::MissingSemicolon,
            SemanticDiagnosticKind::TraitMismatch => KindModel::TraitMismatch,
        }
    }
}

impl View for SemanticDiagnostic {
    type V = DiagModel;

    open spec fn view(&self) -> DiagModel {
        DiagModel { location: self.stable_location, kind: self.kind@, after: self.after }
    }
}

impl DeepView for SemanticDiagnostic {
    type V = DiagModel;

    open spec fn deep_view(&self) -> DiagModel {
        self.view()
    }
}

/// A zero-size proof value that a finding was recorded. Callers consume it as
/// the value produced along an error path, so that every analyzed expression
/// still yields a value.
#[derive(Clone, Copy, Debug, PartialEq, Eq, Hash, Structural)]
pub struct DiagnosticAdded;

/// A frozen, immutable, ordered sequence of findings: what [`SemanticDiagnostics::build`]
/// hands to downstream tooling.
pub struct Diagnostics {
    pub entries: Vec<SemanticDiagnostic>,
}

impl Diagnostics {
    pub open spec fn view(self) -> Seq<DiagModel> {
        self.entries.deep_view()
    }

    pub fn len(&self) -> (r: usize)
        ensures
            r == self@.len(),
    {
        self.entries.len()
    }

    pub fn get(&self, i: usize) -> (r: &SemanticDiagnostic)
        requires
            i < self@.len(),
        ensures
            r@ == self@[i as int],
    {
        &self.entries[i]
    }
}

/// The findings of the first `i` frozen collections, concatenated in unit
/// order.
pub open spec fn merged_views_upto(parts: Seq<Diagnostics>, i: int) -> Seq<DiagModel>
    decreases i,
{
    if i <= 0 {
        Seq::empty()
    } else {
        merged_views_upto(parts, i - 1) + parts[i - 1]@
    }
}

impl Diagnostics {
    /// Merge the frozen collections of several analysis units into one
    /// ordered sequence, unit by unit in the given unit order. The result is
    /// fixed by that order alone, however the units' analyses were scheduled.
    pub fn merged(parts: Vec<Diagnostics>) -> (r: Diagnostics)
        ensures
            r@ == merged_views_upto(parts@, parts@.len() as int),
    {
        let ghost orig = parts@;
        proof {
            assert(parts.len() == orig.len());
        }
        let mut rest = parts;
        let mut entries: Vec<SemanticDiagnostic> = Vec::new();
        proof {
            assert(entries.deep_view() =~~= merged_views_upto(orig, 0));
            assert(rest@ =~= orig.subrange(0, orig.len() as int));
        }
        let mut i: usize = 0;
        while rest.len() > 0
            invariant
                orig.len() <= usize::MAX,
                i + rest@.len() == orig.len(),
                rest@ == orig.subrange(i as int, orig.len() as int),
                entries.deep_view() == merged_views_upto(orig, i as int),
            decreases rest@.len(),
        {
            let mut first = rest.remove(0);
            let ghost moved = first.entries@;
            let ghost prev = entries.deep_view();
            entries.append(&mut first.entries);
            proof {
                assert(orig.subrange(i as int, orig.len() as int).remove(0) =~= orig.subrange(
                    i as int + 1,
                    orig.len() as int,
                ));
                assert(moved == orig[i as int].entries@);
                assert(entries.deep_view() =~~= prev + moved.map_values(
                    |d: SemanticDiagnostic| d@,
                ));
                assert(prev + moved.map_values(|d: SemanticDiagnostic| d@) =~~= merged_views_upto(
                    orig,
                    i as int + 1,
                ));
            }
            i = i + 1;
        }
        Diagnostics { entries }
    }
}

/// The per-analysis-unit accumulation of findings: append-only and
/// single-writer, created when analysis of a unit starts and frozen by
/// [`Self::build`] when it completes.
pub struct SemanticDiagnostics {
    pub diagnostics: Vec<SemanticDiagnostic>,
    pub module_file_id: ModuleFileId,
}

impl SemanticDiagnostics {
    pub open spec fn view(self) -> Seq<DiagModel> {
        self.diagnostics.deep_view()
    }

    pub fn new(module_file_id: ModuleFileId) -> (r: Self)
        ensures
            r@ == Seq::<DiagModel>::empty(),
            r.module_file_id == module_file_id,
    {
        let r = SemanticDiagnostics { module_file_id, diagnostics: Vec::new() };
        proof {
            assert(r@ =~= Seq::<DiagModel>::empty());
        }
        r
    }

    /// Freeze the collection into an immutable ordered sequence, preserving
    /// insertion order.
    pub fn build(self) -> (r: Diagnostics)
        ensures
            r@ == self@,
    {
        Diagnostics { entries: self.diagnostics }
    }

    fn add(&mut self, diagnostic: SemanticDiagnostic) -> (r: DiagnosticAdded)
        ensures
            final(self)@ == old(self)@.push(diagnostic@),
            final(self).module_file_id == old(self).module_file_id,
    {
        self.diagnostics.push(diagnostic);
        proof {
            assert(self@ =~= old(self)@.push(self.diagnostics@[self.diagnostics@.len() - 1]@));
        }
        DiagnosticAdded
    }

    /// Record a finding at the location of the given node.
    pub fn report(&mut self, node: &SyntaxNode, kind: SemanticDiagnosticKind) -> (r:
        DiagnosticAdded)
        ensures
            final(self)@ == old(self)@.push(
                DiagModel {
                    location: StableLocation {
                        module_file_id: old(self).module_file_id,
                        stable_ptr: node.stable_ptr,
                    },
                    kind: kind@,
                    after: false,
                },
            ),
            final(self).module_file_id == old(self).module_file_id,
    {
        let location = StableLocation::from_ast(self.module_file_id, node);
        self.add(SemanticDiagnostic::new(location, kind))
    }

    /// Record a finding at the zero-width location after the given node.
    pub fn report_after(&mut self, node: &SyntaxNode, kind: SemanticDiagnosticKind) -> (r:
        DiagnosticAdded)
        ensures
            final(self)@ == old(self)@.push(
                DiagModel {
                    location: StableLocation {
                        module_file_id: old(self).module_file_id,
                        stable_ptr: node.stable_ptr,
                    },
                    kind: kind@,
                    after: true,
                },
            ),
            final(self).module_file_id == old(self).module_file_id,
    {
        let location = StableLocation::from_ast(self.module_file_id, node);
        self.add(SemanticDiagnostic::new_after(location, kind))
    }

    /// Record a finding at the location denoted by the given stable pointer.
    pub fn report_by_ptr(&mut self, stable_ptr: SyntaxStablePtrId, kind: SemanticDiagnosticKind)
        -> (r: DiagnosticAdded)
        ensures
            final(self)@ == old(self)@.push(
                DiagModel {
                    location: StableLocation {
                        module_file_id: old(self).module_file_id,
                        stable_ptr,
                    },
                    kind: kind@,
                    after: false,
                },
            ),
            final(self).module_file_id == old(self).module_file_id,
    {
        let location = StableLocation::new(self.module_file_id, stable_ptr);
        self.add(SemanticDiagnostic::new(location, kind))
    }
}

} // verus!
