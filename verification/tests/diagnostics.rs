use semantic_diagnostics::context::{ConcreteTraitLongId, NamingContext, SourceMap};
use semantic_diagnostics::diagnostic::{
    DiagnosticAdded, ElementKind, NotFoundItemType, PluginDiagnostic, PluginMappedDiagnostic,
    SemanticDiagnostic, SemanticDiagnosticKind, SemanticDiagnostics, StableLocation, SyntaxNode,
    UnsupportedOutsideOfFunctionFeatureName,
};
use semantic_diagnostics::ids::{
    ConcreteTraitId, EnumId, FileId, FunctionSignatureId, ImplDefId, ImplFunctionId, ModuleFileId,
    StructId, SyntaxStablePtrId, TraitFunctionId, TraitId, TypeId,
};
use semantic_diagnostics::render::usize_text;
use semantic_diagnostics::TextSpan;

fn strings(xs: &[&str]) -> Vec<String> {
    xs.iter().map(|s| s.to_string()).collect()
}

fn naming_context() -> NamingContext {
    NamingContext {
        trait_names: strings(&["Trait1", "Trait2"]),
        trait_paths: strings(&["test::Trait1", "test::Trait2"]),
        impl_names: strings(&["Impl1", "Impl2", "Impl3"]),
        impl_paths: strings(&["test::Impl1", "test::Impl2", "test::Impl3"]),
        impl_fn_names: strings(&["f", "g", "q"]),
        trait_fn_names: strings(&["f", "g", "h"]),
        trait_fn_paths: strings(&["test::Trait1::f", "test::Trait2::f", "test::Trait1::h"]),
        struct_paths: strings(&["test::S"]),
        enum_paths: strings(&["test::E", "test::E2"]),
        signature_paths: strings(&["test::func"]),
        type_names: strings(&["Felt", "Bool", "Text"]),
        concrete_traits: vec![
            ConcreteTraitLongId { trait_id: TraitId(0), generic_args: vec![TypeId(0), TypeId(1)] },
            ConcreteTraitLongId { trait_id: TraitId(1), generic_args: vec![] },
        ],
    }
}

fn source_map() -> SourceMap {
    SourceMap {
        module_files: vec![FileId(7)],
        spans: (0..6).map(|i| TextSpan { start: 10 * i, end: 10 * i + 5 }).collect(),
    }
}

fn diag_at(ptr: usize, kind: SemanticDiagnosticKind) -> SemanticDiagnostic {
    SemanticDiagnostic::new(
        StableLocation { module_file_id: ModuleFileId(0), stable_ptr: SyntaxStablePtrId(ptr) },
        kind,
    )
}

#[test]
fn format_constant_message() {
    let ctx = naming_context();
    let d = diag_at(0, SemanticDiagnosticKind::Unsupported);
    assert_eq!(d.format(&ctx), "Unsupported feature.");
}

#[test]
fn format_module_file_not_found() {
    let ctx = naming_context();
    let d = diag_at(
        0,
        SemanticDiagnosticKind::ModuleFileNotFound { path: "src/missing.txt".to_string() },
    );
    assert_eq!(d.format(&ctx), "Module file not found. Expected path: src/missing.txt");
}

#[test]
fn format_wrong_parameter_type() {
    let ctx = naming_context();
    let d = diag_at(
        0,
        SemanticDiagnosticKind::WrongParameterType {
            impl_def_id: ImplDefId(0),
            impl_function_id: ImplFunctionId(0),
            trait_id: TraitId(0),
            expected_ty: TypeId(0),
            actual_ty: TypeId(1),
        },
    );
    assert_eq!(
        d.format(&ctx),
        "Parameter type of impl function `Impl1::f` is incompatible with `Trait1::f`. \
         Expected: `Felt`, actual: `Bool`."
    );
}

#[test]
fn format_wrong_number_of_parameters() {
    let ctx = naming_context();
    let d = diag_at(
        0,
        SemanticDiagnosticKind::WrongNumberOfParameters {
            impl_def_id: ImplDefId(1),
            impl_function_id: ImplFunctionId(1),
            trait_id: TraitId(1),
            expected: 1,
            actual: 2,
        },
    );
    assert_eq!(
        d.format(&ctx),
        "The number of parameters in the impl function `Impl2::g` is incompatible with \
         `Trait2::g`. Expected: 1, actual: 2."
    );
}

#[test]
fn format_counts_in_decimal() {
    let ctx = naming_context();
    let d = diag_at(
        0,
        SemanticDiagnosticKind::WrongNumberOfArguments { expected: 0, actual: 12045 },
    );
    assert_eq!(d.format(&ctx), "Wrong number of arguments. Expected 0, found: 12045");
}

#[test]
fn usize_text_renders_decimal() {
    assert_eq!(usize_text(0), "0");
    assert_eq!(usize_text(9), "9");
    assert_eq!(usize_text(10), "10");
    assert_eq!(usize_text(90210), "90210");
}

#[test]
fn format_missing_items() {
    let ctx = naming_context();
    let d = diag_at(
        0,
        SemanticDiagnosticKind::MissingItemsInImpl { item_names: strings(&["f", "h"]) },
    );
    assert_eq!(d.format(&ctx), "Not all trait items are implemented. Missing: 'f', 'h'.");
}

#[test]
fn format_unexpected_element() {
    let ctx = naming_context();
    let d = diag_at(
        0,
        SemanticDiagnosticKind::UnexpectedElement {
            expected: vec![ElementKind::Type, ElementKind::Trait],
            actual: ElementKind::Module,
        },
    );
    assert_eq!(d.format(&ctx), "Expected type or trait, found module.");
}

#[test]
fn format_no_implementation_of_trait_function() {
    let ctx = naming_context();
    let d = diag_at(
        0,
        SemanticDiagnosticKind::NoImplementationOfTraitFunction {
            concrete_trait_id: ConcreteTraitId(0),
            function_name: "f".to_string(),
        },
    );
    assert_eq!(
        d.format(&ctx),
        "Function `f` of trait `test::Trait1::<Felt, Bool>` has no implementation in the context."
    );
}

#[test]
fn format_multiple_implementation_of_trait_function() {
    let ctx = naming_context();
    let d = diag_at(
        0,
        SemanticDiagnosticKind::MultipleImplementationOfTraitFunction {
            trait_id: TraitId(0),
            all_impl_ids: vec![ImplDefId(0), ImplDefId(1), ImplDefId(2)],
            function_name: "f".to_string(),
        },
    );
    assert_eq!(
        d.format(&ctx),
        "Function `f` of trait `test::Trait1` has multiple implementations, in: \
         test::Impl1, test::Impl2, test::Impl3"
    );
}

#[test]
fn format_ambiguous_trait() {
    let ctx = naming_context();
    let d = diag_at(
        0,
        SemanticDiagnosticKind::AmbiguousTrait {
            trait_function_id0: TraitFunctionId(0),
            trait_function_id1: TraitFunctionId(1),
        },
    );
    assert_eq!(
        d.format(&ctx),
        "Ambiguous method call. More than one applicable trait function with a suitable \
         self type was found: test::Trait1::f and test::Trait2::f. Consider adding type \
         annotations or explicitly refer to the impl function."
    );
}

#[test]
fn format_incompatible_merges() {
    let ctx = naming_context();
    let m = diag_at(
        0,
        SemanticDiagnosticKind::IncompatibleMatchArms { match_ty: TypeId(0), arm_ty: TypeId(1) },
    );
    assert_eq!(m.format(&ctx), "Match arms have incompatible types: \"Felt\" and \"Bool\"");
    let b = diag_at(
        0,
        SemanticDiagnosticKind::IncompatibleIfBlockTypes {
            block_if_ty: TypeId(2),
            block_else_ty: TypeId(0),
        },
    );
    assert_eq!(b.format(&ctx), "If blocks have incompatible types: \"Text\" and \"Felt\"");
}

#[test]
fn format_path_not_found_by_category() {
    let ctx = naming_context();
    let cases = [
        (NotFoundItemType::Identifier, "Identifier not found."),
        (NotFoundItemType::Function, "Function not found."),
        (NotFoundItemType::Type, "Type not found."),
        (NotFoundItemType::Trait, "Trait not found."),
        (NotFoundItemType::Impl, "Impl not found."),
    ];
    for (item, expected) in cases {
        let d = diag_at(0, SemanticDiagnosticKind::PathNotFound(item));
        assert_eq!(d.format(&ctx), expected);
    }
}

#[test]
fn format_unsupported_outside_of_function() {
    let ctx = naming_context();
    let d = diag_at(
        0,
        SemanticDiagnosticKind::UnsupportedOutsideOfFunction {
            feature_name: UnsupportedOutsideOfFunctionFeatureName::ErrorPropagate,
        },
    );
    assert_eq!(d.format(&ctx), "The '?' operator is not supported outside of functions.");
}

#[test]
fn format_redefinitions_and_lookups() {
    let ctx = naming_context();
    let d = diag_at(
        0,
        SemanticDiagnosticKind::StructMemberRedefinition {
            struct_id: StructId(0),
            member_name: "x".to_string(),
        },
    );
    assert_eq!(d.format(&ctx), "Redefinition of member \"x\" on struct \"test::S\".");
    let d = diag_at(
        0,
        SemanticDiagnosticKind::NoSuchVariant { enum_id: EnumId(1), variant_name: "V".to_string() },
    );
    assert_eq!(d.format(&ctx), "Enum \"test::E2\" has no variant \"V\"");
    let d = diag_at(
        0,
        SemanticDiagnosticKind::ParamNameRedefinition {
            function_signature_id: FunctionSignatureId(0),
            param_name: "a".to_string(),
        },
    );
    assert_eq!(d.format(&ctx), "Redefinition of parameter name \"a\" in function \"test::func\".");
    let d = diag_at(
        0,
        SemanticDiagnosticKind::WrongEnum { expected_enum: EnumId(0), actual_enum: EnumId(1) },
    );
    assert_eq!(d.format(&ctx), "Wrong enum in pattern. Expected: \"test::E\". Got: \"test::E2\".");
}

#[test]
fn format_plugin_diagnostics() {
    let ctx = naming_context();
    let d = diag_at(
        0,
        SemanticDiagnosticKind::PluginDiagnostic(PluginDiagnostic {
            span: TextSpan { start: 2, end: 4 },
            message: "custom problem".to_string(),
        }),
    );
    assert_eq!(d.format(&ctx), "Plugin diagnostic: custom problem");
    let original = diag_at(0, SemanticDiagnosticKind::Unsupported);
    let w = diag_at(
        1,
        SemanticDiagnosticKind::WrappedPluginDiagnostic {
            diagnostic: PluginMappedDiagnostic {
                span: TextSpan { start: 3, end: 8 },
                message: "mapped problem".to_string(),
            },
            original_diag: Box::new(original),
        },
    );
    assert_eq!(w.format(&ctx), "Plugin diagnostic: mapped problem");
}

#[test]
fn format_fixed_messages() {
    let ctx = naming_context();
    let cases = vec![
        (SemanticDiagnosticKind::UnknownLiteral, "Unknown literal."),
        (SemanticDiagnosticKind::UnknownBinaryOperator, "Unknown binary operator."),
        (SemanticDiagnosticKind::UnknownFunction, "Unknown function."),
        (SemanticDiagnosticKind::UnknownTrait, "Unknown trait."),
        (SemanticDiagnosticKind::UnknownImpl, "Unknown impl."),
        (SemanticDiagnosticKind::UnknownType, "Unknown type."),
        (SemanticDiagnosticKind::UnknownStruct, "Unknown struct."),
        (SemanticDiagnosticKind::UnknownEnum, "Unknown enum."),
        (
            SemanticDiagnosticKind::NoLiteralFunctionFound,
            "A literal with this type cannot be created.",
        ),
        (SemanticDiagnosticKind::NotAVariant, "Not a variant. Use the full name Enum::Variant."),
        (SemanticDiagnosticKind::NotAStruct, "Not a struct."),
        (SemanticDiagnosticKind::NotAType, "Not a type."),
        (SemanticDiagnosticKind::NotATrait, "Not a trait."),
        (SemanticDiagnosticKind::UnexpectedGenericArgs, "Unexpected generic arguments"),
        (SemanticDiagnosticKind::UnknownMember, "Unknown member."),
        (SemanticDiagnosticKind::MemberSpecifiedMoreThanOnce, "Member specified more than once."),
        (SemanticDiagnosticKind::UseCycle, "Cycle detected while resolving 'use' items."),
        (
            SemanticDiagnosticKind::TypeAliasCycle,
            "Cycle detected while resolving 'type alias' items.",
        ),
        (
            SemanticDiagnosticKind::ExpectedConcreteVariant,
            "Expected a concrete variant. Use `::<>` syntax.",
        ),
        (
            SemanticDiagnosticKind::ConstGenericInferenceUnsupported,
            "Const generic inference not yet supported.",
        ),
        (SemanticDiagnosticKind::ImplGenericsUnsupported, "Impl generics not yet supported."),
        (
            SemanticDiagnosticKind::VariantCtorNotImmutable,
            "Variant constructor argument must be immutable.",
        ),
        (SemanticDiagnosticKind::TypeYetUnknown, "Type annotation needed."),
        (SemanticDiagnosticKind::RefArgNotAVariable, "ref argument must be a variable."),
        (SemanticDiagnosticKind::RefArgNotMutable, "ref argument must be a mutable variable."),
        (
            SemanticDiagnosticKind::RefArgNotExplicit,
            "ref argument must be a passed with a preceding 'ref'.",
        ),
        (SemanticDiagnosticKind::ImmutableArgWithModifiers, "Argument cannot have modifiers."),
        (
            SemanticDiagnosticKind::AssignmentToImmutableVar,
            "Cannot assign to an immutable variable.",
        ),
        (SemanticDiagnosticKind::InvalidLhsForAssignment, "Invalid left-hand side of assignment."),
        (SemanticDiagnosticKind::InvalidMemberExpression, "Invalid member expression."),
        (SemanticDiagnosticKind::InvalidPath, "Invalid path."),
        (
            SemanticDiagnosticKind::SuperUsedInRootModule,
            "'super' cannot be used for the crate's root module.",
        ),
        (
            SemanticDiagnosticKind::ReferenceLocalVariable,
            "`ref` is only allowed for function parameters, not for local variables.",
        ),
        (
            SemanticDiagnosticKind::ShortStringMustBeAscii,
            "Short strings can only include ASCII characters.",
        ),
        (SemanticDiagnosticKind::InvalidCopyTraitImpl, "Invalid copy trait implementation."),
        (SemanticDiagnosticKind::InvalidDropTraitImpl, "Invalid drop trait implementation."),
        (
            SemanticDiagnosticKind::PanicableFromNonPanicable,
            "Function is declared as nopanic but calls a function that may panic.",
        ),
        (
            SemanticDiagnosticKind::PanicableExternFunction,
            "An extern function must be marked as nopanic.",
        ),
        (
            SemanticDiagnosticKind::NamedArgumentsAreNotSupported,
            "Named arguments are not supported in this context.",
        ),
        (
            SemanticDiagnosticKind::UnnamedArgumentFollowsNamed,
            "Unnamed arguments cannot follow named arguments.",
        ),
        (
            SemanticDiagnosticKind::OnlyLiteralConstants,
            "Only literal constants are currently supported.",
        ),
        (
            SemanticDiagnosticKind::ExternItemWithImplGenericsNotSupported,
            "Extern items with impl generics are not supported",
        ),
        (SemanticDiagnosticKind::MissingSemicolon, "Missing semicolon"),
        (
            SemanticDiagnosticKind::TraitMismatch,
            "Supplied impl does not match the required trait",
        ),
    ];
    for (kind, expected) in cases {
        let d = diag_at(0, kind);
        assert_eq!(d.format(&ctx), expected);
    }
}

#[test]
fn format_parameterized_messages() {
    let ctx = naming_context();
    let cases = vec![
        (
            SemanticDiagnosticKind::UnsupportedUnaryOperator { op: "-".to_string(), ty: TypeId(0) },
            "Unary operator '-' is not supported for type 'Felt'.".to_string(),
        ),
        (
            SemanticDiagnosticKind::UnsupportedBinaryOperator {
                op: "+".to_string(),
                type1: TypeId(0),
                type2: TypeId(1),
            },
            "Binary operator '+' is not supported for types 'Felt' and 'Bool'.".to_string(),
        ),
        (
            SemanticDiagnosticKind::MissingMember { member_name: "x".to_string() },
            "Missing member \"x\".".to_string(),
        ),
        (
            SemanticDiagnosticKind::FunctionNotMemberOfTrait {
                impl_def_id: ImplDefId(0),
                impl_function_id: ImplFunctionId(0),
                trait_id: TraitId(0),
            },
            "Impl function `Impl1::f` is not a member of trait `Trait1`.".to_string(),
        ),
        (
            SemanticDiagnosticKind::WrongNumberOfGenericArguments { expected: 2, actual: 3 },
            "Wrong number of generic arguments. Expected 2, found: 3".to_string(),
        ),
        (
            SemanticDiagnosticKind::TraitParamMutable {
                trait_id: TraitId(0),
                function_id: TraitFunctionId(0),
            },
            "Parameter of trait function `Trait1::f` can't be defined as mutable.".to_string(),
        ),
        (
            SemanticDiagnosticKind::TraitFunctionWithBody {
                trait_id: TraitId(0),
                function_id: TraitFunctionId(0),
            },
            "Trait function `Trait1::f` has a body. Trait functions with body are not supported."
                .to_string(),
        ),
        (
            SemanticDiagnosticKind::ParamaterShouldBeReference {
                impl_def_id: ImplDefId(0),
                impl_function_id: ImplFunctionId(0),
                trait_id: TraitId(0),
            },
            "Parameter of impl function Impl1::f is incompatible with Trait1::f. It should be \
             a reference."
                .to_string(),
        ),
        (
            SemanticDiagnosticKind::ParameterShouldNotBeReference {
                impl_def_id: ImplDefId(0),
                impl_function_id: ImplFunctionId(0),
                trait_id: TraitId(0),
            },
            "Parameter of impl function Impl1::f is incompatible with Trait1::f. It should not \
             be a reference."
                .to_string(),
        ),
        (
            SemanticDiagnosticKind::WrongType { expected_ty: TypeId(0), actual_ty: TypeId(1) },
            "Expected type \"Felt\", found: \"Bool\".".to_string(),
        ),
        (
            SemanticDiagnosticKind::WrongArgumentType {
                expected_ty: TypeId(0),
                actual_ty: TypeId(1),
            },
            "Unexpected argument type. Expected: \"Felt\", found: \"Bool\".".to_string(),
        ),
        (
            SemanticDiagnosticKind::WrongReturnType {
                expected_ty: TypeId(0),
                actual_ty: TypeId(1),
            },
            "Unexpected return type. Expected: \"Felt\", found: \"Bool\".".to_string(),
        ),
        (
            SemanticDiagnosticKind::WrongReturnTypeForImpl {
                impl_def_id: ImplDefId(0),
                impl_function_id: ImplFunctionId(0),
                trait_id: TraitId(0),
                expected_ty: TypeId(0),
                actual_ty: TypeId(1),
            },
            "Return type of impl function `Impl1::f` is incompatible with `Trait1::f`. \
             Expected: `Felt`, actual: `Bool`."
                .to_string(),
        ),
        (
            SemanticDiagnosticKind::VariableNotFound { name: "v".to_string() },
            "Variable \"v\" not found.".to_string(),
        ),
        (
            SemanticDiagnosticKind::EnumVariantRedefinition {
                enum_id: EnumId(0),
                variant_name: "V".to_string(),
            },
            "Redefinition of variant \"V\" on enum \"test::E\".".to_string(),
        ),
        (
            SemanticDiagnosticKind::TypeHasNoMembers {
                ty: TypeId(0),
                member_name: "m".to_string(),
            },
            "Type \"Felt\" has no members.".to_string(),
        ),
        (
            SemanticDiagnosticKind::NoSuchMember {
                struct_id: StructId(0),
                member_name: "m".to_string(),
            },
            "Struct \"test::S\" has no member \"m\"".to_string(),
        ),
        (
            SemanticDiagnosticKind::IncompatibleErrorPropagateType {
                return_ty: TypeId(0),
                err_ty: TypeId(1),
            },
            "Return type \"Felt\" does not wrap error \"Bool\"".to_string(),
        ),
        (
            SemanticDiagnosticKind::ErrorPropagateOnNonErrorType { ty: TypeId(0) },
            "Type \"Felt\" can not error propagate".to_string(),
        ),
        (
            SemanticDiagnosticKind::UnexpectedLiteralPattern { ty: TypeId(1) },
            "Unexpected type for literal pattern. Expected: felt. Got: \"Bool\"".to_string(),
        ),
        (
            SemanticDiagnosticKind::UnexpectedEnumPattern { ty: TypeId(0) },
            "Unexpected type for enum pattern. \"Felt\" is not an enum.".to_string(),
        ),
        (
            SemanticDiagnosticKind::UnexpectedStructPattern { ty: TypeId(0) },
            "Unexpected type for struct pattern. \"Felt\" is not a struct.".to_string(),
        ),
        (
            SemanticDiagnosticKind::UnexpectedTuplePattern { ty: TypeId(0) },
            "Unexpected type for tuple pattern. \"Felt\" is not a tuple.".to_string(),
        ),
        (
            SemanticDiagnosticKind::RedundantModifier {
                current_modifier: "ref".to_string(),
                previous_modifier: "mut".to_string(),
            },
            "`ref` modifier was specified after another modifier (`mut`). Only a single \
             modifier is allowed."
                .to_string(),
        ),
        (
            SemanticDiagnosticKind::IllegalStringEscaping("bad escape".to_string()),
            "Invalid string escaping:\nbad escape".to_string(),
        ),
        (
            SemanticDiagnosticKind::InvalidImplItem { item_kw: "use".to_string() },
            "`use` is not allowed inside impl.".to_string(),
        ),
        (
            SemanticDiagnosticKind::PassPanicAsNopanic {
                impl_function_id: ImplFunctionId(0),
                trait_id: TraitId(0),
            },
            "The signature of function `f` is incompatible with trait `Trait1`. The trait \
             function is declared as nopanic."
                .to_string(),
        ),
        (
            SemanticDiagnosticKind::NameDefinedMultipleTimes { name: "x".to_string() },
            "The name `x` is defined multiple times.".to_string(),
        ),
        (
            SemanticDiagnosticKind::NamedArgumentMismatch {
                expected: "a".to_string(),
                found: "b".to_string(),
            },
            "Unexpected argument name. Expected: 'a', found 'b'.".to_string(),
        ),
        (
            SemanticDiagnosticKind::UnsupportedOutsideOfFunction {
                feature_name: UnsupportedOutsideOfFunctionFeatureName::FunctionCall,
            },
            "Function call is not supported outside of functions.".to_string(),
        ),
        (
            SemanticDiagnosticKind::UnsupportedOutsideOfFunction {
                feature_name: UnsupportedOutsideOfFunctionFeatureName::ReturnStatement,
            },
            "Return statement is not supported outside of functions.".to_string(),
        ),
    ];
    for (kind, expected) in cases {
        let d = diag_at(0, kind);
        assert_eq!(d.format(&ctx), expected);
    }
}

#[test]
fn rendering_is_deterministic() {
    let ctx = naming_context();
    let d = diag_at(
        0,
        SemanticDiagnosticKind::WrongType { expected_ty: TypeId(0), actual_ty: TypeId(1) },
    );
    let once = d.format(&ctx);
    let twice = d.format(&ctx);
    assert_eq!(once, twice);
    assert_eq!(once.as_bytes(), twice.as_bytes());
}

#[test]
fn element_kind_words() {
    assert_eq!(ElementKind::Constant.text(), "constant");
    assert_eq!(ElementKind::TraitFunction.text(), "function");
    assert_eq!(ElementKind::Impl.text(), "impl");
}

#[test]
fn report_records_in_insertion_order() {
    let mut diags = SemanticDiagnostics::new(ModuleFileId(0));
    let node = SyntaxNode { stable_ptr: SyntaxStablePtrId(1) };
    let _token: DiagnosticAdded = diags.report(&node, SemanticDiagnosticKind::UnknownFunction);
    diags.report_by_ptr(SyntaxStablePtrId(2), SemanticDiagnosticKind::UnknownTrait);
    let built = diags.build();
    assert_eq!(built.len(), 2);
    assert!(matches!(built.get(0).kind, SemanticDiagnosticKind::UnknownFunction));
    assert!(matches!(built.get(1).kind, SemanticDiagnosticKind::UnknownTrait));
    assert!(!built.get(0).after);
    assert_eq!(built.get(0).stable_location.stable_ptr, SyntaxStablePtrId(1));
    assert_eq!(built.get(1).stable_location.stable_ptr, SyntaxStablePtrId(2));
}

#[test]
fn finding_equality_is_structural() {
    let a = diag_at(1, SemanticDiagnosticKind::UnknownFunction);
    let b = diag_at(1, SemanticDiagnosticKind::UnknownFunction);
    let c = diag_at(2, SemanticDiagnosticKind::UnknownFunction);
    let d = SemanticDiagnostic::new_after(
        StableLocation { module_file_id: ModuleFileId(0), stable_ptr: SyntaxStablePtrId(1) },
        SemanticDiagnosticKind::UnknownFunction,
    );
    assert_eq!(a, b);
    assert_ne!(a, c);
    assert_ne!(a, d);
}

#[test]
fn location_resolves_span() {
    let sm = source_map();
    let d = diag_at(2, SemanticDiagnosticKind::Unsupported);
    let loc = d.location(&sm);
    assert_eq!(loc.file_id, FileId(7));
    assert_eq!(loc.span, TextSpan { start: 20, end: 25 });
}

#[test]
fn report_after_collapses_to_point_after_node() {
    let sm = source_map();
    let mut diags = SemanticDiagnostics::new(ModuleFileId(0));
    let node = SyntaxNode { stable_ptr: SyntaxStablePtrId(3) };
    diags.report_after(&node, SemanticDiagnosticKind::MissingSemicolon);
    let built = diags.build();
    assert!(built.get(0).after);
    let loc = built.get(0).location(&sm);
    // The node's span is [30, 35): the reported span is the zero-width point
    // immediately after it.
    assert_eq!(loc.span.start, 35);
    assert_eq!(loc.span.end, 35);
}

#[test]
fn plugin_span_takes_precedence() {
    let sm = source_map();
    let d = diag_at(
        1,
        SemanticDiagnosticKind::PluginDiagnostic(PluginDiagnostic {
            span: TextSpan { start: 41, end: 43 },
            message: "p".to_string(),
        }),
    );
    let loc = d.location(&sm);
    assert_eq!(loc.file_id, FileId(7));
    assert_eq!(loc.span, TextSpan { start: 41, end: 43 });

    let w = diag_at(
        1,
        SemanticDiagnosticKind::WrappedPluginDiagnostic {
            diagnostic: PluginMappedDiagnostic {
                span: TextSpan { start: 47, end: 48 },
                message: "w".to_string(),
            },
            original_diag: Box::new(diag_at(0, SemanticDiagnosticKind::Unsupported)),
        },
    );
    assert_eq!(w.location(&sm).span, TextSpan { start: 47, end: 48 });
}

#[test]
fn merged_collections_follow_unit_order() {
    let mut unit_a = SemanticDiagnostics::new(ModuleFileId(0));
    unit_a.report_by_ptr(SyntaxStablePtrId(0), SemanticDiagnosticKind::UnknownTrait);
    unit_a.report_by_ptr(SyntaxStablePtrId(1), SemanticDiagnosticKind::UnknownImpl);
    let mut unit_b = SemanticDiagnostics::new(ModuleFileId(0));
    unit_b.report_by_ptr(SyntaxStablePtrId(2), SemanticDiagnosticKind::UnknownType);
    let merged = semantic_diagnostics::diagnostic::Diagnostics::merged(vec![
        unit_a.build(),
        unit_b.build(),
    ]);
    assert_eq!(merged.len(), 3);
    assert!(matches!(merged.get(0).kind, SemanticDiagnosticKind::UnknownTrait));
    assert!(matches!(merged.get(1).kind, SemanticDiagnosticKind::UnknownImpl));
    assert!(matches!(merged.get(2).kind, SemanticDiagnosticKind::UnknownType));
}

#[test]
fn usize_text_renders_largest_count() {
    assert_eq!(usize_text(usize::MAX), usize::MAX.to_string());
}

#[test]
fn build_freezes_collection() {
    let mut diags = SemanticDiagnostics::new(ModuleFileId(0));
    for i in 0..4usize {
        diags.report_by_ptr(
            SyntaxStablePtrId(i),
            SemanticDiagnosticKind::WrongNumberOfArguments { expected: i, actual: i + 1 },
        );
    }
    let built = diags.build();
    assert_eq!(built.len(), 4);
    for i in 0..4usize {
        match &built.get(i).kind {
            SemanticDiagnosticKind::WrongNumberOfArguments { expected, actual } => {
                assert_eq!(*expected, i);
                assert_eq!(*actual, i + 1);
            }
            other => panic!("unexpected kind: {other:?}"),
        }
    }
}
