use semantic_diagnostics::compatibility::{check_if_blocks, check_match_arms, Branch};
use semantic_diagnostics::conformance::{
    substitute_signature, validate_impl, validate_impl_function_signature, validate_trait,
    GenericParameter, GenericSignature, GenericTy, ImplDecl, ImplFunctionDecl, Mutability,
    Parameter, Signature, TraitDecl, TraitFunctionDecl,
};
use semantic_diagnostics::context::{ConcreteTraitLongId, NamingContext};
use semantic_diagnostics::diagnostic::{
    SemanticDiagnosticKind, SemanticDiagnostics,
};
use semantic_diagnostics::ids::{
    ConcreteTraitId, ImplDefId, ImplFunctionId, ModuleFileId, SyntaxStablePtrId, TraitFunctionId,
    TraitId, TypeId,
};
use semantic_diagnostics::resolution::{resolve_method, MethodResolution};

fn strings(xs: &[&str]) -> Vec<String> {
    xs.iter().map(|s| s.to_string()).collect()
}

fn naming_context(concrete_traits: Vec<ConcreteTraitLongId>) -> NamingContext {
    NamingContext {
        trait_names: strings(&["Trait1", "Trait2", "Trait3"]),
        trait_paths: strings(&["test::Trait1", "test::Trait2", "test::Trait3"]),
        impl_names: strings(&["Impl1", "Impl2", "Impl3"]),
        impl_paths: strings(&["test::Impl1", "test::Impl2", "test::Impl3"]),
        impl_fn_names: strings(&["f", "g", "q"]),
        trait_fn_names: strings(&["f", "g", "h"]),
        trait_fn_paths: strings(&["test::Trait1::f", "test::Trait2::f", "test::Trait1::h"]),
        struct_paths: strings(&[]),
        enum_paths: strings(&[]),
        signature_paths: strings(&[]),
        type_names: strings(&["Felt", "Bool", "Text"]),
        concrete_traits,
    }
}

fn concrete_sig(param_tys: &[TypeId], return_type: TypeId) -> Signature {
    Signature {
        params: param_tys
            .iter()
            .map(|t| Parameter { ty: *t, mutability: Mutability::Immutable })
            .collect(),
        return_type,
        panicable: true,
    }
}

fn generic_sig(param_tys: &[GenericTy], return_type: GenericTy) -> GenericSignature {
    GenericSignature {
        params: param_tys
            .iter()
            .map(|t| GenericParameter { ty: *t, mutability: Mutability::Immutable })
            .collect(),
        return_type,
        panicable: true,
    }
}

fn trait_fn(id: usize, name: &str, sig: GenericSignature) -> TraitFunctionDecl {
    TraitFunctionDecl {
        id: TraitFunctionId(id),
        name: name.to_string(),
        signature: sig,
        has_body: false,
        stable_ptr: SyntaxStablePtrId(100 + id),
    }
}

fn impl_fn(id: usize, name: &str, sig: Signature) -> ImplFunctionDecl {
    ImplFunctionDecl {
        id: ImplFunctionId(id),
        name: name.to_string(),
        signature: sig,
        stable_ptr: SyntaxStablePtrId(200 + id),
    }
}

fn fresh_diags() -> SemanticDiagnostics {
    SemanticDiagnostics::new(ModuleFileId(0))
}

fn felt_to_felt() -> GenericSignature {
    generic_sig(&[GenericTy::Concrete(TypeId(0))], GenericTy::Concrete(TypeId(0)))
}

#[test]
fn conforming_pair_yields_no_findings() {
    let ctx = naming_context(vec![ConcreteTraitLongId {
        trait_id: TraitId(0),
        generic_args: vec![],
    }]);
    let t = TraitDecl { id: TraitId(0), functions: vec![trait_fn(0, "f", felt_to_felt())] };
    let imp = ImplDecl {
        id: ImplDefId(0),
        concrete_trait: ConcreteTraitId(0),
        self_ty: TypeId(0),
        functions: vec![impl_fn(0, "f", concrete_sig(&[TypeId(0)], TypeId(0)))],
        stable_ptr: SyntaxStablePtrId(5),
    };
    let mut diags = fresh_diags();
    validate_impl(&mut diags, &ctx, &t, &imp);
    assert_eq!(diags.build().len(), 0);
}

#[test]
fn wrong_parameter_count_single_finding() {
    let ctx = naming_context(vec![ConcreteTraitLongId {
        trait_id: TraitId(0),
        generic_args: vec![],
    }]);
    let t = TraitDecl { id: TraitId(0), functions: vec![trait_fn(0, "f", felt_to_felt())] };
    let imp = ImplDecl {
        id: ImplDefId(0),
        concrete_trait: ConcreteTraitId(0),
        self_ty: TypeId(0),
        functions: vec![impl_fn(0, "f", concrete_sig(&[TypeId(0), TypeId(1)], TypeId(0)))],
        stable_ptr: SyntaxStablePtrId(5),
    };
    let mut diags = fresh_diags();
    validate_impl(&mut diags, &ctx, &t, &imp);
    let built = diags.build();
    assert_eq!(built.len(), 1);
    match &built.get(0).kind {
        SemanticDiagnosticKind::WrongNumberOfParameters { expected, actual, .. } => {
            assert_eq!(*expected, 1);
            assert_eq!(*actual, 2);
        }
        other => panic!("unexpected kind: {other:?}"),
    }
}

#[test]
fn wrong_parameter_type_without_return_finding() {
    // Interface `Trait1` declares `fn f(x: Felt) -> Felt`; the implementation
    // declares `fn f(x: Bool) -> Felt`.
    let mut diags = fresh_diags();
    let expected = concrete_sig(&[TypeId(0)], TypeId(0));
    let actual = concrete_sig(&[TypeId(1)], TypeId(0));
    validate_impl_function_signature(
        &mut diags,
        ImplDefId(0),
        ImplFunctionId(0),
        TraitId(0),
        SyntaxStablePtrId(9),
        &expected,
        &actual,
    );
    let built = diags.build();
    assert_eq!(built.len(), 1);
    match &built.get(0).kind {
        SemanticDiagnosticKind::WrongParameterType { expected_ty, actual_ty, .. } => {
            assert_eq!(*expected_ty, TypeId(0));
            assert_eq!(*actual_ty, TypeId(1));
        }
        other => panic!("unexpected kind: {other:?}"),
    }
}

#[test]
fn only_first_type_mismatch_reported() {
    let mut diags = fresh_diags();
    let expected = concrete_sig(&[TypeId(0), TypeId(1)], TypeId(0));
    let actual = concrete_sig(&[TypeId(1), TypeId(2)], TypeId(0));
    validate_impl_function_signature(
        &mut diags,
        ImplDefId(0),
        ImplFunctionId(0),
        TraitId(0),
        SyntaxStablePtrId(9),
        &expected,
        &actual,
    );
    let built = diags.build();
    assert_eq!(built.len(), 1);
    assert!(matches!(
        built.get(0).kind,
        SemanticDiagnosticKind::WrongParameterType { expected_ty: TypeId(0), actual_ty: TypeId(1), .. }
    ));
}

#[test]
fn arity_mismatch_still_checks_return_and_panic() {
    let mut diags = fresh_diags();
    let mut expected = concrete_sig(&[TypeId(0)], TypeId(0));
    expected.panicable = false;
    let actual = concrete_sig(&[TypeId(0), TypeId(1)], TypeId(1));
    validate_impl_function_signature(
        &mut diags,
        ImplDefId(0),
        ImplFunctionId(0),
        TraitId(0),
        SyntaxStablePtrId(9),
        &expected,
        &actual,
    );
    let built = diags.build();
    assert_eq!(built.len(), 3);
    assert!(matches!(
        built.get(0).kind,
        SemanticDiagnosticKind::WrongNumberOfParameters { expected: 1, actual: 2, .. }
    ));
    assert!(matches!(
        built.get(1).kind,
        SemanticDiagnosticKind::WrongReturnTypeForImpl { expected_ty: TypeId(0), actual_ty: TypeId(1), .. }
    ));
    assert!(matches!(built.get(2).kind, SemanticDiagnosticKind::PassPanicAsNopanic { .. }));
}

#[test]
fn reference_disagreements_reported_per_parameter() {
    let mut diags = fresh_diags();
    let expected = Signature {
        params: vec![
            Parameter { ty: TypeId(0), mutability: Mutability::Reference },
            Parameter { ty: TypeId(1), mutability: Mutability::Immutable },
        ],
        return_type: TypeId(0),
        panicable: true,
    };
    let actual = Signature {
        params: vec![
            Parameter { ty: TypeId(0), mutability: Mutability::Immutable },
            Parameter { ty: TypeId(1), mutability: Mutability::Reference },
        ],
        return_type: TypeId(0),
        panicable: true,
    };
    validate_impl_function_signature(
        &mut diags,
        ImplDefId(0),
        ImplFunctionId(0),
        TraitId(0),
        SyntaxStablePtrId(9),
        &expected,
        &actual,
    );
    let built = diags.build();
    assert_eq!(built.len(), 2);
    assert!(matches!(
        built.get(0).kind,
        SemanticDiagnosticKind::ParamaterShouldBeReference { .. }
    ));
    assert!(matches!(
        built.get(1).kind,
        SemanticDiagnosticKind::ParameterShouldNotBeReference { .. }
    ));
}

#[test]
fn function_not_member_of_trait() {
    let ctx = naming_context(vec![ConcreteTraitLongId {
        trait_id: TraitId(0),
        generic_args: vec![],
    }]);
    let t = TraitDecl { id: TraitId(0), functions: vec![trait_fn(0, "f", felt_to_felt())] };
    let imp = ImplDecl {
        id: ImplDefId(0),
        concrete_trait: ConcreteTraitId(0),
        self_ty: TypeId(0),
        functions: vec![
            impl_fn(0, "f", concrete_sig(&[TypeId(0)], TypeId(0))),
            impl_fn(2, "q", concrete_sig(&[], TypeId(0))),
        ],
        stable_ptr: SyntaxStablePtrId(5),
    };
    let mut diags = fresh_diags();
    validate_impl(&mut diags, &ctx, &t, &imp);
    let built = diags.build();
    assert_eq!(built.len(), 1);
    match &built.get(0).kind {
        SemanticDiagnosticKind::FunctionNotMemberOfTrait { impl_function_id, trait_id, .. } => {
            assert_eq!(*impl_function_id, ImplFunctionId(2));
            assert_eq!(*trait_id, TraitId(0));
        }
        other => panic!("unexpected kind: {other:?}"),
    }
}

#[test]
fn missing_items_listed_in_declaration_order() {
    let ctx = naming_context(vec![ConcreteTraitLongId {
        trait_id: TraitId(0),
        generic_args: vec![],
    }]);
    let t = TraitDecl {
        id: TraitId(0),
        functions: vec![
            trait_fn(0, "f", felt_to_felt()),
            trait_fn(1, "g", felt_to_felt()),
            trait_fn(2, "h", felt_to_felt()),
        ],
    };
    let imp = ImplDecl {
        id: ImplDefId(0),
        concrete_trait: ConcreteTraitId(0),
        self_ty: TypeId(0),
        functions: vec![impl_fn(1, "g", concrete_sig(&[TypeId(0)], TypeId(0)))],
        stable_ptr: SyntaxStablePtrId(5),
    };
    let mut diags = fresh_diags();
    validate_impl(&mut diags, &ctx, &t, &imp);
    let built = diags.build();
    assert_eq!(built.len(), 1);
    match &built.get(0).kind {
        SemanticDiagnosticKind::MissingItemsInImpl { item_names } => {
            assert_eq!(item_names, &strings(&["f", "h"]));
        }
        other => panic!("unexpected kind: {other:?}"),
    }
    // The finding is anchored at the implementation itself.
    assert_eq!(built.get(0).stable_location.stable_ptr, SyntaxStablePtrId(5));
}

#[test]
fn generic_substitution_before_comparison() {
    // Interface declares `fn f(x: T0) -> T0`; under `Trait1::<Bool>` a
    // conforming implementation takes and returns `Bool`.
    let args = vec![TypeId(1)];
    let g = generic_sig(&[GenericTy::Param(0)], GenericTy::Param(0));
    let substituted = substitute_signature(&g, &args);
    assert_eq!(substituted.params.len(), 1);
    assert_eq!(substituted.params[0].ty, TypeId(1));
    assert_eq!(substituted.return_type, TypeId(1));

    let ctx = naming_context(vec![ConcreteTraitLongId {
        trait_id: TraitId(0),
        generic_args: vec![TypeId(1)],
    }]);
    let t = TraitDecl {
        id: TraitId(0),
        functions: vec![trait_fn(0, "f", generic_sig(&[GenericTy::Param(0)], GenericTy::Param(0)))],
    };
    let imp = ImplDecl {
        id: ImplDefId(0),
        concrete_trait: ConcreteTraitId(0),
        self_ty: TypeId(1),
        functions: vec![impl_fn(0, "f", concrete_sig(&[TypeId(0)], TypeId(0)))],
        stable_ptr: SyntaxStablePtrId(5),
    };
    let mut diags = fresh_diags();
    validate_impl(&mut diags, &ctx, &t, &imp);
    let built = diags.build();
    assert_eq!(built.len(), 2);
    assert!(matches!(
        built.get(0).kind,
        SemanticDiagnosticKind::WrongParameterType { expected_ty: TypeId(1), actual_ty: TypeId(0), .. }
    ));
    assert!(matches!(
        built.get(1).kind,
        SemanticDiagnosticKind::WrongReturnTypeForImpl { expected_ty: TypeId(1), actual_ty: TypeId(0), .. }
    ));
}

#[test]
fn trait_declaration_checks() {
    let t = TraitDecl {
        id: TraitId(0),
        functions: vec![
            TraitFunctionDecl {
                id: TraitFunctionId(0),
                name: "f".to_string(),
                signature: felt_to_felt(),
                has_body: true,
                stable_ptr: SyntaxStablePtrId(100),
            },
            TraitFunctionDecl {
                id: TraitFunctionId(1),
                name: "g".to_string(),
                signature: GenericSignature {
                    params: vec![GenericParameter {
                        ty: GenericTy::Concrete(TypeId(0)),
                        mutability: Mutability::Mutable,
                    }],
                    return_type: GenericTy::Concrete(TypeId(0)),
                    panicable: true,
                },
                has_body: false,
                stable_ptr: SyntaxStablePtrId(101),
            },
        ],
    };
    let mut diags = fresh_diags();
    validate_trait(&mut diags, &t);
    let built = diags.build();
    assert_eq!(built.len(), 2);
    assert!(matches!(
        built.get(0).kind,
        SemanticDiagnosticKind::TraitFunctionWithBody { function_id: TraitFunctionId(0), .. }
    ));
    assert!(matches!(
        built.get(1).kind,
        SemanticDiagnosticKind::TraitParamMutable { function_id: TraitFunctionId(1), .. }
    ));
}

fn resolution_world() -> (Vec<TraitDecl>, Vec<ConcreteTraitId>) {
    let traits = vec![
        TraitDecl { id: TraitId(0), functions: vec![trait_fn(0, "f", felt_to_felt())] },
        TraitDecl { id: TraitId(1), functions: vec![trait_fn(1, "f", felt_to_felt())] },
        TraitDecl { id: TraitId(2), functions: vec![trait_fn(2, "f", felt_to_felt())] },
    ];
    let scope = vec![ConcreteTraitId(0), ConcreteTraitId(1), ConcreteTraitId(2)];
    (traits, scope)
}

fn simple_impl(id: usize, ct: usize, self_ty: TypeId) -> ImplDecl {
    ImplDecl {
        id: ImplDefId(id),
        concrete_trait: ConcreteTraitId(ct),
        self_ty,
        functions: vec![],
        stable_ptr: SyntaxStablePtrId(50 + id),
    }
}

fn resolution_context() -> NamingContext {
    naming_context(vec![
        ConcreteTraitLongId { trait_id: TraitId(0), generic_args: vec![] },
        ConcreteTraitLongId { trait_id: TraitId(1), generic_args: vec![] },
        ConcreteTraitLongId { trait_id: TraitId(2), generic_args: vec![] },
    ])
}

#[test]
fn unique_resolution_yields_no_finding() {
    let (traits, scope) = resolution_world();
    let ctx = resolution_context();
    let impls = vec![simple_impl(0, 0, TypeId(0)), simple_impl(1, 1, TypeId(1))];
    let mut diags = fresh_diags();
    let r = resolve_method(
        &mut diags,
        &ctx,
        &traits,
        &impls,
        &scope,
        TypeId(0),
        &"f".to_string(),
        SyntaxStablePtrId(9),
    );
    assert_eq!(
        r,
        MethodResolution::Unique {
            trait_function_id: TraitFunctionId(0),
            impl_def_id: ImplDefId(0),
        }
    );
    assert_eq!(diags.build().len(), 0);
}

#[test]
fn no_implementation_names_expected_trait() {
    let (traits, scope) = resolution_world();
    let ctx = resolution_context();
    // The only impls apply to a different receiver type.
    let impls = vec![simple_impl(0, 0, TypeId(1))];
    let mut diags = fresh_diags();
    let r = resolve_method(
        &mut diags,
        &ctx,
        &traits,
        &impls,
        &scope,
        TypeId(0),
        &"f".to_string(),
        SyntaxStablePtrId(9),
    );
    assert_eq!(r, MethodResolution::NoImplementation);
    let built = diags.build();
    assert_eq!(built.len(), 1);
    match &built.get(0).kind {
        SemanticDiagnosticKind::NoImplementationOfTraitFunction {
            concrete_trait_id,
            function_name,
        } => {
            assert_eq!(*concrete_trait_id, ConcreteTraitId(0));
            assert_eq!(function_name, "f");
        }
        other => panic!("unexpected kind: {other:?}"),
    }
}

#[test]
fn three_implementations_all_listed() {
    let (traits, scope) = resolution_world();
    let ctx = resolution_context();
    // Three implementations of the same concrete trait apply to the receiver.
    let impls = vec![
        simple_impl(0, 0, TypeId(0)),
        simple_impl(1, 0, TypeId(0)),
        simple_impl(2, 0, TypeId(0)),
    ];
    let mut diags = fresh_diags();
    let r = resolve_method(
        &mut diags,
        &ctx,
        &traits,
        &impls,
        &scope,
        TypeId(0),
        &"f".to_string(),
        SyntaxStablePtrId(9),
    );
    assert_eq!(r, MethodResolution::MultipleImplementations);
    let built = diags.build();
    assert_eq!(built.len(), 1);
    match &built.get(0).kind {
        SemanticDiagnosticKind::MultipleImplementationOfTraitFunction {
            trait_id,
            all_impl_ids,
            function_name,
        } => {
            assert_eq!(*trait_id, TraitId(0));
            assert_eq!(all_impl_ids, &vec![ImplDefId(0), ImplDefId(1), ImplDefId(2)]);
            assert_eq!(function_name, "f");
        }
        other => panic!("unexpected kind: {other:?}"),
    }
}

#[test]
fn ambiguity_names_first_two_of_three_candidates() {
    let (traits, scope) = resolution_world();
    let ctx = resolution_context();
    // Three distinct interfaces each have an applicable implementation: the
    // finding names the first two candidates, and none is silently dropped
    // from consideration before the ambiguity is surfaced.
    let impls = vec![
        simple_impl(0, 0, TypeId(0)),
        simple_impl(1, 1, TypeId(0)),
        simple_impl(2, 2, TypeId(0)),
    ];
    let mut diags = fresh_diags();
    let r = resolve_method(
        &mut diags,
        &ctx,
        &traits,
        &impls,
        &scope,
        TypeId(0),
        &"f".to_string(),
        SyntaxStablePtrId(9),
    );
    assert_eq!(r, MethodResolution::Ambiguous);
    let built = diags.build();
    assert_eq!(built.len(), 1);
    match &built.get(0).kind {
        SemanticDiagnosticKind::AmbiguousTrait { trait_function_id0, trait_function_id1 } => {
            assert_eq!(*trait_function_id0, TraitFunctionId(0));
            assert_eq!(*trait_function_id1, TraitFunctionId(1));
        }
        other => panic!("unexpected kind: {other:?}"),
    }
}

#[test]
fn match_arms_agree_no_finding() {
    let mut diags = fresh_diags();
    let arms = vec![
        Branch { ty: TypeId(0), stable_ptr: SyntaxStablePtrId(1) },
        Branch { ty: TypeId(0), stable_ptr: SyntaxStablePtrId(2) },
    ];
    let merged = check_match_arms(&mut diags, &arms);
    assert_eq!(merged, Some(TypeId(0)));
    assert_eq!(diags.build().len(), 0);
}

#[test]
fn match_arm_mismatch_reported() {
    let mut diags = fresh_diags();
    let arms = vec![
        Branch { ty: TypeId(0), stable_ptr: SyntaxStablePtrId(1) },
        Branch { ty: TypeId(1), stable_ptr: SyntaxStablePtrId(2) },
    ];
    let merged = check_match_arms(&mut diags, &arms);
    assert_eq!(merged, Some(TypeId(0)));
    let built = diags.build();
    assert_eq!(built.len(), 1);
    assert!(matches!(
        built.get(0).kind,
        SemanticDiagnosticKind::IncompatibleMatchArms { match_ty: TypeId(0), arm_ty: TypeId(1) }
    ));
    assert_eq!(built.get(0).stable_location.stable_ptr, SyntaxStablePtrId(2));
}

#[test]
fn expected_type_not_rederived_after_mismatch() {
    let mut diags = fresh_diags();
    let arms = vec![
        Branch { ty: TypeId(0), stable_ptr: SyntaxStablePtrId(1) },
        Branch { ty: TypeId(1), stable_ptr: SyntaxStablePtrId(2) },
        Branch { ty: TypeId(0), stable_ptr: SyntaxStablePtrId(3) },
        Branch { ty: TypeId(2), stable_ptr: SyntaxStablePtrId(4) },
    ];
    let merged = check_match_arms(&mut diags, &arms);
    assert_eq!(merged, Some(TypeId(0)));
    let built = diags.build();
    assert_eq!(built.len(), 2);
    assert!(matches!(
        built.get(0).kind,
        SemanticDiagnosticKind::IncompatibleMatchArms { match_ty: TypeId(0), arm_ty: TypeId(1) }
    ));
    assert!(matches!(
        built.get(1).kind,
        SemanticDiagnosticKind::IncompatibleMatchArms { match_ty: TypeId(0), arm_ty: TypeId(2) }
    ));
}

#[test]
fn empty_match_has_no_type_and_no_finding() {
    let mut diags = fresh_diags();
    let merged = check_match_arms(&mut diags, &vec![]);
    assert_eq!(merged, None);
    assert_eq!(diags.build().len(), 0);
}

#[test]
fn if_blocks_checked() {
    let mut diags = fresh_diags();
    let same = check_if_blocks(&mut diags, TypeId(0), TypeId(0), SyntaxStablePtrId(1));
    assert_eq!(same, TypeId(0));
    assert_eq!(diags.diagnostics.len(), 0);
    let merged = check_if_blocks(&mut diags, TypeId(0), TypeId(1), SyntaxStablePtrId(2));
    assert_eq!(merged, TypeId(0));
    let built = diags.build();
    assert_eq!(built.len(), 1);
    assert!(matches!(
        built.get(0).kind,
        SemanticDiagnosticKind::IncompatibleIfBlockTypes { block_if_ty: TypeId(0), block_else_ty: TypeId(1) }
    ));
}
