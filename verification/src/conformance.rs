//! The trait conformance checker: validates an implementation of an
//! interface ("trait") against the interface's declared function signatures.
//!
//! Every problem becomes a finding appended to the analysis unit's
//! [`SemanticDiagnostics`]; analysis always proceeds after recording one.
//! The exact sequence of findings each check appends is pinned down by the
//! `*_models` spec functions below, and the laws at the end of the module
//! state the guarantees a conforming (or partially conforming) pair enjoys.

use vstd::prelude::*;

use crate::context::NamingContext;
use crate::diagnostic::{DiagModel, KindModel, SemanticDiagnostics, SemanticDiagnosticKind, StableLocation};
use crate::ids::{
    ConcreteTraitId, ImplDefId, ImplFunctionId, ModuleFileId, SyntaxStablePtrId, TraitFunctionId,
    TraitId, TypeId,
};

verus! {

/// How a parameter is passed: owned and immutable, owned and rebindable, or
/// by mutable reference.
#[derive(Clone, Copy, Debug, PartialEq, Eq, Structural)]
pub enum Mutability {
    Immutable,
    Mutable,
    Reference,
}

/// A parameter of a concrete (fully substituted) function signature.
#[derive(Clone, Copy, Debug, PartialEq, Eq, Structural)]
pub struct Parameter {
    pub ty: TypeId,
    pub mutability: Mutability,
}

/// A concrete function signature: parameters in order, return type, and
/// whether the function may panic.
pub struct Signature {
    pub params: Vec<Parameter>,
    pub return_type: TypeId,
    pub panicable: bool,
}

/// The ghost abstraction of a concrete signature.
#[verifier::ext_equal]
pub struct SigModel {
    pub params: Seq<Parameter>,
    pub return_type: TypeId,
    pub panicable: bool,
}

impl View for Signature {
    type V = SigModel;

    open spec fn view(&self) -> SigModel {
        SigModel {
            params: self.params@,
            return_type: self.return_type,
            panicable: self.panicable,
        }
    }
}

/// A type as an interface declares it: either already concrete, or one of
/// the interface's generic parameters, by position.
#[derive(Clone, Copy, Debug, PartialEq, Eq, Structural)]
pub enum GenericTy {
    Concrete(TypeId),
    Param(usize),
}

/// A parameter of a signature as an interface declares it.
#[derive(Clone, Copy, Debug, PartialEq, Eq, Structural)]
pub struct GenericParameter {
    pub ty: GenericTy,
    pub mutability: Mutability,
}

/// A function signature as an interface declares it, over the interface's
/// generic parameters. Substituting a concrete trait's generic arguments into
/// it yields a concrete [`Signature`].
pub struct GenericSignature {
    pub params: Vec<GenericParameter>,
    pub return_type: GenericTy,
    pub panicable: bool,
}

/// One function signature declared by an interface.
pub struct TraitFunctionDecl {
    pub id: TraitFunctionId,
    pub name: String,
    pub signature: GenericSignature,
    pub has_body: bool,
    pub stable_ptr: SyntaxStablePtrId,
}

/// An interface declaration: its functions in declaration order.
pub struct TraitDecl {
    pub id: TraitId,
    pub functions: Vec<TraitFunctionDecl>,
}

/// One function of an implementation, with its concrete signature.
pub struct ImplFunctionDecl {
    pub id: ImplFunctionId,
    pub name: String,
    pub signature: Signature,
    pub stable_ptr: SyntaxStablePtrId,
}

/// An implementation: the concrete trait it claims to implement, the type it
/// applies to, and its functions in declaration order.
pub struct ImplDecl {
    pub id: ImplDefId,
    pub concrete_trait: ConcreteTraitId,
    pub self_ty: TypeId,
    pub functions: Vec<ImplFunctionDecl>,
    pub stable_ptr: SyntaxStablePtrId,
}

/// The finding a checker appends: always at the reporting unit's module file,
/// never shifted after the node.
pub open spec fn at(mf: ModuleFileId, ptr: SyntaxStablePtrId, kind: KindModel) -> DiagModel {
    DiagModel {
        location: StableLocation { module_file_id: mf, stable_ptr: ptr },
        kind,
        after: false,
    }
}

/// A declared type is meaningful under `n` generic arguments.
pub open spec fn ty_wf(t: GenericTy, n: nat) -> bool {
    match t {
        GenericTy::Concrete(ty) => true,
        GenericTy::Param(i) => i < n,
    }
}

/// A declared signature is meaningful under `n` generic arguments.
pub open spec fn gsig_wf(g: GenericSignature, n: nat) -> bool {
    &&& ty_wf(g.return_type, n)
    &&& forall|i: int| 0 <= i < g.params@.len() ==> ty_wf(#[trigger] g.params@[i].ty, n)
}

/// A declared type with the concrete trait's generic arguments substituted
/// into it.
pub open spec fn spec_subst_ty(t: GenericTy, args: Seq<TypeId>) -> TypeId {
    match t {
        GenericTy::Concrete(ty) => ty,
        GenericTy::Param(i) => args[i as int],
    }
}

/// A declared signature with the concrete trait's generic arguments
/// substituted into it.
pub open spec fn spec_subst_sig(g: GenericSignature, args: Seq<TypeId>) -> SigModel {
    SigModel {
        params: g.params@.map_values(
            |p: GenericParameter|
                Parameter { ty: spec_subst_ty(p.ty, args), mutability: p.mutability },
        ),
        return_type: spec_subst_ty(g.return_type, args),
        panicable: g.panicable,
    }
}

fn subst_ty(t: GenericTy, args: &Vec<TypeId>) -> (r: TypeId)
    requires
        ty_wf(t, args@.len()),
    ensures
        r == spec_subst_ty(t, args@),
{
    match t {
        GenericTy::Concrete(ty) => ty,
        GenericTy::Param(i) => args[i],
    }
}

/// Substitute a concrete trait's generic arguments into an interface-declared
/// signature. Substitution always happens before any conformance comparison.
pub fn substitute_signature(g: &GenericSignature, args: &Vec<TypeId>) -> (r: Signature)
    requires
        gsig_wf(*g, args@.len()),
    ensures
        r@ == spec_subst_sig(*g, args@),
{
    let mut params: Vec<Parameter> = Vec::new();
    let mut i: usize = 0;
    let ghost full = spec_subst_sig(*g, args@).params;
    proof {
        assert(params@ =~= full.take(0));
    }
    while i < g.params.len()
        invariant
            i <= g.params@.len(),
            full == spec_subst_sig(*g, args@).params,
            gsig_wf(*g, args@.len()),
            params@ == full.take(i as int),
        decreases g.params@.len() - i,
    {
        let p = g.params[i];
        let ghost prev = params@;
        params.push(Parameter { ty: subst_ty(p.ty, args), mutability: p.mutability });
        proof {
            assert(params@ =~= full.take(i as int + 1));
        }
        i = i + 1;
    }
    proof {
        assert(full.take(g.params@.len() as int) =~= full);
    }
    Signature { params, return_type: subst_ty(g.return_type, args), panicable: g.panicable }
}

/// The position of the first per-parameter type disagreement, if any.
pub open spec fn first_type_mismatch(exp: Seq<Parameter>, act: Seq<Parameter>) -> Option<int>
    decreases exp.len(),
{
    if exp.len() == 0 || act.len() == 0 {
        None
    } else if exp[0].ty != act[0].ty {
        Some(0)
    } else {
        match first_type_mismatch(exp.drop_first(), act.drop_first()) {
            None => None,
            Some(j) => Some(j + 1),
        }
    }
}

proof fn lemma_first_type_mismatch_at(exp: Seq<Parameter>, act: Seq<Parameter>, j: int)
    requires
        exp.len() == act.len(),
        0 <= j < exp.len(),
        forall|k: int| 0 <= k < j ==> exp[k].ty == act[k].ty,
        exp[j].ty != act[j].ty,
    ensures
        first_type_mismatch(exp, act) == Some(j),
    decreases j,
{
    if j > 0 {
        lemma_first_type_mismatch_at(exp.drop_first(), act.drop_first(), j - 1);
    }
}

proof fn lemma_no_type_mismatch(exp: Seq<Parameter>, act: Seq<Parameter>)
    requires
        exp.len() == act.len(),
        forall|k: int| 0 <= k < exp.len() ==> exp[k].ty == act[k].ty,
    ensures
        first_type_mismatch(exp, act) is None,
    decreases exp.len(),
{
    if exp.len() > 0 {
        lemma_no_type_mismatch(exp.drop_first(), act.drop_first());
    }
}

fn first_type_mismatch_index(exp: &Vec<Parameter>, act: &Vec<Parameter>) -> (r: Option<usize>)
    requires
        exp@.len() == act@.len(),
    ensures
        first_type_mismatch(exp@, act@) == (match r {
            Some(i) => Some(i as int),
            None => None::<int>,
        }),
        r matches Some(i) ==> i < exp@.len(),
{
    let mut i: usize = 0;
    while i < exp.len() && exp[i].ty == act[i].ty
        invariant
            i <= exp@.len(),
            exp@.len() == act@.len(),
            forall|k: int| 0 <= k < i ==> exp@[k].ty == act@[k].ty,
        decreases exp@.len() - i,
    {
        i = i + 1;
    }
    if i < exp.len() {
        proof {
            lemma_first_type_mismatch_at(exp@, act@, i as int);
        }
        Some(i)
    } else {
        proof {
            lemma_no_type_mismatch(exp@, act@);
        }
        None
    }
}

/// The at-most-one finding of the arity check.
pub open spec fn arity_models(
    mf: ModuleFileId,
    ptr: SyntaxStablePtrId,
    impl_def_id: ImplDefId,
    impl_function_id: ImplFunctionId,
    trait_id: TraitId,
    exp: SigModel,
    act: SigModel,
) -> Seq<DiagModel> {
    if exp.params.len() != act.params.len() {
        seq![
            at(
                mf,
                ptr,
                KindModel::WrongNumberOfParameters {
                    impl_def_id,
                    impl_function_id,
                    trait_id,
                    expected: exp.params.len() as usize,
                    actual: act.params.len() as usize,
                },
            ),
        ]
    } else {
        Seq::empty()
    }
}

/// The at-most-one finding of the per-parameter type check: only the first
/// mismatching parameter is reported, to avoid cascades from a single
/// upstream divergence.
pub open spec fn param_type_models(
    mf: ModuleFileId,
    ptr: SyntaxStablePtrId,
    impl_def_id: ImplDefId,
    impl_function_id: ImplFunctionId,
    trait_id: TraitId,
    exp: SigModel,
    act: SigModel,
) -> Seq<DiagModel> {
    match first_type_mismatch(exp.params, act.params) {
        None => Seq::empty(),
        Some(j) => seq![
            at(
                mf,
                ptr,
                KindModel::WrongParameterType {
                    impl_def_id,
                    impl_function_id,
                    trait_id,
                    expected_ty: exp.params[j].ty,
                    actual_ty: act.params[j].ty,
                },
            ),
        ],
    }
}

/// The at-most-one finding of the reference-ness check of one parameter
/// position: the two declarations must agree on whether the parameter is
/// taken by reference.
pub open spec fn ref_model_at(
    mf: ModuleFileId,
    ptr: SyntaxStablePtrId,
    impl_def_id: ImplDefId,
    impl_function_id: ImplFunctionId,
    trait_id: TraitId,
    exp_p: Parameter,
    act_p: Parameter,
) -> Seq<DiagModel> {
    if exp_p.mutability == Mutability::Reference && act_p.mutability != Mutability::Reference {
        seq![
            at(
                mf,
                ptr,
                KindModel::ParamaterShouldBeReference { impl_def_id, impl_function_id, trait_id },
            ),
        ]
    } else if exp_p.mutability != Mutability::Reference && act_p.mutability
        == Mutability::Reference {
        seq![
            at(
                mf,
                ptr,
                KindModel::ParameterShouldNotBeReference {
                    impl_def_id,
                    impl_function_id,
                    trait_id,
                },
            ),
        ]
    } else {
        Seq::empty()
    }
}

/// The findings of the reference-ness check over the first `i` parameter
/// positions, in order.
pub open spec fn ref_models_upto(
    mf: ModuleFileId,
    ptr: SyntaxStablePtrId,
    impl_def_id: ImplDefId,
    impl_function_id: ImplFunctionId,
    trait_id: TraitId,
    exp: Seq<Parameter>,
    act: Seq<Parameter>,
    i: int,
) -> Seq<DiagModel>
    decreases i,
{
    if i <= 0 {
        Seq::empty()
    } else {
        ref_models_upto(mf, ptr, impl_def_id, impl_function_id, trait_id, exp, act, i - 1)
            + ref_model_at(mf, ptr, impl_def_id, impl_function_id, trait_id, exp[i - 1], act[i - 1])
    }
}

/// The at-most-one finding of the return-type check.
pub open spec fn return_models(
    mf: ModuleFileId,
    ptr: SyntaxStablePtrId,
    impl_def_id: ImplDefId,
    impl_function_id: ImplFunctionId,
    trait_id: TraitId,
    exp: SigModel,
    act: SigModel,
) -> Seq<DiagModel> {
    if exp.return_type != act.return_type {
        seq![
            at(
                mf,
                ptr,
                KindModel::WrongReturnTypeForImpl {
                    impl_def_id,
                    impl_function_id,
                    trait_id,
                    expected_ty: exp.return_type,
                    actual_ty: act.return_type,
                },
            ),
        ]
    } else {
        Seq::empty()
    }
}

/// The at-most-one finding of the panic-ability check: an interface function
/// declared non-panicking admits no panicking implementation.
pub open spec fn panic_models(
    mf: ModuleFileId,
    ptr: SyntaxStablePtrId,
    impl_function_id: ImplFunctionId,
    trait_id: TraitId,
    exp: SigModel,
    act: SigModel,
) -> Seq<DiagModel> {
    if !exp.panicable && act.panicable {
        seq![at(mf, ptr, KindModel::PassPanicAsNopanic { impl_function_id, trait_id })]
    } else {
        Seq::empty()
    }
}

/// Every finding the signature checks produce for one implementation
/// function against its substituted interface signature, in check order:
/// arity; on matching arity the first type mismatch and the reference-ness
/// disagreements (comparing past the shorter list would be meaningless);
/// then, in every case, return type and panic-ability.
pub open spec fn signature_models(
    mf: ModuleFileId,
    ptr: SyntaxStablePtrId,
    impl_def_id: ImplDefId,
    impl_function_id: ImplFunctionId,
    trait_id: TraitId,
    exp: SigModel,
    act: SigModel,
) -> Seq<DiagModel> {
    let per_param = if exp.params.len() == act.params.len() {
        param_type_models(mf, ptr, impl_def_id, impl_function_id, trait_id, exp, act)
            + ref_models_upto(
            mf,
            ptr,
            impl_def_id,
            impl_function_id,
            trait_id,
            exp.params,
            act.params,
            exp.params.len() as int,
        )
    } else {
        Seq::empty()
    };
    arity_models(mf, ptr, impl_def_id, impl_function_id, trait_id, exp, act) + per_param
        + return_models(mf, ptr, impl_def_id, impl_function_id, trait_id, exp, act)
        + panic_models(mf, ptr, impl_function_id, trait_id, exp, act)
}

/// Validate one implementation function's concrete signature against the
/// interface function signature it is matched with, the latter with generic
/// arguments already substituted. Appends exactly the findings given by
/// [`signature_models`].
pub fn validate_impl_function_signature(
    diags: &mut SemanticDiagnostics,
    impl_def_id: ImplDefId,
    impl_function_id: ImplFunctionId,
    trait_id: TraitId,
    stable_ptr: SyntaxStablePtrId,
    expected: &Signature,
    actual: &Signature,
)
    ensures
        final(diags)@ == old(diags)@ + signature_models(
            old(diags).module_file_id,
            stable_ptr,
            impl_def_id,
            impl_function_id,
            trait_id,
            expected@,
            actual@,
        ),
        final(diags).module_file_id == old(diags).module_file_id,
{
    let ghost base = diags@;
    let ghost mf = diags.module_file_id;
    let ghost arity_part = arity_models(
        mf,
        stable_ptr,
        impl_def_id,
        impl_function_id,
        trait_id,
        expected@,
        actual@,
    );
    let ghost per_param_part = if expected@.params.len() == actual@.params.len() {
        param_type_models(
            mf,
            stable_ptr,
            impl_def_id,
            impl_function_id,
            trait_id,
            expected@,
            actual@,
        ) + ref_models_upto(
            mf,
            stable_ptr,
            impl_def_id,
            impl_function_id,
            trait_id,
            expected@.params,
            actual@.params,
            expected@.params.len() as int,
        )
    } else {
        Seq::<DiagModel>::empty()
    };
    if expected.params.len() != actual.params.len() {
        diags.report_by_ptr(
            stable_ptr,
            SemanticDiagnosticKind::WrongNumberOfParameters {
                impl_def_id,
                impl_function_id,
                trait_id,
                expected: expected.params.len(),
                actual: actual.params.len(),
            },
        );
        proof {
            assert(diags@ =~= base + arity_part + per_param_part);
        }
    } else {
        proof {
            assert(diags@ =~= base + arity_part);
        }
        match first_type_mismatch_index(&expected.params, &actual.params) {
            Some(j) => {
                diags.report_by_ptr(
                    stable_ptr,
                    SemanticDiagnosticKind::WrongParameterType {
                        impl_def_id,
                        impl_function_id,
                        trait_id,
                        expected_ty: expected.params[j].ty,
                        actual_ty: actual.params[j].ty,
                    },
                );
            },
            None => {},
        }
        let ghost tm_part = param_type_models(
            mf,
            stable_ptr,
            impl_def_id,
            impl_function_id,
            trait_id,
            expected@,
            actual@,
        );
        proof {
            assert(diags@ =~= base + arity_part + tm_part);
        }
        let n = expected.params.len();
        let mut i: usize = 0;
        while i < n
            invariant
                i <= n,
                n == expected.params@.len(),
                n == actual.params@.len(),
                diags@ == base + arity_part + tm_part + ref_models_upto(
                    mf,
                    stable_ptr,
                    impl_def_id,
                    impl_function_id,
                    trait_id,
                    expected.params@,
                    actual.params@,
                    i as int,
                ),
                diags.module_file_id == mf,
            decreases n - i,
        {
            let ep = expected.params[i];
            let ap = actual.params[i];
            if ep.mutability == Mutability::Reference && ap.mutability != Mutability::Reference {
                diags.report_by_ptr(
                    stable_ptr,
                    SemanticDiagnosticKind::ParamaterShouldBeReference {
                        impl_def_id,
                        impl_function_id,
                        trait_id,
                    },
                );
            } else if ep.mutability != Mutability::Reference && ap.mutability
                == Mutability::Reference {
                diags.report_by_ptr(
                    stable_ptr,
                    SemanticDiagnosticKind::ParameterShouldNotBeReference {
                        impl_def_id,
                        impl_function_id,
                        trait_id,
                    },
                );
            }
            proof {
                assert(diags@ =~= base + arity_part + tm_part + ref_models_upto(
                    mf,
                    stable_ptr,
                    impl_def_id,
                    impl_function_id,
                    trait_id,
                    expected.params@,
                    actual.params@,
                    i as int + 1,
                ));
            }
            i = i + 1;
        }
        proof {
            assert(diags@ =~= base + arity_part + per_param_part);
        }
    }
    if expected.return_type != actual.return_type {
        diags.report_by_ptr(
            stable_ptr,
            SemanticDiagnosticKind::WrongReturnTypeForImpl {
                impl_def_id,
                impl_function_id,
                trait_id,
                expected_ty: expected.return_type,
                actual_ty: actual.return_type,
            },
        );
    }
    let ghost ret_part = return_models(
        mf,
        stable_ptr,
        impl_def_id,
        impl_function_id,
        trait_id,
        expected@,
        actual@,
    );
    proof {
        assert(diags@ =~= base + arity_part + per_param_part + ret_part);
    }
    if !expected.panicable && actual.panicable {
        diags.report_by_ptr(
            stable_ptr,
            SemanticDiagnosticKind::PassPanicAsNopanic { impl_function_id, trait_id },
        );
    }
    proof {
        assert(diags@ =~= base + arity_part + per_param_part + ret_part + panic_models(
            mf,
            stable_ptr,
            impl_function_id,
            trait_id,
            expected@,
            actual@,
        ));
        assert(diags@ =~= base + signature_models(
            mf,
            stable_ptr,
            impl_def_id,
            impl_function_id,
            trait_id,
            expected@,
            actual@,
        ));
    }
}


/// An interface function declares a parameter as rebindable (`Mutable`),
/// which an interface must never do.
pub open spec fn has_mutable_param(ps: Seq<GenericParameter>) -> bool {
    exists|i: int| 0 <= i < ps.len() && ps[i].mutability == Mutability::Mutable
}

fn has_mutable(ps: &Vec<GenericParameter>) -> (r: bool)
    ensures
        r == has_mutable_param(ps@),
{
    let mut i: usize = 0;
    while i < ps.len()
        invariant
            i <= ps@.len(),
            forall|k: int| 0 <= k < i ==> ps@[k].mutability != Mutability::Mutable,
        decreases ps@.len() - i,
    {
        if ps[i].mutability == Mutability::Mutable {
            return true;
        }
        i = i + 1;
    }
    false
}

/// The findings of the interface-side checks of one interface function: it
/// must not carry a body, and its parameters must not be declared mutable.
/// These are properties of the interface declaration alone, checked once per
/// interface function, never per implementation.
pub open spec fn trait_fn_models(
    mf: ModuleFileId,
    trait_id: TraitId,
    tf: TraitFunctionDecl,
) -> Seq<DiagModel> {
    (if tf.has_body {
        seq![
            at(
                mf,
                tf.stable_ptr,
                KindModel::TraitFunctionWithBody { trait_id, function_id: tf.id },
            ),
        ]
    } else {
        Seq::empty()
    }) + (if has_mutable_param(tf.signature.params@) {
        seq![at(mf, tf.stable_ptr, KindModel::TraitParamMutable { trait_id, function_id: tf.id })]
    } else {
        Seq::empty()
    })
}

/// Validate one interface function declaration. Appends exactly the findings
/// given by [`trait_fn_models`].
pub fn validate_trait_function(
    diags: &mut SemanticDiagnostics,
    trait_id: TraitId,
    tf: &TraitFunctionDecl,
)
    ensures
        final(diags)@ == old(diags)@ + trait_fn_models(old(diags).module_file_id, trait_id, *tf),
        final(diags).module_file_id == old(diags).module_file_id,
{
    let ghost base = diags@;
    let ghost mf = diags.module_file_id;
    if tf.has_body {
        diags.report_by_ptr(
            tf.stable_ptr,
            SemanticDiagnosticKind::TraitFunctionWithBody { trait_id, function_id: tf.id },
        );
    }
    if has_mutable(&tf.signature.params) {
        diags.report_by_ptr(
            tf.stable_ptr,
            SemanticDiagnosticKind::TraitParamMutable { trait_id, function_id: tf.id },
        );
    }
    proof {
        assert(diags@ =~= base + trait_fn_models(mf, trait_id, *tf));
    }
}

/// The interface-side findings of the first `i` interface functions, in
/// declaration order.
pub open spec fn trait_models_upto(mf: ModuleFileId, t: TraitDecl, i: int) -> Seq<DiagModel>
    decreases i,
{
    if i <= 0 {
        Seq::empty()
    } else {
        trait_models_upto(mf, t, i - 1) + trait_fn_models(mf, t.id, t.functions@[i - 1])
    }
}

/// The interface-side findings of a whole interface declaration.
pub open spec fn trait_models(mf: ModuleFileId, t: TraitDecl) -> Seq<DiagModel> {
    trait_models_upto(mf, t, t.functions@.len() as int)
}

/// Validate an interface declaration itself. Appends exactly the findings
/// given by [`trait_models`].
pub fn validate_trait(diags: &mut SemanticDiagnostics, t: &TraitDecl)
    ensures
        final(diags)@ == old(diags)@ + trait_models(old(diags).module_file_id, *t),
        final(diags).module_file_id == old(diags).module_file_id,
{
    let ghost base = diags@;
    let ghost mf = diags.module_file_id;
    let mut i: usize = 0;
    while i < t.functions.len()
        invariant
            i <= t.functions@.len(),
            diags@ == base + trait_models_upto(mf, *t, i as int),
            diags.module_file_id == mf,
        decreases t.functions@.len() - i,
    {
        validate_trait_function(diags, t.id, &t.functions[i]);
        proof {
            assert(diags@ =~= base + trait_models_upto(mf, *t, i as int + 1));
        }
        i = i + 1;
    }
}

/// The position of the first interface function with the given name, if any.
pub open spec fn find_by_name(fns: Seq<TraitFunctionDecl>, name: Seq<char>) -> Option<int>
    decreases fns.len(),
{
    if fns.len() == 0 {
        None
    } else if fns[0].name@ == name {
        Some(0)
    } else {
        match find_by_name(fns.drop_first(), name) {
            None => None,
            Some(j) => Some(j + 1),
        }
    }
}

proof fn lemma_find_by_name_at(fns: Seq<TraitFunctionDecl>, name: Seq<char>, j: int)
    requires
        0 <= j < fns.len(),
        forall|k: int| 0 <= k < j ==> fns[k].name@ != name,
        fns[j].name@ == name,
    ensures
        find_by_name(fns, name) == Some(j),
    decreases j,
{
    if j > 0 {
        lemma_find_by_name_at(fns.drop_first(), name, j - 1);
    }
}

proof fn lemma_find_by_name_none(fns: Seq<TraitFunctionDecl>, name: Seq<char>)
    requires
        forall|k: int| 0 <= k < fns.len() ==> fns[k].name@ != name,
    ensures
        find_by_name(fns, name) is None,
    decreases fns.len(),
{
    if fns.len() > 0 {
        lemma_find_by_name_none(fns.drop_first(), name);
    }
}

fn find_trait_function(fns: &Vec<TraitFunctionDecl>, name: &String) -> (r: Option<usize>)
    ensures
        find_by_name(fns@, name@) == (match r {
            Some(i) => Some(i as int),
            None => None::<int>,
        }),
        r matches Some(i) ==> i < fns@.len(),
{
    let mut i: usize = 0;
    while i < fns.len()
        invariant
            i <= fns@.len(),
            forall|k: int| 0 <= k < i ==> fns@[k].name@ != name@,
        decreases fns@.len() - i,
    {
        if fns[i].name.eq(name) {
            proof {
                lemma_find_by_name_at(fns@, name@, i as int);
            }
            return Some(i);
        }
        i = i + 1;
    }
    proof {
        lemma_find_by_name_none(fns@, name@);
    }
    None
}

/// Some function of the implementation has the given name.
pub open spec fn implements_name(fs: Seq<ImplFunctionDecl>, name: Seq<char>) -> bool {
    exists|j: int| 0 <= j < fs.len() && fs[j].name@ == name
}

fn has_function_named(fs: &Vec<ImplFunctionDecl>, name: &String) -> (r: bool)
    ensures
        r == implements_name(fs@, name@),
{
    let mut i: usize = 0;
    while i < fs.len()
        invariant
            i <= fs@.len(),
            forall|k: int| 0 <= k < i ==> fs@[k].name@ != name@,
        decreases fs@.len() - i,
    {
        if fs[i].name.eq(name) {
            return true;
        }
        i = i + 1;
    }
    false
}

/// Every finding the conformance check of one implementation function
/// produces: a membership finding when the interface declares no function of
/// that name (and then nothing else), else the signature findings against the
/// substituted interface signature.
pub open spec fn impl_fn_models(
    mf: ModuleFileId,
    t: TraitDecl,
    impl_def_id: ImplDefId,
    args: Seq<TypeId>,
    f: ImplFunctionDecl,
) -> Seq<DiagModel> {
    match find_by_name(t.functions@, f.name@) {
        None => seq![
            at(
                mf,
                f.stable_ptr,
                KindModel::FunctionNotMemberOfTrait {
                    impl_def_id,
                    impl_function_id: f.id,
                    trait_id: t.id,
                },
            ),
        ],
        Some(j) => signature_models(
            mf,
            f.stable_ptr,
            impl_def_id,
            f.id,
            t.id,
            spec_subst_sig(t.functions@[j].signature, args),
            f.signature@,
        ),
    }
}

/// Validate one implementation function against the interface it claims to
/// implement, under the given generic arguments. Appends exactly the findings
/// given by [`impl_fn_models`].
pub fn validate_impl_function(
    diags: &mut SemanticDiagnostics,
    t: &TraitDecl,
    impl_def_id: ImplDefId,
    generic_args: &Vec<TypeId>,
    f: &ImplFunctionDecl,
)
    requires
        forall|j: int|
            0 <= j < t.functions@.len() ==> gsig_wf(
                #[trigger] t.functions@[j].signature,
                generic_args@.len(),
            ),
    ensures
        final(diags)@ == old(diags)@ + impl_fn_models(
            old(diags).module_file_id,
            *t,
            impl_def_id,
            generic_args@,
            *f,
        ),
        final(diags).module_file_id == old(diags).module_file_id,
{
    let ghost base = diags@;
    let ghost mf = diags.module_file_id;
    match find_trait_function(&t.functions, &f.name) {
        None => {
            diags.report_by_ptr(
                f.stable_ptr,
                SemanticDiagnosticKind::FunctionNotMemberOfTrait {
                    impl_def_id,
                    impl_function_id: f.id,
                    trait_id: t.id,
                },
            );
            proof {
                assert(diags@ =~= base + impl_fn_models(mf, *t, impl_def_id, generic_args@, *f));
            }
        },
        Some(j) => {
            let expected = substitute_signature(&t.functions[j].signature, generic_args);
            validate_impl_function_signature(
                diags,
                impl_def_id,
                f.id,
                t.id,
                f.stable_ptr,
                &expected,
                &f.signature,
            );
        },
    }
}

/// The names of the interface functions the implementation leaves without a
/// matching function, among the first `i` interface functions, in interface
/// declaration order.
pub open spec fn missing_upto(
    t_fns: Seq<TraitFunctionDecl>,
    fs: Seq<ImplFunctionDecl>,
    i: int,
) -> Seq<Seq<char>>
    decreases i,
{
    if i <= 0 {
        Seq::empty()
    } else {
        missing_upto(t_fns, fs, i - 1) + (if !implements_name(fs, t_fns[i - 1].name@) {
            seq![t_fns[i - 1].name@]
        } else {
            Seq::empty()
        })
    }
}

/// The names of all interface functions the implementation omits, in
/// interface declaration order.
pub open spec fn missing_names(
    t_fns: Seq<TraitFunctionDecl>,
    fs: Seq<ImplFunctionDecl>,
) -> Seq<Seq<char>> {
    missing_upto(t_fns, fs, t_fns.len() as int)
}

/// The at-most-one finding of the completeness check: one finding listing
/// every omitted interface item, not just the first.
pub open spec fn missing_models(
    mf: ModuleFileId,
    ptr: SyntaxStablePtrId,
    t_fns: Seq<TraitFunctionDecl>,
    fs: Seq<ImplFunctionDecl>,
) -> Seq<DiagModel> {
    if missing_names(t_fns, fs).len() == 0 {
        Seq::empty()
    } else {
        seq![
            at(mf, ptr, KindModel::MissingItemsInImpl { item_names: missing_names(t_fns, fs) }),
        ]
    }
}

fn missing_function_names(t_fns: &Vec<TraitFunctionDecl>, fs: &Vec<ImplFunctionDecl>) -> (r: Vec<
    String,
>)
    ensures
        r.deep_view() == missing_names(t_fns@, fs@),
{
    let mut r: Vec<String> = Vec::new();
    let mut i: usize = 0;
    proof {
        assert(r.deep_view() =~~= missing_upto(t_fns@, fs@, 0));
    }
    while i < t_fns.len()
        invariant
            i <= t_fns@.len(),
            r.deep_view() == missing_upto(t_fns@, fs@, i as int),
        decreases t_fns@.len() - i,
    {
        let ghost prev = r.deep_view();
        if !has_function_named(fs, &t_fns[i].name) {
            r.push(t_fns[i].name.clone());
            proof {
                assert(r.deep_view() =~~= prev.push(t_fns@[i as int].name@));
            }
        }
        proof {
            assert(r.deep_view() =~~= missing_upto(t_fns@, fs@, i as int + 1));
        }
        i = i + 1;
    }
    r
}

/// The findings of the conformance checks of the first `i` implementation
/// functions, in declaration order.
pub open spec fn impl_fns_upto(
    mf: ModuleFileId,
    t: TraitDecl,
    impl_def_id: ImplDefId,
    args: Seq<TypeId>,
    fs: Seq<ImplFunctionDecl>,
    i: int,
) -> Seq<DiagModel>
    decreases i,
{
    if i <= 0 {
        Seq::empty()
    } else {
        impl_fns_upto(mf, t, impl_def_id, args, fs, i - 1) + impl_fn_models(
            mf,
            t,
            impl_def_id,
            args,
            fs[i - 1],
        )
    }
}

/// Every finding of the conformance check of a whole implementation against
/// its interface: each implementation function in declaration order, then the
/// completeness check.
pub open spec fn impl_models(
    mf: ModuleFileId,
    ctx: NamingContext,
    t: TraitDecl,
    imp: ImplDecl,
) -> Seq<DiagModel> {
    let args = ctx.spec_concrete_trait(imp.concrete_trait).generic_args@;
    impl_fns_upto(mf, t, imp.id, args, imp.functions@, imp.functions@.len() as int)
        + missing_models(mf, imp.stable_ptr, t.functions@, imp.functions@)
}

/// Validate a whole implementation against the interface its concrete trait
/// names: each of its functions in declaration order, then the completeness
/// check. Appends exactly the findings given by [`impl_models`].
pub fn validate_impl(
    diags: &mut SemanticDiagnostics,
    ctx: &NamingContext,
    t: &TraitDecl,
    imp: &ImplDecl,
)
    requires
        imp.concrete_trait.0 < ctx.concrete_traits@.len(),
        forall|j: int|
            0 <= j < t.functions@.len() ==> gsig_wf(
                #[trigger] t.functions@[j].signature,
                ctx.spec_concrete_trait(imp.concrete_trait).generic_args@.len(),
            ),
    ensures
        final(diags)@ == old(diags)@ + impl_models(old(diags).module_file_id, *ctx, *t, *imp),
        final(diags).module_file_id == old(diags).module_file_id,
{
    let ghost base = diags@;
    let ghost mf = diags.module_file_id;
    let ghost args = ctx.spec_concrete_trait(imp.concrete_trait).generic_args@;
    let long_form = ctx.concrete_trait(imp.concrete_trait);
    let mut i: usize = 0;
    while i < imp.functions.len()
        invariant
            i <= imp.functions@.len(),
            diags@ == base + impl_fns_upto(mf, *t, imp.id, args, imp.functions@, i as int),
            diags.module_file_id == mf,
            args == ctx.spec_concrete_trait(imp.concrete_trait).generic_args@,
            long_form.generic_args@ == args,
            forall|j: int|
                0 <= j < t.functions@.len() ==> gsig_wf(
                    #[trigger] t.functions@[j].signature,
                    args.len(),
                ),
        decreases imp.functions@.len() - i,
    {
        validate_impl_function(diags, t, imp.id, &long_form.generic_args, &imp.functions[i]);
        proof {
            assert(diags@ =~= base + impl_fns_upto(
                mf,
                *t,
                imp.id,
                args,
                imp.functions@,
                i as int + 1,
            ));
        }
        i = i + 1;
    }
    let missing = missing_function_names(&t.functions, &imp.functions);
    if missing.len() > 0 {
        diags.report_by_ptr(
            imp.stable_ptr,
            SemanticDiagnosticKind::MissingItemsInImpl { item_names: missing },
        );
    }
    proof {
        assert(diags@ =~= base + impl_models(mf, *ctx, *t, *imp));
    }
}

proof fn lemma_ref_models_upto_empty(
    mf: ModuleFileId,
    ptr: SyntaxStablePtrId,
    impl_def_id: ImplDefId,
    impl_function_id: ImplFunctionId,
    trait_id: TraitId,
    exp: Seq<Parameter>,
    act: Seq<Parameter>,
    i: int,
)
    requires
        forall|k: int|
            0 <= k < i ==> ((exp[k].mutability == Mutability::Reference) <==> (act[k].mutability
                == Mutability::Reference)),
    ensures
        ref_models_upto(mf, ptr, impl_def_id, impl_function_id, trait_id, exp, act, i)
            == Seq::<DiagModel>::empty(),
    decreases i,
{
    if i > 0 {
        lemma_ref_models_upto_empty(
            mf,
            ptr,
            impl_def_id,
            impl_function_id,
            trait_id,
            exp,
            act,
            i - 1,
        );
        assert(ref_models_upto(mf, ptr, impl_def_id, impl_function_id, trait_id, exp, act, i)
            =~= Seq::<DiagModel>::empty());
    }
}

/// A conforming pair is silent: when an implementation function's signature
/// agrees with the substituted interface signature in arity, every
/// per-parameter type, every parameter's reference-ness, the return type, and
/// panic-ability, the conformance check of the pair produces no finding.
pub proof fn lemma_conforming_signature_silent(
    mf: ModuleFileId,
    ptr: SyntaxStablePtrId,
    impl_def_id: ImplDefId,
    impl_function_id: ImplFunctionId,
    trait_id: TraitId,
    exp: SigModel,
    act: SigModel,
)
    requires
        exp.params.len() == act.params.len(),
        forall|k: int| 0 <= k < exp.params.len() ==> exp.params[k].ty == act.params[k].ty,
        forall|k: int|
            0 <= k < exp.params.len() ==> ((exp.params[k].mutability == Mutability::Reference)
                <==> (act.params[k].mutability == Mutability::Reference)),
        exp.return_type == act.return_type,
        act.panicable ==> exp.panicable,
    ensures
        signature_models(mf, ptr, impl_def_id, impl_function_id, trait_id, exp, act)
            == Seq::<DiagModel>::empty(),
{
    lemma_no_type_mismatch(exp.params, act.params);
    lemma_ref_models_upto_empty(
        mf,
        ptr,
        impl_def_id,
        impl_function_id,
        trait_id,
        exp.params,
        act.params,
        exp.params.len() as int,
    );
    assert(signature_models(mf, ptr, impl_def_id, impl_function_id, trait_id, exp, act)
        =~= Seq::<DiagModel>::empty());
}

/// A pair that differs only in parameter count produces exactly one finding:
/// the wrong-number-of-parameters finding carrying the two counts. No
/// per-parameter finding is produced for such a pair, since comparing beyond
/// the shorter list would be meaningless.
pub proof fn lemma_arity_mismatch_single_finding(
    mf: ModuleFileId,
    ptr: SyntaxStablePtrId,
    impl_def_id: ImplDefId,
    impl_function_id: ImplFunctionId,
    trait_id: TraitId,
    exp: SigModel,
    act: SigModel,
)
    requires
        exp.params.len() != act.params.len(),
        exp.return_type == act.return_type,
        act.panicable ==> exp.panicable,
    ensures
        signature_models(mf, ptr, impl_def_id, impl_function_id, trait_id, exp, act) == seq![
            at(
                mf,
                ptr,
                KindModel::WrongNumberOfParameters {
                    impl_def_id,
                    impl_function_id,
                    trait_id,
                    expected: exp.params.len() as usize,
                    actual: act.params.len() as usize,
                },
            ),
        ],
{
    assert(signature_models(mf, ptr, impl_def_id, impl_function_id, trait_id, exp, act) =~= seq![
        at(
            mf,
            ptr,
            KindModel::WrongNumberOfParameters {
                impl_def_id,
                impl_function_id,
                trait_id,
                expected: exp.params.len() as usize,
                actual: act.params.len() as usize,
            },
        ),
    ]);
}

/// The completeness check lists exactly the omitted items: every listed name
/// is the name of some interface function the implementation omits, and every
/// omitted interface function's name appears in the list, at the position
/// given by the number of omissions declared before it — so the list follows
/// interface declaration order.
pub proof fn lemma_missing_names_exact(
    t_fns: Seq<TraitFunctionDecl>,
    fs: Seq<ImplFunctionDecl>,
    i: int,
)
    requires
        0 <= i <= t_fns.len(),
    ensures
        forall|k: int|
            0 <= k < missing_upto(t_fns, fs, i).len() ==> !implements_name(
                fs,
                #[trigger] missing_upto(t_fns, fs, i)[k],
            ),
        forall|j: int|
            0 <= j < i && !implements_name(fs, #[trigger] t_fns[j].name@) ==> {
                &&& missing_upto(t_fns, fs, j).len() < missing_upto(t_fns, fs, i).len()
                &&& missing_upto(t_fns, fs, i)[missing_upto(t_fns, fs, j).len() as int]
                    == t_fns[j].name@
            },
    decreases i,
{
    if i > 0 {
        lemma_missing_names_exact(t_fns, fs, i - 1);
    }
}


} // verus!
