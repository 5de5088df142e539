//! The method resolution engine: given a receiver type and a method name at a
//! call site, finds the applicable implementation(s) among the concrete
//! traits in scope, classifying the outcome as uniquely resolved, absent, or
//! ambiguous. Ambiguity is always surfaced as a finding, never silently
//! resolved by a tie-break.

use vstd::prelude::*;

use crate::conformance::{at, ImplDecl, TraitDecl, TraitFunctionDecl};
use crate::context::NamingContext;
use crate::diagnostic::{DiagModel, KindModel, SemanticDiagnostics, SemanticDiagnosticKind};
use crate::ids::{ConcreteTraitId, ImplDefId, ModuleFileId, SyntaxStablePtrId, TraitFunctionId, TypeId};

verus! {

/// The outcome of resolving one method call.
#[derive(Clone, Copy, Debug, PartialEq, Eq, Structural)]
pub enum MethodResolution {
    /// Exactly one interface function matched and exactly one implementation
    /// of it applies: the call is resolved, with no finding.
    Unique { trait_function_id: TraitFunctionId, impl_def_id: ImplDefId },
    /// An interface in scope declares the method, but no implementation
    /// applies to the receiver.
    NoImplementation,
    /// Exactly one interface function matched but several implementations of
    /// it apply.
    MultipleImplementations,
    /// Interface functions from several distinct interfaces apply and no
    /// disambiguation was given.
    Ambiguous,
}

/// An implementation applies to a call when it implements exactly the
/// concrete trait under consideration and its receiver type (as the external
/// inference engine resolved it) is the receiver type of the call.
pub open spec fn applicable(imp: ImplDecl, ct: ConcreteTraitId, receiver: TypeId) -> bool {
    imp.concrete_trait == ct && imp.self_ty == receiver
}

/// The handles of the applicable implementations among the first `i`, in
/// declaration order.
pub open spec fn applicable_ids_upto(
    impls: Seq<ImplDecl>,
    ct: ConcreteTraitId,
    receiver: TypeId,
    i: int,
) -> Seq<ImplDefId>
    decreases i,
{
    if i <= 0 {
        Seq::empty()
    } else {
        applicable_ids_upto(impls, ct, receiver, i - 1) + (if applicable(
            impls[i - 1],
            ct,
            receiver,
        ) {
            seq![impls[i - 1].id]
        } else {
            Seq::empty()
        })
    }
}

/// The handles of every applicable implementation, in declaration order.
pub open spec fn applicable_ids(
    impls: Seq<ImplDecl>,
    ct: ConcreteTraitId,
    receiver: TypeId,
) -> Seq<ImplDefId> {
    applicable_ids_upto(impls, ct, receiver, impls.len() as int)
}

fn applicable_impl_ids(impls: &Vec<ImplDecl>, ct: ConcreteTraitId, receiver: TypeId) -> (r: Vec<
    ImplDefId,
>)
    ensures
        r@ == applicable_ids(impls@, ct, receiver),
{
    let mut r: Vec<ImplDefId> = Vec::new();
    let mut i: usize = 0;
    proof {
        assert(r@ =~= applicable_ids_upto(impls@, ct, receiver, 0));
    }
    while i < impls.len()
        invariant
            i <= impls@.len(),
            r@ == applicable_ids_upto(impls@, ct, receiver, i as int),
        decreases impls@.len() - i,
    {
        if impls[i].concrete_trait == ct && impls[i].self_ty == receiver {
            r.push(impls[i].id);
        }
        proof {
            assert(r@ =~= applicable_ids_upto(impls@, ct, receiver, i as int + 1));
        }
        i = i + 1;
    }
    r
}

/// The positions of the interface functions with the given name among the
/// first `i`, in declaration order.
pub open spec fn name_matches_upto(
    fns: Seq<TraitFunctionDecl>,
    name: Seq<char>,
    i: int,
) -> Seq<usize>
    decreases i,
{
    if i <= 0 {
        Seq::empty()
    } else {
        name_matches_upto(fns, name, i - 1) + (if fns[i - 1].name@ == name {
            seq![(i - 1) as usize]
        } else {
            Seq::empty()
        })
    }
}

/// The positions of all interface functions with the given name.
pub open spec fn name_matches(fns: Seq<TraitFunctionDecl>, name: Seq<char>) -> Seq<usize> {
    name_matches_upto(fns, name, fns.len() as int)
}

proof fn lemma_name_matches_upto_wf(fns: Seq<TraitFunctionDecl>, name: Seq<char>, i: int)
    requires
        0 <= i <= fns.len(),
        fns.len() <= usize::MAX,
    ensures
        forall|k: int|
            0 <= k < name_matches_upto(fns, name, i).len() ==> {
                &&& (#[trigger] name_matches_upto(fns, name, i)[k]) < i
                &&& fns[name_matches_upto(fns, name, i)[k] as int].name@ == name
            },
    decreases i,
{
    if i > 0 {
        lemma_name_matches_upto_wf(fns, name, i - 1);
        let u = name_matches_upto(fns, name, i);
        let up = name_matches_upto(fns, name, i - 1);
        assert forall|k: int| 0 <= k < u.len() implies {
            &&& u[k] < i
            &&& fns[u[k] as int].name@ == name
        } by {
            if k < up.len() {
                assert(u[k] == up[k]);
            } else {
                assert(u[k] == (i - 1) as usize);
            }
        }
    }
}

fn name_match_indices(fns: &Vec<TraitFunctionDecl>, name: &String) -> (r: Vec<usize>)
    ensures
        r@ == name_matches(fns@, name@),
{
    let mut r: Vec<usize> = Vec::new();
    let mut i: usize = 0;
    proof {
        assert(r@ =~= name_matches_upto(fns@, name@, 0));
    }
    while i < fns.len()
        invariant
            i <= fns@.len(),
            r@ == name_matches_upto(fns@, name@, i as int),
        decreases fns@.len() - i,
    {
        if fns[i].name.eq(name) {
            r.push(i);
        }
        proof {
            assert(r@ =~= name_matches_upto(fns@, name@, i as int + 1));
        }
        i = i + 1;
    }
    r
}

/// The interface declaration a concrete trait in scope refers to.
pub open spec fn trait_of(
    traits: Seq<TraitDecl>,
    ctx: NamingContext,
    ct: ConcreteTraitId,
) -> TraitDecl {
    traits[ctx.spec_concrete_trait(ct).trait_id.0 as int]
}

/// Every concrete trait in scope is interned, and the interface table has its
/// interface under its own handle.
pub open spec fn scope_wf(
    traits: Seq<TraitDecl>,
    ctx: NamingContext,
    scope: Seq<ConcreteTraitId>,
) -> bool {
    forall|s: int|
        0 <= s < scope.len() ==> {
            &&& (#[trigger] scope[s]).0 < ctx.concrete_traits@.len()
            &&& ctx.spec_concrete_trait(scope[s]).trait_id.0 < traits.len()
            &&& traits[ctx.spec_concrete_trait(scope[s]).trait_id.0 as int].id
                == ctx.spec_concrete_trait(scope[s]).trait_id
        }
}

/// The candidate interface functions contributed by one scope entry: every
/// function of its interface with the method's name — provided at least one
/// implementation of the concrete trait applies to the receiver.
pub open spec fn scope_entry_candidates(
    traits: Seq<TraitDecl>,
    ctx: NamingContext,
    impls: Seq<ImplDecl>,
    scope: Seq<ConcreteTraitId>,
    receiver: TypeId,
    name: Seq<char>,
    s: int,
) -> Seq<(usize, usize)> {
    if applicable_ids(impls, scope[s], receiver).len() == 0 {
        Seq::empty()
    } else {
        name_matches(trait_of(traits, ctx, scope[s]).functions@, name).map_values(
            |f: usize| (s as usize, f),
        )
    }
}

/// The candidates of the first `i` scope entries, in scope order: pairs of
/// scope position and function position.
pub open spec fn candidates_upto(
    traits: Seq<TraitDecl>,
    ctx: NamingContext,
    impls: Seq<ImplDecl>,
    scope: Seq<ConcreteTraitId>,
    receiver: TypeId,
    name: Seq<char>,
    i: int,
) -> Seq<(usize, usize)>
    decreases i,
{
    if i <= 0 {
        Seq::empty()
    } else {
        candidates_upto(traits, ctx, impls, scope, receiver, name, i - 1)
            + scope_entry_candidates(traits, ctx, impls, scope, receiver, name, i - 1)
    }
}

/// Every candidate interface function for the call: each function named
/// `name` of an interface in scope with at least one applicable
/// implementation, in scope order.
pub open spec fn candidates(
    traits: Seq<TraitDecl>,
    ctx: NamingContext,
    impls: Seq<ImplDecl>,
    scope: Seq<ConcreteTraitId>,
    receiver: TypeId,
    name: Seq<char>,
) -> Seq<(usize, usize)> {
    candidates_upto(traits, ctx, impls, scope, receiver, name, scope.len() as int)
}

/// Every candidate names a scope entry with an applicable implementation and
/// a function of its interface carrying the method's name.
pub open spec fn candidate_wf(
    traits: Seq<TraitDecl>,
    ctx: NamingContext,
    impls: Seq<ImplDecl>,
    scope: Seq<ConcreteTraitId>,
    receiver: TypeId,
    name: Seq<char>,
    c: (usize, usize),
) -> bool {
    &&& (c.0 as int) < scope.len()
    &&& (c.1 as int) < trait_of(traits, ctx, scope[c.0 as int]).functions@.len()
    &&& trait_of(traits, ctx, scope[c.0 as int]).functions@[c.1 as int].name@ == name
    &&& applicable_ids(impls, scope[c.0 as int], receiver).len() > 0
}

proof fn lemma_candidates_upto_wf(
    traits: Seq<TraitDecl>,
    ctx: NamingContext,
    impls: Seq<ImplDecl>,
    scope: Seq<ConcreteTraitId>,
    receiver: TypeId,
    name: Seq<char>,
    i: int,
)
    requires
        0 <= i <= scope.len(),
        scope.len() <= usize::MAX,
        forall|s: int|
            0 <= s < scope.len() ==> (#[trigger] trait_of(traits, ctx, scope[s]).functions@.len())
                <= usize::MAX,
    ensures
        forall|k: int|
            0 <= k < candidates_upto(traits, ctx, impls, scope, receiver, name, i).len()
                ==> candidate_wf(
                traits,
                ctx,
                impls,
                scope,
                receiver,
                name,
                #[trigger] candidates_upto(traits, ctx, impls, scope, receiver, name, i)[k],
            ),
    decreases i,
{
    if i > 0 {
        lemma_candidates_upto_wf(traits, ctx, impls, scope, receiver, name, i - 1);
        let fns = trait_of(traits, ctx, scope[i - 1]).functions@;
        lemma_name_matches_upto_wf(fns, name, fns.len() as int);
        let u = candidates_upto(traits, ctx, impls, scope, receiver, name, i);
        let up = candidates_upto(traits, ctx, impls, scope, receiver, name, i - 1);
        let sec = scope_entry_candidates(traits, ctx, impls, scope, receiver, name, i - 1);
        let nm = name_matches(fns, name);
        assert forall|k: int| 0 <= k < u.len() implies candidate_wf(
            traits,
            ctx,
            impls,
            scope,
            receiver,
            name,
            u[k],
        ) by {
            if k < up.len() {
                assert(u[k] == up[k]);
                assert(candidate_wf(traits, ctx, impls, scope, receiver, name, up[k]));
            } else {
                assert(u[k] == sec[k - up.len()]);
                assert(sec[k - up.len()] == ((i - 1) as usize, nm[k - up.len()]));
                assert(nm[k - up.len()] < fns.len());
            }
        }
    }
}

/// The handle of the interface function a candidate names.
pub open spec fn cand_fn_id(
    traits: Seq<TraitDecl>,
    ctx: NamingContext,
    scope: Seq<ConcreteTraitId>,
    c: (usize, usize),
) -> TraitFunctionId {
    trait_of(traits, ctx, scope[c.0 as int]).functions@[c.1 as int].id
}

/// The first scope entry whose interface declares the method's name at all,
/// from position `s` on: the interface "expected to apply" when no candidate
/// has an applicable implementation.
pub open spec fn first_declaring_from(
    traits: Seq<TraitDecl>,
    ctx: NamingContext,
    scope: Seq<ConcreteTraitId>,
    name: Seq<char>,
    s: int,
) -> Option<int>
    decreases scope.len() - s,
{
    if s < 0 || s >= scope.len() {
        None
    } else if name_matches(trait_of(traits, ctx, scope[s]).functions@, name).len() > 0 {
        Some(s)
    } else {
        first_declaring_from(traits, ctx, scope, name, s + 1)
    }
}

/// The at-most-one finding of method resolution: with no candidate, the
/// interface expected to apply has no implementation in the context; with one
/// candidate and several applicable implementations, every one of them is
/// listed; with several distinct candidates, the first two are named and no
/// tie-break is performed.
pub open spec fn resolution_models(
    mf: ModuleFileId,
    ptr: SyntaxStablePtrId,
    traits: Seq<TraitDecl>,
    ctx: NamingContext,
    impls: Seq<ImplDecl>,
    scope: Seq<ConcreteTraitId>,
    receiver: TypeId,
    name: Seq<char>,
) -> Seq<DiagModel> {
    let cs = candidates(traits, ctx, impls, scope, receiver, name);
    if cs.len() == 0 {
        match first_declaring_from(traits, ctx, scope, name, 0) {
            Some(d) => seq![
                at(
                    mf,
                    ptr,
                    KindModel::NoImplementationOfTraitFunction {
                        concrete_trait_id: scope[d],
                        function_name: name,
                    },
                ),
            ],
            None => Seq::empty(),
        }
    } else if cs.len() == 1 {
        let ids = applicable_ids(impls, scope[cs[0].0 as int], receiver);
        if ids.len() == 1 {
            Seq::empty()
        } else {
            seq![
                at(
                    mf,
                    ptr,
                    KindModel::MultipleImplementationOfTraitFunction {
                        trait_id: trait_of(traits, ctx, scope[cs[0].0 as int]).id,
                        all_impl_ids: ids,
                        function_name: name,
                    },
                ),
            ]
        }
    } else {
        seq![
            at(
                mf,
                ptr,
                KindModel::AmbiguousTrait {
                    trait_function_id0: cand_fn_id(traits, ctx, scope, cs[0]),
                    trait_function_id1: cand_fn_id(traits, ctx, scope, cs[1]),
                },
            ),
        ]
    }
}

/// Resolve a method call on a receiver type: collect every interface function
/// named `method_name` among the concrete traits in scope whose interface has
/// at least one applicable implementation, then classify. Appends exactly the
/// findings given by [`resolution_models`].
pub fn resolve_method(
    diags: &mut SemanticDiagnostics,
    ctx: &NamingContext,
    traits: &Vec<TraitDecl>,
    impls: &Vec<ImplDecl>,
    scope: &Vec<ConcreteTraitId>,
    receiver: TypeId,
    method_name: &String,
    stable_ptr: SyntaxStablePtrId,
) -> (r: MethodResolution)
    requires
        scope_wf(traits@, *ctx, scope@),
        first_declaring_from(traits@, *ctx, scope@, method_name@, 0) is Some,
    ensures
        final(diags)@ == old(diags)@ + resolution_models(
            old(diags).module_file_id,
            stable_ptr,
            traits@,
            *ctx,
            impls@,
            scope@,
            receiver,
            method_name@,
        ),
        final(diags).module_file_id == old(diags).module_file_id,
        ({
            let cs = candidates(traits@, *ctx, impls@, scope@, receiver, method_name@);
            match r {
                MethodResolution::Unique { trait_function_id, impl_def_id } => {
                    &&& cs.len() == 1
                    &&& applicable_ids(impls@, scope@[cs[0].0 as int], receiver).len() == 1
                    &&& trait_function_id == cand_fn_id(traits@, *ctx, scope@, cs[0])
                    &&& impl_def_id == applicable_ids(impls@, scope@[cs[0].0 as int], receiver)[0]
                },
                MethodResolution::NoImplementation => cs.len() == 0,
                MethodResolution::MultipleImplementations => cs.len() == 1 && applicable_ids(
                    impls@,
                    scope@[cs[0].0 as int],
                    receiver,
                ).len() >= 2,
                MethodResolution::Ambiguous => cs.len() >= 2,
            }
        }),
{
    let ghost base = diags@;
    let ghost mf = diags.module_file_id;
    let mut cvec: Vec<(usize, usize)> = Vec::new();
    let mut ds: usize = 0;
    let mut ds_found: bool = false;
    let mut s: usize = 0;
    proof {
        assert(cvec@ =~= candidates_upto(traits@, *ctx, impls@, scope@, receiver, method_name@, 0));
    }
    while s < scope.len()
        invariant
            s <= scope@.len(),
            scope_wf(traits@, *ctx, scope@),
            cvec@ == candidates_upto(
                traits@,
                *ctx,
                impls@,
                scope@,
                receiver,
                method_name@,
                s as int,
            ),
            ds_found ==> first_declaring_from(traits@, *ctx, scope@, method_name@, 0) == Some(
                ds as int,
            ),
            !ds_found ==> first_declaring_from(traits@, *ctx, scope@, method_name@, 0)
                == first_declaring_from(traits@, *ctx, scope@, method_name@, s as int),
            ds_found ==> ds < s,
        decreases scope@.len() - s,
    {
        let ct = scope[s];
        let long_form = ctx.concrete_trait(ct);
        let t = &traits[long_form.trait_id.0];
        let matches = name_match_indices(&t.functions, method_name);
        if !ds_found {
            if matches.len() > 0 {
                ds = s;
                ds_found = true;
            }
        }
        let ids = applicable_impl_ids(impls, ct, receiver);
        if ids.len() > 0 {
            let mut m: usize = 0;
            while m < matches.len()
                invariant
                    m <= matches@.len(),
                    s < scope@.len(),
                    matches@ == name_matches(
                        trait_of(traits@, *ctx, scope@[s as int]).functions@,
                        method_name@,
                    ),
                    applicable_ids(impls@, scope@[s as int], receiver).len() > 0,
                    cvec@ == candidates_upto(
                        traits@,
                        *ctx,
                        impls@,
                        scope@,
                        receiver,
                        method_name@,
                        s as int,
                    ) + matches@.take(m as int).map_values(|f: usize| (s as usize, f)),
                decreases matches@.len() - m,
            {
                let ghost prev = cvec@;
                cvec.push((s, matches[m]));
                proof {
                    assert(cvec@ =~= candidates_upto(
                        traits@,
                        *ctx,
                        impls@,
                        scope@,
                        receiver,
                        method_name@,
                        s as int,
                    ) + matches@.take(m as int + 1).map_values(|f: usize| (s as usize, f)));
                }
                m = m + 1;
            }
            proof {
                assert(matches@.take(matches@.len() as int) =~= matches@);
                assert(matches@.map_values(|f: usize| (s as usize, f)) =~= scope_entry_candidates(
                    traits@,
                    *ctx,
                    impls@,
                    scope@,
                    receiver,
                    method_name@,
                    s as int,
                ));
                assert(cvec@ =~= candidates_upto(
                    traits@,
                    *ctx,
                    impls@,
                    scope@,
                    receiver,
                    method_name@,
                    s as int + 1,
                ));
            }
        } else {
            proof {
                assert(scope_entry_candidates(
                    traits@,
                    *ctx,
                    impls@,
                    scope@,
                    receiver,
                    method_name@,
                    s as int,
                ) =~= Seq::<(usize, usize)>::empty());
                assert(cvec@ =~= candidates_upto(
                    traits@,
                    *ctx,
                    impls@,
                    scope@,
                    receiver,
                    method_name@,
                    s as int + 1,
                ));
            }
        }
        s = s + 1;
    }
    proof {
        assert forall|k: int|
            0 <= k < scope@.len() implies (#[trigger] trait_of(
            traits@,
            *ctx,
            scope@[k],
        ).functions@.len()) <= usize::MAX by {
            let t = trait_of(traits@, *ctx, scope@[k]);
            assert(t.functions.len() == t.functions@.len());
        }
        lemma_candidates_upto_wf(
            traits@,
            *ctx,
            impls@,
            scope@,
            receiver,
            method_name@,
            scope@.len() as int,
        );
    }
    if cvec.len() == 0 {
        let ct = scope[ds];
        diags.report_by_ptr(
            stable_ptr,
            SemanticDiagnosticKind::NoImplementationOfTraitFunction {
                concrete_trait_id: ct,
                function_name: method_name.clone(),
            },
        );
        proof {
            assert(diags@ =~= base + resolution_models(
                mf,
                stable_ptr,
                traits@,
                *ctx,
                impls@,
                scope@,
                receiver,
                method_name@,
            ));
        }
        MethodResolution::NoImplementation
    } else if cvec.len() == 1 {
        let c = cvec[0];
        let ct = scope[c.0];
        let long_form = ctx.concrete_trait(ct);
        let t = &traits[long_form.trait_id.0];
        let ids = applicable_impl_ids(impls, ct, receiver);
        if ids.len() == 1 {
            proof {
                assert(diags@ =~= base + resolution_models(
                    mf,
                    stable_ptr,
                    traits@,
                    *ctx,
                    impls@,
                    scope@,
                    receiver,
                    method_name@,
                ));
            }
            let trait_function_id = t.functions[c.1].id;
            let impl_def_id = ids[0];
            MethodResolution::Unique { trait_function_id, impl_def_id }
        } else {
            diags.report_by_ptr(
                stable_ptr,
                SemanticDiagnosticKind::MultipleImplementationOfTraitFunction {
                    trait_id: t.id,
                    all_impl_ids: ids,
                    function_name: method_name.clone(),
                },
            );
            proof {
                assert(diags@ =~= base + resolution_models(
                    mf,
                    stable_ptr,
                    traits@,
                    *ctx,
                    impls@,
                    scope@,
                    receiver,
                    method_name@,
                ));
            }
            MethodResolution::MultipleImplementations
        }
    } else {
        let c0 = cvec[0];
        let ct0 = scope[c0.0];
        let long_form0 = ctx.concrete_trait(ct0);
        let t0 = &traits[long_form0.trait_id.0];
        let trait_function_id0 = t0.functions[c0.1].id;
        let c1 = cvec[1];
        let ct1 = scope[c1.0];
        let long_form1 = ctx.concrete_trait(ct1);
        let t1 = &traits[long_form1.trait_id.0];
        let trait_function_id1 = t1.functions[c1.1].id;
        diags.report_by_ptr(
            stable_ptr,
            SemanticDiagnosticKind::AmbiguousTrait { trait_function_id0, trait_function_id1 },
        );
        proof {
            assert(diags@ =~= base + resolution_models(
                mf,
                stable_ptr,
                traits@,
                *ctx,
                impls@,
                scope@,
                receiver,
                method_name@,
            ));
        }
        MethodResolution::Ambiguous
    }
}

/// No applicable candidate is ever dropped from consideration: whenever the
/// ambiguity finding is emitted, the total candidate count is at least two,
/// and the two interface functions it names are the first two candidates.
pub proof fn lemma_ambiguity_names_first_two(
    mf: ModuleFileId,
    ptr: SyntaxStablePtrId,
    traits: Seq<TraitDecl>,
    ctx: NamingContext,
    impls: Seq<ImplDecl>,
    scope: Seq<ConcreteTraitId>,
    receiver: TypeId,
    name: Seq<char>,
    k: int,
)
    requires
        0 <= k < resolution_models(mf, ptr, traits, ctx, impls, scope, receiver, name).len(),
        resolution_models(mf, ptr, traits, ctx, impls, scope, receiver, name)[k].kind
            matches KindModel::AmbiguousTrait { .. },
    ensures
        candidates(traits, ctx, impls, scope, receiver, name).len() >= 2,
        resolution_models(mf, ptr, traits, ctx, impls, scope, receiver, name)[k].kind == (
        KindModel::AmbiguousTrait {
            trait_function_id0: cand_fn_id(
                traits,
                ctx,
                scope,
                candidates(traits, ctx, impls, scope, receiver, name)[0],
            ),
            trait_function_id1: cand_fn_id(
                traits,
                ctx,
                scope,
                candidates(traits, ctx, impls, scope, receiver, name)[1],
            ),
        }),
{
}

/// When one interface function is resolved but several implementations apply,
/// the finding lists every applicable implementation, not merely two.
pub proof fn lemma_multiple_lists_every_impl(
    mf: ModuleFileId,
    ptr: SyntaxStablePtrId,
    traits: Seq<TraitDecl>,
    ctx: NamingContext,
    impls: Seq<ImplDecl>,
    scope: Seq<ConcreteTraitId>,
    receiver: TypeId,
    name: Seq<char>,
)
    requires
        candidates(traits, ctx, impls, scope, receiver, name).len() == 1,
        applicable_ids(
            impls,
            scope[candidates(traits, ctx, impls, scope, receiver, name)[0].0 as int],
            receiver,
        ).len() >= 2,
    ensures
        resolution_models(mf, ptr, traits, ctx, impls, scope, receiver, name) =~= seq![
            at(
                mf,
                ptr,
                KindModel::MultipleImplementationOfTraitFunction {
                    trait_id: trait_of(
                        traits,
                        ctx,
                        scope[candidates(traits, ctx, impls, scope, receiver, name)[0].0 as int],
                    ).id,
                    all_impl_ids: applicable_ids(
                        impls,
                        scope[candidates(traits, ctx, impls, scope, receiver, name)[0].0 as int],
                        receiver,
                    ),
                    function_name: name,
                },
            ),
        ],
{
}

} // verus!
