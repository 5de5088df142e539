//! Pure rendering of a finding into its human-readable message, and
//! resolution of the span a finding is reported at.
//!
//! Rendering is total over every kind of finding and deterministic: the
//! message is fixed by [`fmt_spec`], a function of the finding's kind and the
//! naming context alone, so rendering the same finding against the same
//! context twice yields byte-identical strings (see
//! [`lemma_render_deterministic`]).

use vstd::prelude::*;

use itertools::Itertools;

use crate::context::{NamingContext, SourceMap};
use crate::diagnostic::{
    DiagModel, DiagnosticLocation, ElementKind, KindModel, NotFoundItemType, SemanticDiagnostic,
    SemanticDiagnosticKind, UnsupportedOutsideOfFunctionFeatureName,
};
use crate::ids::{ImplDefId, TypeId};
use crate::TextSpan;

verus! {

/// The decimal digit characters `'0'` through `'9'`.
pub open spec fn digit_char(d: nat) -> char {
    if d == 0 {
        '0'
    } else if d == 1 {
        '1'
    } else if d == 2 {
        '2'
    } else if d == 3 {
        '3'
    } else if d == 4 {
        '4'
    } else if d == 5 {
        '5'
    } else if d == 6 {
        '6'
    } else if d == 7 {
        '7'
    } else if d == 8 {
        '8'
    } else {
        '9'
    }
}

/// The usual decimal rendering of a natural number, most significant digit
/// first, without leading zeros (except for the number zero itself).
pub open spec fn dec_rep(n: nat) -> Seq<char>
    decreases n,
    via dec_rep_decreases
{
    if n < 10 {
        seq![digit_char(n)]
    } else {
        dec_rep(n / 10) + seq![digit_char(n % 10)]
    }
}

#[via_fn]
proof fn dec_rep_decreases(n: nat) {
    if n >= 10 {
        assert(n / 10 < n) by (nonlinear_arith)
            requires
                n >= 10,
        ;
    }
}

fn digit_text(d: usize) -> (r: &'static str)
    requires
        d < 10,
    ensures
        r@ == seq![digit_char(d as nat)],
{
    if d == 0 {
        proof {
            reveal_strlit("0");
            assert("0"@ =~= seq![digit_char(d as nat)]);
        }
        "0"
    } else if d == 1 {
        proof {
            reveal_strlit("1");
            assert("1"@ =~= seq![digit_char(d as nat)]);
        }
        "1"
    } else if d == 2 {
        proof {
            reveal_strlit("2");
            assert("2"@ =~= seq![digit_char(d as nat)]);
        }
        "2"
    } else if d == 3 {
        proof {
            reveal_strlit("3");
            assert("3"@ =~= seq![digit_char(d as nat)]);
        }
        "3"
    } else if d == 4 {
        proof {
            reveal_strlit("4");
            assert("4"@ =~= seq![digit_char(d as nat)]);
        }
        "4"
    } else if d == 5 {
        proof {
            reveal_strlit("5");
            assert("5"@ =~= seq![digit_char(d as nat)]);
        }
        "5"
    } else if d == 6 {
        proof {
            reveal_strlit("6");
            assert("6"@ =~= seq![digit_char(d as nat)]);
        }
        "6"
    } else if d == 7 {
        proof {
            reveal_strlit("7");
            assert("7"@ =~= seq![digit_char(d as nat)]);
        }
        "7"
    } else if d == 8 {
        proof {
            reveal_strlit("8");
            assert("8"@ =~= seq![digit_char(d as nat)]);
        }
        "8"
    } else {
        proof {
            reveal_strlit("9");
            assert("9"@ =~= seq![digit_char(d as nat)]);
        }
        "9"
    }
}

/// Render a count in decimal.
pub fn usize_text(n: usize) -> (r: String)
    ensures
        r@ == dec_rep(n as nat),
    decreases n,
{
    let d = n % 10;
    let digit = digit_text(d);
    if n < 10 {
        let r = digit.to_owned();
        proof {
            assert(r@ =~= dec_rep(n as nat));
        }
        r
    } else {
        proof {
            assert(n / 10 < n) by (nonlinear_arith)
                requires
                    n >= 10,
            ;
        }
        let mut r = usize_text(n / 10);
        r.append(digit);
        r
    }
}

/// All parts concatenated in order with `sep` between each adjacent pair.
pub open spec fn join_with(parts: Seq<Seq<char>>, sep: Seq<char>) -> Seq<char>
    decreases parts.len(),
{
    if parts.len() == 0 {
        Seq::empty()
    } else if parts.len() == 1 {
        parts[0]
    } else {
        parts[0] + sep + join_with(parts.drop_first(), sep)
    }
}

/// Relies on itertools' `Itertools::join`: it formats the elements in
/// iteration order into one string with `sep` inserted between each adjacent
/// pair, and a `String` formats as exactly its contents.
#[verifier::external_body]
fn join_strs(parts: &Vec<String>, sep: &str) -> (r: String)
    ensures
        r@ == join_with(parts.deep_view(), sep@),
{
    parts.iter().join(sep)
}

/// The word used for an element kind in a message.
pub open spec fn elem_text(k: ElementKind) -> Seq<char> {
    match k {
        ElementKind::Constant => "constant"@,
        ElementKind::Variable => "variable"@,
        ElementKind::Module => "module"@,
        ElementKind::Function => "function"@,
        ElementKind::TraitFunction => "function"@,
        ElementKind::Type => "type"@,
        ElementKind::Variant => "variant"@,
        ElementKind::Trait => "trait"@,
        ElementKind::Impl => "impl"@,
    }
}

impl ElementKind {
    /// The word used for this element kind in a message.
    pub fn text(&self) -> (r: &'static str)
        ensures
            r@ == elem_text(*self),
    {
        match self {
            ElementKind::Constant => "constant",
            ElementKind::Variable => "variable",
            ElementKind::Module => "module",
            ElementKind::Function => "function",
            ElementKind::TraitFunction => "function",
            ElementKind::Type => "type",
            ElementKind::Variant => "variant",
            ElementKind::Trait => "trait",
            ElementKind::Impl => "impl",
        }
    }
}

/// The phrase used for a feature that is unsupported outside of functions.
pub open spec fn feature_text(f: UnsupportedOutsideOfFunctionFeatureName) -> Seq<char> {
    match f {
        UnsupportedOutsideOfFunctionFeatureName::FunctionCall => "Function call"@,
        UnsupportedOutsideOfFunctionFeatureName::ReturnStatement => "Return statement"@,
        UnsupportedOutsideOfFunctionFeatureName::ErrorPropagate => "The '?' operator"@,
    }
}

impl UnsupportedOutsideOfFunctionFeatureName {
    /// The phrase used for this feature in a message.
    pub fn text(&self) -> (r: &'static str)
        ensures
            r@ == feature_text(*self),
    {
        match self {
            UnsupportedOutsideOfFunctionFeatureName::FunctionCall => "Function call",
            UnsupportedOutsideOfFunctionFeatureName::ReturnStatement => "Return statement",
            UnsupportedOutsideOfFunctionFeatureName::ErrorPropagate => "The '?' operator",
        }
    }
}

/// The rendered forms of a list of types, in order.
pub open spec fn rendered_types(ctx: NamingContext, args: Seq<TypeId>) -> Seq<Seq<char>> {
    args.map_values(|t: TypeId| ctx.spec_rendered_type(t))
}

fn rendered_type_list(ctx: &NamingContext, args: &Vec<TypeId>) -> (r: Vec<String>)
    requires
        forall|i: int| 0 <= i < args@.len() ==> ctx.type_in(#[trigger] args@[i]),
    ensures
        r.deep_view() == rendered_types(*ctx, args@),
{
    let mut r: Vec<String> = Vec::new();
    let mut i: usize = 0;
    proof {
        assert(r.deep_view() =~~= rendered_types(*ctx, args@).take(0));
    }
    while i < args.len()
        invariant
            i <= args@.len(),
            forall|j: int| 0 <= j < args@.len() ==> ctx.type_in(#[trigger] args@[j]),
            r.deep_view() == rendered_types(*ctx, args@).take(i as int),
        decreases args@.len() - i,
    {
        let ghost prev = r.deep_view();
        r.push(ctx.rendered_type(args[i]).clone());
        proof {
            assert(r.deep_view() =~~= prev.push(ctx.spec_rendered_type(args@[i as int])));
            assert(r.deep_view() =~~= rendered_types(*ctx, args@).take(i as int + 1));
        }
        i = i + 1;
    }
    proof {
        assert(rendered_types(*ctx, args@).take(args@.len() as int) =~~= rendered_types(
            *ctx,
            args@,
        ));
    }
    r
}

/// Each name wrapped in single quotes, in order.
pub open spec fn quoted_names(names: Seq<Seq<char>>) -> Seq<Seq<char>> {
    names.map_values(|n: Seq<char>| "'"@ + n + "'"@)
}

fn quoted_name_list(names: &Vec<String>) -> (r: Vec<String>)
    ensures
        r.deep_view() == quoted_names(names.deep_view()),
{
    let mut r: Vec<String> = Vec::new();
    let mut i: usize = 0;
    proof {
        assert(r.deep_view() =~~= quoted_names(names.deep_view()).take(0));
    }
    while i < names.len()
        invariant
            i <= names@.len(),
            r.deep_view() == quoted_names(names.deep_view()).take(i as int),
        decreases names@.len() - i,
    {
        let mut q = "'".to_owned();
        q.append(names[i].as_str());
        q.append("'");
        let ghost prev = r.deep_view();
        r.push(q);
        proof {
            assert(r.deep_view() =~~= prev.push(
                "'"@ + names.deep_view()[i as int] + "'"@,
            ));
            assert(r.deep_view() =~~= quoted_names(names.deep_view()).take(i as int + 1));
        }
        i = i + 1;
    }
    proof {
        assert(quoted_names(names.deep_view()).take(names@.len() as int) =~~= quoted_names(
            names.deep_view(),
        ));
    }
    r
}

/// The words for a list of element kinds, in order.
pub open spec fn elem_texts(ks: Seq<ElementKind>) -> Seq<Seq<char>> {
    ks.map_values(|k: ElementKind| elem_text(k))
}

fn elem_text_list(ks: &Vec<ElementKind>) -> (r: Vec<String>)
    ensures
        r.deep_view() == elem_texts(ks@),
{
    let mut r: Vec<String> = Vec::new();
    let mut i: usize = 0;
    proof {
        assert(r.deep_view() =~~= elem_texts(ks@).take(0));
    }
    while i < ks.len()
        invariant
            i <= ks@.len(),
            r.deep_view() == elem_texts(ks@).take(i as int),
        decreases ks@.len() - i,
    {
        let ghost prev = r.deep_view();
        r.push(ks[i].text().to_owned());
        proof {
            assert(r.deep_view() =~~= prev.push(elem_text(ks@[i as int])));
            assert(r.deep_view() =~~= elem_texts(ks@).take(i as int + 1));
        }
        i = i + 1;
    }
    proof {
        assert(elem_texts(ks@).take(ks@.len() as int) =~~= elem_texts(ks@));
    }
    r
}

/// The fully qualified paths of a list of implementations, in order.
pub open spec fn rendered_impl_paths(ctx: NamingContext, ids: Seq<ImplDefId>) -> Seq<Seq<char>> {
    ids.map_values(|i: ImplDefId| ctx.spec_impl_path(i))
}

fn impl_path_list(ctx: &NamingContext, ids: &Vec<ImplDefId>) -> (r: Vec<String>)
    requires
        forall|i: int| 0 <= i < ids@.len() ==> ctx.impl_in(#[trigger] ids@[i]),
    ensures
        r.deep_view() == rendered_impl_paths(*ctx, ids@),
{
    let mut r: Vec<String> = Vec::new();
    let mut i: usize = 0;
    proof {
        assert(r.deep_view() =~~= rendered_impl_paths(*ctx, ids@).take(0));
    }
    while i < ids.len()
        invariant
            i <= ids@.len(),
            forall|j: int| 0 <= j < ids@.len() ==> ctx.impl_in(#[trigger] ids@[j]),
            r.deep_view() == rendered_impl_paths(*ctx, ids@).take(i as int),
        decreases ids@.len() - i,
    {
        let ghost prev = r.deep_view();
        r.push(ctx.impl_path(ids[i]).clone());
        proof {
            assert(r.deep_view() =~~= prev.push(ctx.spec_impl_path(ids@[i as int])));
            assert(r.deep_view() =~~= rendered_impl_paths(*ctx, ids@).take(i as int + 1));
        }
        i = i + 1;
    }
    proof {
        assert(rendered_impl_paths(*ctx, ids@).take(ids@.len() as int) =~~= rendered_impl_paths(
            *ctx,
            ids@,
        ));
    }
    r
}

/// Every handle the message of a finding of this kind looks up is interned in
/// the given context. Rendering a kind whose handles are not all interned
/// would be a corrupt internal state, which is outside the scope of
/// user-facing findings.
pub open spec fn kind_wf(m: KindModel, ctx: NamingContext) -> bool {
    match m {
        KindModel::UnsupportedUnaryOperator { op, ty } => ctx.type_in(ty),
        KindModel::UnsupportedBinaryOperator { op, type1, type2 } => ctx.type_in(type1)
            && ctx.type_in(type2),
        KindModel::FunctionNotMemberOfTrait { impl_def_id, impl_function_id, trait_id } => {
            ctx.impl_in(impl_def_id) && ctx.impl_fn_in(impl_function_id) && ctx.trait_in(trait_id)
        },
        KindModel::WrongNumberOfParameters {
            impl_def_id,
            impl_function_id,
            trait_id,
            expected,
            actual,
        } => ctx.impl_in(impl_def_id) && ctx.impl_fn_in(impl_function_id) && ctx.trait_in(
            trait_id,
        ),
        KindModel::WrongParameterType {
            impl_def_id,
            impl_function_id,
            trait_id,
            expected_ty,
            actual_ty,
        } => ctx.impl_in(impl_def_id) && ctx.impl_fn_in(impl_function_id) && ctx.trait_in(trait_id)
            && ctx.type_in(expected_ty) && ctx.type_in(actual_ty),
        KindModel::TraitParamMutable { trait_id, function_id } => ctx.trait_in(trait_id)
            && ctx.trait_fn_in(function_id),
        KindModel::TraitFunctionWithBody { trait_id, function_id } => ctx.trait_in(trait_id)
            && ctx.trait_fn_in(function_id),
        KindModel::ParamaterShouldBeReference { impl_def_id, impl_function_id, trait_id } => {
            ctx.impl_in(impl_def_id) && ctx.impl_fn_in(impl_function_id) && ctx.trait_in(trait_id)
        },
        KindModel::ParameterShouldNotBeReference { impl_def_id, impl_function_id, trait_id } => {
            ctx.impl_in(impl_def_id) && ctx.impl_fn_in(impl_function_id) && ctx.trait_in(trait_id)
        },
        KindModel::WrongType { expected_ty, actual_ty } => ctx.type_in(expected_ty) && ctx.type_in(
            actual_ty,
        ),
        KindModel::WrongArgumentType { expected_ty, actual_ty } => ctx.type_in(expected_ty)
            && ctx.type_in(actual_ty),
        KindModel::WrongReturnType { expected_ty, actual_ty } => ctx.type_in(expected_ty)
            && ctx.type_in(actual_ty),
        KindModel::WrongReturnTypeForImpl {
            impl_def_id,
            impl_function_id,
            trait_id,
            expected_ty,
            actual_ty,
        } => ctx.impl_in(impl_def_id) && ctx.impl_fn_in(impl_function_id) && ctx.trait_in(trait_id)
            && ctx.type_in(expected_ty) && ctx.type_in(actual_ty),
        KindModel::NoImplementationOfTraitFunction { concrete_trait_id, function_name } => {
            ctx.concrete_trait_in(concrete_trait_id)
        },
        KindModel::AmbiguousTrait { trait_function_id0, trait_function_id1 } => ctx.trait_fn_in(
            trait_function_id0,
        ) && ctx.trait_fn_in(trait_function_id1),
        KindModel::MultipleImplementationOfTraitFunction {
            trait_id,
            all_impl_ids,
            function_name,
        } => ctx.trait_in(trait_id) && forall|i: int|
            0 <= i < all_impl_ids.len() ==> ctx.impl_in(#[trigger] all_impl_ids[i]),
        KindModel::StructMemberRedefinition { struct_id, member_name } => ctx.struct_in(struct_id),
        KindModel::EnumVariantRedefinition { enum_id, variant_name } => ctx.enum_in(enum_id),
        KindModel::ParamNameRedefinition { function_signature_id, param_name } => ctx.signature_in(
            function_signature_id,
        ),
        KindModel::IncompatibleMatchArms { match_ty, arm_ty } => ctx.type_in(match_ty)
            && ctx.type_in(arm_ty),
        KindModel::IncompatibleIfBlockTypes { block_if_ty, block_else_ty } => ctx.type_in(
            block_if_ty,
        ) && ctx.type_in(block_else_ty),
        KindModel::TypeHasNoMembers { ty, member_name } => ctx.type_in(ty),
        KindModel::NoSuchMember { struct_id, member_name } => ctx.struct_in(struct_id),
        KindModel::NoSuchVariant { enum_id, variant_name } => ctx.enum_in(enum_id),
        KindModel::IncompatibleErrorPropagateType { return_ty, err_ty } => ctx.type_in(return_ty)
            && ctx.type_in(err_ty),
        KindModel::ErrorPropagateOnNonErrorType { ty } => ctx.type_in(ty),
        KindModel::UnexpectedLiteralPattern { ty } => ctx.type_in(ty),
        KindModel::UnexpectedEnumPattern { ty } => ctx.type_in(ty),
        KindModel::UnexpectedStructPattern { ty } => ctx.type_in(ty),
        KindModel::UnexpectedTuplePattern { ty } => ctx.type_in(ty),
        KindModel::WrongEnum { expected_enum, actual_enum } => ctx.enum_in(expected_enum)
            && ctx.enum_in(actual_enum),
        KindModel::PassPanicAsNopanic { impl_function_id, trait_id } => ctx.impl_fn_in(
            impl_function_id,
        ) && ctx.trait_in(trait_id),
        _ => true,
    }
}

/// The message of a finding: a fixed, parameterized English sentence per
/// kind. Total over every kind, so that a kind without a message cannot be
/// added, and a pure function of kind and context, so rendering is
/// deterministic.
pub open spec fn fmt_spec(m: KindModel, ctx: NamingContext) -> Seq<char> {
    match m {
        KindModel::ModuleFileNotFound { path } => "Module file not found. Expected path: "@ + path,
        KindModel::Unsupported => "Unsupported feature."@,
        KindModel::UnknownLiteral => "Unknown literal."@,
        KindModel::UnsupportedUnaryOperator { op, ty } => "Unary operator '"@ + op
            + "' is not supported for type '"@ + ctx.spec_rendered_type(ty) + "'."@,
        KindModel::UnknownBinaryOperator => "Unknown binary operator."@,
        KindModel::UnsupportedBinaryOperator { op, type1, type2 } => "Binary operator '"@ + op
            + "' is not supported for types '"@ + ctx.spec_rendered_type(type1) + "' and '"@
            + ctx.spec_rendered_type(type2) + "'."@,
        KindModel::UnknownFunction => "Unknown function."@,
        KindModel::UnknownTrait => "Unknown trait."@,
        KindModel::UnknownImpl => "Unknown impl."@,
        KindModel::UnexpectedElement { expected, actual } => "Expected "@ + join_with(
            elem_texts(expected),
            " or "@,
        ) + ", found "@ + elem_text(actual) + "."@,
        KindModel::UnknownType => "Unknown type."@,
        KindModel::UnknownStruct => "Unknown struct."@,
        KindModel::UnknownEnum => "Unknown enum."@,
        KindModel::NoLiteralFunctionFound => "A literal with this type cannot be created."@,
        KindModel::NotAVariant => "Not a variant. Use the full name Enum::Variant."@,
        KindModel::NotAStruct => "Not a struct."@,
        KindModel::NotAType => "Not a type."@,
        KindModel::NotATrait => "Not a trait."@,
        KindModel::FunctionNotMemberOfTrait { impl_def_id, impl_function_id, trait_id } => {
            "Impl function `"@ + ctx.spec_impl_name(impl_def_id) + "::"@ + ctx.spec_impl_fn_name(
                impl_function_id,
            ) + "` is not a member of trait `"@ + ctx.spec_trait_name(trait_id) + "`."@
        },
        KindModel::UnexpectedGenericArgs => "Unexpected generic arguments"@,
        KindModel::UnknownMember => "Unknown member."@,
        KindModel::MemberSpecifiedMoreThanOnce => "Member specified more than once."@,
        KindModel::UseCycle => "Cycle detected while resolving 'use' items."@,
        KindModel::TypeAliasCycle => "Cycle detected while resolving 'type alias' items."@,
        KindModel::ExpectedConcreteVariant => "Expected a concrete variant. Use `::<>` syntax."@,
        KindModel::MissingMember { member_name } => "Missing member \""@ + member_name + "\"."@,
        KindModel::WrongNumberOfParameters {
            impl_def_id,
            impl_function_id,
            trait_id,
            expected,
            actual,
        } => "The number of parameters in the impl function `"@ + ctx.spec_impl_name(impl_def_id)
            + "::"@ + ctx.spec_impl_fn_name(impl_function_id) + "` is incompatible with `"@
            + ctx.spec_trait_name(trait_id) + "::"@ + ctx.spec_impl_fn_name(impl_function_id)
            + "`. Expected: "@ + dec_rep(expected as nat) + ", actual: "@ + dec_rep(actual as nat)
            + "."@,
        KindModel::WrongNumberOfArguments { expected, actual } => {
            "Wrong number of arguments. Expected "@ + dec_rep(expected as nat) + ", found: "@
                + dec_rep(actual as nat)
        },
        KindModel::WrongNumberOfGenericArguments { expected, actual } => {
            "Wrong number of generic arguments. Expected "@ + dec_rep(expected as nat)
                + ", found: "@ + dec_rep(actual as nat)
        },
        KindModel::ConstGenericInferenceUnsupported => {
            "Const generic inference not yet supported."@
        },
        KindModel::ImplGenericsUnsupported => "Impl generics not yet supported."@,
        KindModel::WrongParameterType {
            impl_def_id,
            impl_function_id,
            trait_id,
            expected_ty,
            actual_ty,
        } => "Parameter type of impl function `"@ + ctx.spec_impl_name(impl_def_id) + "::"@
            + ctx.spec_impl_fn_name(impl_function_id) + "` is incompatible with `"@
            + ctx.spec_trait_name(trait_id) + "::"@ + ctx.spec_impl_fn_name(impl_function_id)
            + "`. Expected: `"@ + ctx.spec_rendered_type(expected_ty) + "`, actual: `"@
            + ctx.spec_rendered_type(actual_ty) + "`."@,
        KindModel::VariantCtorNotImmutable => "Variant constructor argument must be immutable."@,
        KindModel::TraitParamMutable { trait_id, function_id } => "Parameter of trait function `"@
            + ctx.spec_trait_name(trait_id) + "::"@ + ctx.spec_trait_fn_name(function_id)
            + "` can't be defined as mutable."@,
        KindModel::TraitFunctionWithBody { trait_id, function_id } => "Trait function `"@
            + ctx.spec_trait_name(trait_id) + "::"@ + ctx.spec_trait_fn_name(function_id)
            + "` has a body. Trait functions with body are not supported."@,
        KindModel::ParamaterShouldBeReference { impl_def_id, impl_function_id, trait_id } => {
            "Parameter of impl function "@ + ctx.spec_impl_name(impl_def_id) + "::"@
                + ctx.spec_impl_fn_name(impl_function_id) + " is incompatible with "@
                + ctx.spec_trait_name(trait_id) + "::"@ + ctx.spec_impl_fn_name(impl_function_id)
                + ". It should be a reference."@
        },
        KindModel::ParameterShouldNotBeReference { impl_def_id, impl_function_id, trait_id } => {
            "Parameter of impl function "@ + ctx.spec_impl_name(impl_def_id) + "::"@
                + ctx.spec_impl_fn_name(impl_function_id) + " is incompatible with "@
                + ctx.spec_trait_name(trait_id) + "::"@ + ctx.spec_impl_fn_name(impl_function_id)
                + ". It should not be a reference."@
        },
        KindModel::WrongType { expected_ty, actual_ty } => "Expected type \""@
            + ctx.spec_rendered_type(expected_ty) + "\", found: \""@ + ctx.spec_rendered_type(
            actual_ty,
        ) + "\"."@,
        KindModel::WrongArgumentType { expected_ty, actual_ty } => {
            "Unexpected argument type. Expected: \""@ + ctx.spec_rendered_type(expected_ty)
                + "\", found: \""@ + ctx.spec_rendered_type(actual_ty) + "\"."@
        },
        KindModel::WrongReturnType { expected_ty, actual_ty } => {
            "Unexpected return type. Expected: \""@ + ctx.spec_rendered_type(expected_ty)
                + "\", found: \""@ + ctx.spec_rendered_type(actual_ty) + "\"."@
        },
        KindModel::WrongReturnTypeForImpl {
            impl_def_id,
            impl_function_id,
            trait_id,
            expected_ty,
            actual_ty,
        } => "Return type of impl function `"@ + ctx.spec_impl_name(impl_def_id) + "::"@
            + ctx.spec_impl_fn_name(impl_function_id) + "` is incompatible with `"@
            + ctx.spec_trait_name(trait_id) + "::"@ + ctx.spec_impl_fn_name(impl_function_id)
            + "`. Expected: `"@ + ctx.spec_rendered_type(expected_ty) + "`, actual: `"@
            + ctx.spec_rendered_type(actual_ty) + "`."@,
        KindModel::NoImplementationOfTraitFunction { concrete_trait_id, function_name } => {
            "Function `"@ + function_name + "` of trait `"@ + ctx.spec_trait_path(
                ctx.spec_concrete_trait(concrete_trait_id).trait_id,
            ) + "::<"@ + join_with(
                rendered_types(ctx, ctx.spec_concrete_trait(concrete_trait_id).generic_args@),
                ", "@,
            ) + ">` has no implementation in the context."@
        },
        KindModel::AmbiguousTrait { trait_function_id0, trait_function_id1 } => {
            "Ambiguous method call. More than one applicable trait function with a suitable self type was found: "@
                + ctx.spec_trait_fn_path(trait_function_id0) + " and "@ + ctx.spec_trait_fn_path(
                trait_function_id1,
            )
                + ". Consider adding type annotations or explicitly refer to the impl function."@
        },
        KindModel::MultipleImplementationOfTraitFunction {
            trait_id,
            all_impl_ids,
            function_name,
        } => "Function `"@ + function_name + "` of trait `"@ + ctx.spec_trait_path(trait_id)
            + "` has multiple implementations, in: "@ + join_with(
            rendered_impl_paths(ctx, all_impl_ids),
            ", "@,
        ),
        KindModel::VariableNotFound { name } => "Variable \""@ + name + "\" not found."@,
        KindModel::StructMemberRedefinition { struct_id, member_name } => {
            "Redefinition of member \""@ + member_name + "\" on struct \""@ + ctx.spec_struct_path(
                struct_id,
            ) + "\"."@
        },
        KindModel::EnumVariantRedefinition { enum_id, variant_name } => {
            "Redefinition of variant \""@ + variant_name + "\" on enum \""@ + ctx.spec_enum_path(
                enum_id,
            ) + "\"."@
        },
        KindModel::ParamNameRedefinition { function_signature_id, param_name } => {
            "Redefinition of parameter name \""@ + param_name + "\" in function \""@
                + ctx.spec_signature_path(function_signature_id) + "\"."@
        },
        KindModel::IncompatibleMatchArms { match_ty, arm_ty } => {
            "Match arms have incompatible types: \""@ + ctx.spec_rendered_type(match_ty)
                + "\" and \""@ + ctx.spec_rendered_type(arm_ty) + "\""@
        },
        KindModel::IncompatibleIfBlockTypes { block_if_ty, block_else_ty } => {
            "If blocks have incompatible types: \""@ + ctx.spec_rendered_type(block_if_ty)
                + "\" and \""@ + ctx.spec_rendered_type(block_else_ty) + "\""@
        },
        KindModel::TypeHasNoMembers { ty, member_name } => "Type \""@ + ctx.spec_rendered_type(ty)
            + "\" has no members."@,
        KindModel::TypeYetUnknown => "Type annotation needed."@,
        KindModel::NoSuchMember { struct_id, member_name } => "Struct \""@ + ctx.spec_struct_path(
            struct_id,
        ) + "\" has no member \""@ + member_name + "\""@,
        KindModel::NoSuchVariant { enum_id, variant_name } => "Enum \""@ + ctx.spec_enum_path(
            enum_id,
        ) + "\" has no variant \""@ + variant_name + "\""@,
        KindModel::IncompatibleErrorPropagateType { return_ty, err_ty } => "Return type \""@
            + ctx.spec_rendered_type(return_ty) + "\" does not wrap error \""@
            + ctx.spec_rendered_type(err_ty) + "\""@,
        KindModel::ErrorPropagateOnNonErrorType { ty } => "Type \""@ + ctx.spec_rendered_type(ty)
            + "\" can not error propagate"@,
        KindModel::RefArgNotAVariable => "ref argument must be a variable."@,
        KindModel::RefArgNotMutable => "ref argument must be a mutable variable."@,
        KindModel::RefArgNotExplicit => "ref argument must be a passed with a preceding 'ref'."@,
        KindModel::ImmutableArgWithModifiers => "Argument cannot have modifiers."@,
        KindModel::AssignmentToImmutableVar => "Cannot assign to an immutable variable."@,
        KindModel::InvalidLhsForAssignment => "Invalid left-hand side of assignment."@,
        KindModel::InvalidMemberExpression => "Invalid member expression."@,
        KindModel::InvalidPath => "Invalid path."@,
        KindModel::PathNotFound(item_type) => match item_type {
            NotFoundItemType::Identifier => "Identifier not found."@,
            NotFoundItemType::Function => "Function not found."@,
            NotFoundItemType::Type => "Type not found."@,
            NotFoundItemType::Trait => "Trait not found."@,
            NotFoundItemType::Impl => "Impl not found."@,
        },
        KindModel::SuperUsedInRootModule => "'super' cannot be used for the crate's root module."@,
        KindModel::RedundantModifier { current_modifier, previous_modifier } => "`"@
            + current_modifier + "` modifier was specified after another modifier (`"@
            + previous_modifier + "`). Only a single modifier is allowed."@,
        KindModel::ReferenceLocalVariable => {
            "`ref` is only allowed for function parameters, not for local variables."@
        },
        KindModel::UnexpectedLiteralPattern { ty } => {
            "Unexpected type for literal pattern. Expected: felt. Got: \""@
                + ctx.spec_rendered_type(ty) + "\""@
        },
        KindModel::UnexpectedEnumPattern { ty } => "Unexpected type for enum pattern. \""@
            + ctx.spec_rendered_type(ty) + "\" is not an enum."@,
        KindModel::UnexpectedStructPattern { ty } => "Unexpected type for struct pattern. \""@
            + ctx.spec_rendered_type(ty) + "\" is not a struct."@,
        KindModel::UnexpectedTuplePattern { ty } => "Unexpected type for tuple pattern. \""@
            + ctx.spec_rendered_type(ty) + "\" is not a tuple."@,
        KindModel::WrongEnum { expected_enum, actual_enum } => {
            "Wrong enum in pattern. Expected: \""@ + ctx.spec_enum_path(expected_enum)
                + "\". Got: \""@ + ctx.spec_enum_path(actual_enum) + "\"."@
        },
        KindModel::ShortStringMustBeAscii => "Short strings can only include ASCII characters."@,
        KindModel::IllegalStringEscaping(err) => "Invalid string escaping:\n"@ + err,
        KindModel::InvalidCopyTraitImpl => "Invalid copy trait implementation."@,
        KindModel::InvalidDropTraitImpl => "Invalid drop trait implementation."@,
        KindModel::InvalidImplItem { item_kw } => "`"@ + item_kw
            + "` is not allowed inside impl."@,
        KindModel::MissingItemsInImpl { item_names } => {
            "Not all trait items are implemented. Missing: "@ + join_with(
                quoted_names(item_names),
                ", "@,
            ) + "."@
        },
        KindModel::PassPanicAsNopanic { impl_function_id, trait_id } => {
            "The signature of function `"@ + ctx.spec_impl_fn_name(impl_function_id)
                + "` is incompatible with trait `"@ + ctx.spec_trait_name(trait_id)
                + "`. The trait function is declared as nopanic."@
        },
        KindModel::PanicableFromNonPanicable => {
            "Function is declared as nopanic but calls a function that may panic."@
        },
        KindModel::PanicableExternFunction => "An extern function must be marked as nopanic."@,
        KindModel::PluginDiagnostic { span, message } => "Plugin diagnostic: "@ + message,
        KindModel::WrappedPluginDiagnostic { span, message, original_diag } => {
            "Plugin diagnostic: "@ + message
        },
        KindModel::NameDefinedMultipleTimes { name } => "The name `"@ + name
            + "` is defined multiple times."@,
        KindModel::NamedArgumentsAreNotSupported => {
            "Named arguments are not supported in this context."@
        },
        KindModel::UnnamedArgumentFollowsNamed => {
            "Unnamed arguments cannot follow named arguments."@
        },
        KindModel::NamedArgumentMismatch { expected, found } => {
            "Unexpected argument name. Expected: '"@ + expected + "', found '"@ + found + "'."@
        },
        KindModel::UnsupportedOutsideOfFunction { feature_name } => feature_text(feature_name)
            + " is not supported outside of functions."@,
        KindModel::OnlyLiteralConstants => "Only literal constants are currently supported."@,
        KindModel::ExternItemWithImplGenericsNotSupported => {
            "Extern items with impl generics are not supported"@
        },
        KindModel::MissingSemicolon => "Missing semicolon"@,
        KindModel::TraitMismatch => "Supplied impl does not match the required trait"@,
    }
}


/// Every handle the display location of a finding resolves is present in the
/// source map.
pub open spec fn loc_wf(d: DiagModel, sm: SourceMap) -> bool {
    sm.module_file_in(d.location.module_file_id) && sm.ptr_in(d.location.stable_ptr)
}

/// The display position of a finding: the resolved span of its stable
/// location, collapsed to the zero-width point after that span when `after`
/// is set; for a plugin finding the span carried in the plugin payload takes
/// precedence.
pub open spec fn spec_location(d: DiagModel, sm: SourceMap) -> DiagnosticLocation {
    let base = DiagnosticLocation {
        file_id: sm.spec_file_of(d.location.module_file_id),
        span: sm.spec_span_of(d.location.stable_ptr),
    };
    let located = if d.after {
        DiagnosticLocation {
            file_id: base.file_id,
            span: TextSpan { start: base.span.end, end: base.span.end },
        }
    } else {
        base
    };
    match d.kind {
        KindModel::PluginDiagnostic { span, message } => DiagnosticLocation {
            file_id: located.file_id,
            span,
        },
        KindModel::WrappedPluginDiagnostic { span, message, original_diag } => DiagnosticLocation {
            file_id: located.file_id,
            span,
        },
        _ => located,
    }
}

/// A finding reported after a node is displayed at the zero-width point
/// immediately following the node's span: `after` only ever shifts the
/// reported span, and a plugin payload's own span is the one thing that takes
/// precedence over it.
pub proof fn lemma_after_location_zero_width(d: DiagModel, sm: SourceMap)
    requires
        d.after,
        !(d.kind matches KindModel::PluginDiagnostic { .. }),
        !(d.kind matches KindModel::WrappedPluginDiagnostic { .. }),
    ensures
        spec_location(d, sm).span.start == sm.spec_span_of(d.location.stable_ptr).end,
        spec_location(d, sm).span.end == sm.spec_span_of(d.location.stable_ptr).end,
{
}

/// Rendering is deterministic and idempotent: any two renderings of the same
/// kind against the same naming context are byte-identical, because the text
/// is fixed by the pure function [`fmt_spec`].
pub proof fn lemma_render_deterministic(
    s1: Seq<char>,
    s2: Seq<char>,
    m: KindModel,
    ctx: NamingContext,
)
    requires
        s1 == fmt_spec(m, ctx),
        s2 == fmt_spec(m, ctx),
    ensures
        s1 == s2,
{
}

impl SemanticDiagnostic {
    /// Resolve the position this finding is displayed at.
    pub fn location(&self, sm: &SourceMap) -> (r: DiagnosticLocation)
        requires
            loc_wf(self@, *sm),
        ensures
            r == spec_location(self@, *sm),
    {
        let file_id = sm.file_of(self.stable_location.module_file_id);
        let span = sm.span_of(self.stable_location.stable_ptr);
        let mut location = DiagnosticLocation { file_id, span };
        if self.after {
            location = location.after();
        }
        match &self.kind {
            SemanticDiagnosticKind::PluginDiagnostic(diagnostic) => DiagnosticLocation {
                file_id: location.file_id,
                span: diagnostic.span,
            },
            SemanticDiagnosticKind::WrappedPluginDiagnostic { diagnostic, original_diag } => {
                DiagnosticLocation { file_id: location.file_id, span: diagnostic.span }
            },
            _ => location,
        }
    }

    /// Render this finding's message against the given naming context. Total
    /// over every kind of finding, and deterministic: the result is fixed by
    /// [`fmt_spec`].
    pub fn format(&self, ctx: &NamingContext) -> (r: String)
        requires
            kind_wf(self.kind@, *ctx),
        ensures
            r@ == fmt_spec(self.kind@, *ctx),
    {
        match &self.kind {
            SemanticDiagnosticKind::ModuleFileNotFound { path } => {
                let mut s = "Module file not found. Expected path: ".to_owned();
                s.append(path.as_str());
                s
            },
            SemanticDiagnosticKind::Unsupported => "Unsupported feature.".to_owned(),
            SemanticDiagnosticKind::UnknownLiteral => "Unknown literal.".to_owned(),
            SemanticDiagnosticKind::UnsupportedUnaryOperator { op, ty } => {
                let mut s = "Unary operator '".to_owned();
                s.append(op.as_str());
                s.append("' is not supported for type '");
                s.append(ctx.rendered_type(*ty).as_str());
                s.append("'.");
                s
            },
            SemanticDiagnosticKind::UnknownBinaryOperator => "Unknown binary operator.".to_owned(),
            SemanticDiagnosticKind::UnsupportedBinaryOperator { op, type1, type2 } => {
                let mut s = "Binary operator '".to_owned();
                s.append(op.as_str());
                s.append("' is not supported for types '");
                s.append(ctx.rendered_type(*type1).as_str());
                s.append("' and '");
                s.append(ctx.rendered_type(*type2).as_str());
                s.append("'.");
                s
            },
            SemanticDiagnosticKind::UnknownFunction => "Unknown function.".to_owned(),
            SemanticDiagnosticKind::UnknownTrait => "Unknown trait.".to_owned(),
            SemanticDiagnosticKind::UnknownImpl => "Unknown impl.".to_owned(),
            SemanticDiagnosticKind::UnexpectedElement { expected, actual } => {
                let texts = elem_text_list(expected);
                let joined = join_strs(&texts, " or ");
                let mut s = "Expected ".to_owned();
                s.append(joined.as_str());
                s.append(", found ");
                s.append(actual.text());
                s.append(".");
                s
            },
            SemanticDiagnosticKind::UnknownType => "Unknown type.".to_owned(),
            SemanticDiagnosticKind::UnknownStruct => "Unknown struct.".to_owned(),
            SemanticDiagnosticKind::UnknownEnum => "Unknown enum.".to_owned(),
            SemanticDiagnosticKind::NoLiteralFunctionFound => {
                "A literal with this type cannot be created.".to_owned()
            },
            SemanticDiagnosticKind::NotAVariant => {
                "Not a variant. Use the full name Enum::Variant.".to_owned()
            },
            SemanticDiagnosticKind::NotAStruct => "Not a struct.".to_owned(),
            SemanticDiagnosticKind::NotAType => "Not a type.".to_owned(),
            SemanticDiagnosticKind::NotATrait => "Not a trait.".to_owned(),
            SemanticDiagnosticKind::FunctionNotMemberOfTrait {
                impl_def_id,
                impl_function_id,
                trait_id,
            } => {
                let mut s = "Impl function `".to_owned();
                s.append(ctx.impl_name(*impl_def_id).as_str());
                s.append("::");
                s.append(ctx.impl_fn_name(*impl_function_id).as_str());
                s.append("` is not a member of trait `");
                s.append(ctx.trait_name(*trait_id).as_str());
                s.append("`.");
                s
            },
            SemanticDiagnosticKind::UnexpectedGenericArgs => {
                "Unexpected generic arguments".to_owned()
            },
            SemanticDiagnosticKind::UnknownMember => "Unknown member.".to_owned(),
            SemanticDiagnosticKind::MemberSpecifiedMoreThanOnce => {
                "Member specified more than once.".to_owned()
            },
            SemanticDiagnosticKind::UseCycle => {
                "Cycle detected while resolving 'use' items.".to_owned()
            },
            SemanticDiagnosticKind::TypeAliasCycle => {
                "Cycle detected while resolving 'type alias' items.".to_owned()
            },
            SemanticDiagnosticKind::ExpectedConcreteVariant => {
                "Expected a concrete variant. Use `::<>` syntax.".to_owned()
            },
            SemanticDiagnosticKind::MissingMember { member_name } => {
                let mut s = "Missing member \"".to_owned();
                s.append(member_name.as_str());
                s.append("\".");
                s
            },
            SemanticDiagnosticKind::WrongNumberOfParameters {
                impl_def_id,
                impl_function_id,
                trait_id,
                expected,
                actual,
            } => {
                let mut s = "The number of parameters in the impl function `".to_owned();
                s.append(ctx.impl_name(*impl_def_id).as_str());
                s.append("::");
                s.append(ctx.impl_fn_name(*impl_function_id).as_str());
                s.append("` is incompatible with `");
                s.append(ctx.trait_name(*trait_id).as_str());
                s.append("::");
                s.append(ctx.impl_fn_name(*impl_function_id).as_str());
                s.append("`. Expected: ");
                s.append(usize_text(*expected).as_str());
                s.append(", actual: ");
                s.append(usize_text(*actual).as_str());
                s.append(".");
                s
            },
            SemanticDiagnosticKind::WrongNumberOfArguments { expected, actual } => {
                let mut s = "Wrong number of arguments. Expected ".to_owned();
                s.append(usize_text(*expected).as_str());
                s.append(", found: ");
                s.append(usize_text(*actual).as_str());
                s
            },
            SemanticDiagnosticKind::WrongNumberOfGenericArguments { expected, actual } => {
                let mut s = "Wrong number of generic arguments. Expected ".to_owned();
                s.append(usize_text(*expected).as_str());
                s.append(", found: ");
                s.append(usize_text(*actual).as_str());
                s
            },
            SemanticDiagnosticKind::ConstGenericInferenceUnsupported => {
                "Const generic inference not yet supported.".to_owned()
            },
            SemanticDiagnosticKind::ImplGenericsUnsupported => {
                "Impl generics not yet supported.".to_owned()
            },
            SemanticDiagnosticKind::WrongParameterType {
                impl_def_id,
                impl_function_id,
                trait_id,
                expected_ty,
                actual_ty,
            } => {
                let mut s = "Parameter type of impl function `".to_owned();
                s.append(ctx.impl_name(*impl_def_id).as_str());
                s.append("::");
                s.append(ctx.impl_fn_name(*impl_function_id).as_str());
                s.append("` is incompatible with `");
                s.append(ctx.trait_name(*trait_id).as_str());
                s.append("::");
                s.append(ctx.impl_fn_name(*impl_function_id).as_str());
                s.append("`. Expected: `");
                s.append(ctx.rendered_type(*expected_ty).as_str());
                s.append("`, actual: `");
                s.append(ctx.rendered_type(*actual_ty).as_str());
                s.append("`.");
                s
            },
            SemanticDiagnosticKind::VariantCtorNotImmutable => {
                "Variant constructor argument must be immutable.".to_owned()
            },
            SemanticDiagnosticKind::TraitParamMutable { trait_id, function_id } => {
                let mut s = "Parameter of trait function `".to_owned();
                s.append(ctx.trait_name(*trait_id).as_str());
                s.append("::");
                s.append(ctx.trait_fn_name(*function_id).as_str());
                s.append("` can't be defined as mutable.");
                s
            },
            SemanticDiagnosticKind::TraitFunctionWithBody { trait_id, function_id } => {
                let mut s = "Trait function `".to_owned();
                s.append(ctx.trait_name(*trait_id).as_str());
                s.append("::");
                s.append(ctx.trait_fn_name(*function_id).as_str());
                s.append("` has a body. Trait functions with body are not supported.");
                s
            },
            SemanticDiagnosticKind::ParamaterShouldBeReference {
                impl_def_id,
                impl_function_id,
                trait_id,
            } => {
                let mut s = "Parameter of impl function ".to_owned();
                s.append(ctx.impl_name(*impl_def_id).as_str());
                s.append("::");
                s.append(ctx.impl_fn_name(*impl_function_id).as_str());
                s.append(" is incompatible with ");
                s.append(ctx.trait_name(*trait_id).as_str());
                s.append("::");
                s.append(ctx.impl_fn_name(*impl_function_id).as_str());
                s.append(". It should be a reference.");
                s
            },
            SemanticDiagnosticKind::ParameterShouldNotBeReference {
                impl_def_id,
                impl_function_id,
                trait_id,
            } => {
                let mut s = "Parameter of impl function ".to_owned();
                s.append(ctx.impl_name(*impl_def_id).as_str());
                s.append("::");
                s.append(ctx.impl_fn_name(*impl_function_id).as_str());
                s.append(" is incompatible with ");
                s.append(ctx.trait_name(*trait_id).as_str());
                s.append("::");
                s.append(ctx.impl_fn_name(*impl_function_id).as_str());
                s.append(". It should not be a reference.");
                s
            },
            SemanticDiagnosticKind::WrongType { expected_ty, actual_ty } => {
                let mut s = "Expected type \"".to_owned();
                s.append(ctx.rendered_type(*expected_ty).as_str());
                s.append("\", found: \"");
                s.append(ctx.rendered_type(*actual_ty).as_str());
                s.append("\".");
                s
            },
            SemanticDiagnosticKind::WrongArgumentType { expected_ty, actual_ty } => {
                let mut s = "Unexpected argument type. Expected: \"".to_owned();
                s.append(ctx.rendered_type(*expected_ty).as_str());
                s.append("\", found: \"");
                s.append(ctx.rendered_type(*actual_ty).as_str());
                s.append("\".");
                s
            },
            SemanticDiagnosticKind::WrongReturnType { expected_ty, actual_ty } => {
                let mut s = "Unexpected return type. Expected: \"".to_owned();
                s.append(ctx.rendered_type(*expected_ty).as_str());
                s.append("\", found: \"");
                s.append(ctx.rendered_type(*actual_ty).as_str());
                s.append("\".");
                s
            },
            SemanticDiagnosticKind::WrongReturnTypeForImpl {
                impl_def_id,
                impl_function_id,
                trait_id,
                expected_ty,
                actual_ty,
            } => {
                let mut s = "Return type of impl function `".to_owned();
                s.append(ctx.impl_name(*impl_def_id).as_str());
                s.append("::");
                s.append(ctx.impl_fn_name(*impl_function_id).as_str());
                s.append("` is incompatible with `");
                s.append(ctx.trait_name(*trait_id).as_str());
                s.append("::");
                s.append(ctx.impl_fn_name(*impl_function_id).as_str());
                s.append("`. Expected: `");
                s.append(ctx.rendered_type(*expected_ty).as_str());
                s.append("`, actual: `");
                s.append(ctx.rendered_type(*actual_ty).as_str());
                s.append("`.");
                s
            },
            SemanticDiagnosticKind::NoImplementationOfTraitFunction {
                concrete_trait_id,
                function_name,
            } => {
                let long_form = ctx.concrete_trait(*concrete_trait_id);
                let rendered_args = rendered_type_list(ctx, &long_form.generic_args);
                let joined = join_strs(&rendered_args, ", ");
                let mut s = "Function `".to_owned();
                s.append(function_name.as_str());
                s.append("` of trait `");
                s.append(ctx.trait_path(long_form.trait_id).as_str());
                s.append("::<");
                s.append(joined.as_str());
                s.append(">` has no implementation in the context.");
                s
            },
            SemanticDiagnosticKind::AmbiguousTrait { trait_function_id0, trait_function_id1 } => {
                let mut s =
                    "Ambiguous method call. More than one applicable trait function with a suitable self type was found: ".to_owned();
                s.append(ctx.trait_fn_path(*trait_function_id0).as_str());
                s.append(" and ");
                s.append(ctx.trait_fn_path(*trait_function_id1).as_str());
                s.append(
                    ". Consider adding type annotations or explicitly refer to the impl function.",
                );
                s
            },
            SemanticDiagnosticKind::MultipleImplementationOfTraitFunction {
                trait_id,
                all_impl_ids,
                function_name,
            } => {
                proof {
                    let ghost mids = self.kind@->MultipleImplementationOfTraitFunction_all_impl_ids;
                    assert forall|j: int|
                        0 <= j < all_impl_ids@.len() implies ctx.impl_in(
                        #[trigger] all_impl_ids@[j],
                    ) by {
                        assert(ctx.impl_in(mids[j]));
                    }
                }
                let paths = impl_path_list(ctx, all_impl_ids);
                let joined = join_strs(&paths, ", ");
                let mut s = "Function `".to_owned();
                s.append(function_name.as_str());
                s.append("` of trait `");
                s.append(ctx.trait_path(*trait_id).as_str());
                s.append("` has multiple implementations, in: ");
                s.append(joined.as_str());
                s
            },
            SemanticDiagnosticKind::VariableNotFound { name } => {
                let mut s = "Variable \"".to_owned();
                s.append(name.as_str());
                s.append("\" not found.");
                s
            },
            SemanticDiagnosticKind::StructMemberRedefinition { struct_id, member_name } => {
                let mut s = "Redefinition of member \"".to_owned();
                s.append(member_name.as_str());
                s.append("\" on struct \"");
                s.append(ctx.struct_path(*struct_id).as_str());
                s.append("\".");
                s
            },
            SemanticDiagnosticKind::EnumVariantRedefinition { enum_id, variant_name } => {
                let mut s = "Redefinition of variant \"".to_owned();
                s.append(variant_name.as_str());
                s.append("\" on enum \"");
                s.append(ctx.enum_path(*enum_id).as_str());
                s.append("\".");
                s
            },
            SemanticDiagnosticKind::ParamNameRedefinition {
                function_signature_id,
                param_name,
            } => {
                let mut s = "Redefinition of parameter name \"".to_owned();
                s.append(param_name.as_str());
                s.append("\" in function \"");
                s.append(ctx.signature_path(*function_signature_id).as_str());
                s.append("\".");
                s
            },
            SemanticDiagnosticKind::IncompatibleMatchArms { match_ty, arm_ty } => {
                let mut s = "Match arms have incompatible types: \"".to_owned();
                s.append(ctx.rendered_type(*match_ty).as_str());
                s.append("\" and \"");
                s.append(ctx.rendered_type(*arm_ty).as_str());
                s.append("\"");
                s
            },
            SemanticDiagnosticKind::IncompatibleIfBlockTypes { block_if_ty, block_else_ty } => {
                let mut s = "If blocks have incompatible types: \"".to_owned();
                s.append(ctx.rendered_type(*block_if_ty).as_str());
                s.append("\" and \"");
                s.append(ctx.rendered_type(*block_else_ty).as_str());
                s.append("\"");
                s
            },
            SemanticDiagnosticKind::TypeHasNoMembers { ty, member_name } => {
                let mut s = "Type \"".to_owned();
                s.append(ctx.rendered_type(*ty).as_str());
                s.append("\" has no members.");
                s
            },
            SemanticDiagnosticKind::TypeYetUnknown => "Type annotation needed.".to_owned(),
            SemanticDiagnosticKind::NoSuchMember { struct_id, member_name } => {
                let mut s = "Struct \"".to_owned();
                s.append(ctx.struct_path(*struct_id).as_str());
                s.append("\" has no member \"");
                s.append(member_name.as_str());
                s.append("\"");
                s
            },
            SemanticDiagnosticKind::NoSuchVariant { enum_id, variant_name } => {
                let mut s = "Enum \"".to_owned();
                s.append(ctx.enum_path(*enum_id).as_str());
                s.append("\" has no variant \"");
                s.append(variant_name.as_str());
                s.append("\"");
                s
            },
            SemanticDiagnosticKind::IncompatibleErrorPropagateType { return_ty, err_ty } => {
                let mut s = "Return type \"".to_owned();
                s.append(ctx.rendered_type(*return_ty).as_str());
                s.append("\" does not wrap error \"");
                s.append(ctx.rendered_type(*err_ty).as_str());
                s.append("\"");
                s
            },
            SemanticDiagnosticKind::ErrorPropagateOnNonErrorType { ty } => {
                let mut s = "Type \"".to_owned();
                s.append(ctx.rendered_type(*ty).as_str());
                s.append("\" can not error propagate");
                s
            },
            SemanticDiagnosticKind::RefArgNotAVariable => {
                "ref argument must be a variable.".to_owned()
            },
            SemanticDiagnosticKind::RefArgNotMutable => {
                "ref argument must be a mutable variable.".to_owned()
            },
            SemanticDiagnosticKind::RefArgNotExplicit => {
                "ref argument must be a passed with a preceding 'ref'.".to_owned()
            },
            SemanticDiagnosticKind::ImmutableArgWithModifiers => {
                "Argument cannot have modifiers.".to_owned()
            },
            SemanticDiagnosticKind::AssignmentToImmutableVar => {
                "Cannot assign to an immutable variable.".to_owned()
            },
            SemanticDiagnosticKind::InvalidLhsForAssignment => {
                "Invalid left-hand side of assignment.".to_owned()
            },
            SemanticDiagnosticKind::InvalidMemberExpression => {
                "Invalid member expression.".to_owned()
            },
            SemanticDiagnosticKind::InvalidPath => "Invalid path.".to_owned(),
            SemanticDiagnosticKind::PathNotFound(item_type) => match item_type {
                NotFoundItemType::Identifier => "Identifier not found.".to_owned(),
                NotFoundItemType::Function => "Function not found.".to_owned(),
                NotFoundItemType::Type => "Type not found.".to_owned(),
                NotFoundItemType::Trait => "Trait not found.".to_owned(),
                NotFoundItemType::Impl => "Impl not found.".to_owned(),
            },
            SemanticDiagnosticKind::SuperUsedInRootModule => {
                "'super' cannot be used for the crate's root module.".to_owned()
            },
            SemanticDiagnosticKind::RedundantModifier {
                current_modifier,
                previous_modifier,
            } => {
                let mut s = "`".to_owned();
                s.append(current_modifier.as_str());
                s.append("` modifier was specified after another modifier (`");
                s.append(previous_modifier.as_str());
                s.append("`). Only a single modifier is allowed.");
                s
            },
            SemanticDiagnosticKind::ReferenceLocalVariable => {
                "`ref` is only allowed for function parameters, not for local variables.".to_owned()
            },
            SemanticDiagnosticKind::UnexpectedLiteralPattern { ty } => {
                let mut s = "Unexpected type for literal pattern. Expected: felt. Got: \""
                    .to_owned();
                s.append(ctx.rendered_type(*ty).as_str());
                s.append("\"");
                s
            },
            SemanticDiagnosticKind::UnexpectedEnumPattern { ty } => {
                let mut s = "Unexpected type for enum pattern. \"".to_owned();
                s.append(ctx.rendered_type(*ty).as_str());
                s.append("\" is not an enum.");
                s
            },
            SemanticDiagnosticKind::UnexpectedStructPattern { ty } => {
                let mut s = "Unexpected type for struct pattern. \"".to_owned();
                s.append(ctx.rendered_type(*ty).as_str());
                s.append("\" is not a struct.");
                s
            },
            SemanticDiagnosticKind::UnexpectedTuplePattern { ty } => {
                let mut s = "Unexpected type for tuple pattern. \"".to_owned();
                s.append(ctx.rendered_type(*ty).as_str());
                s.append("\" is not a tuple.");
                s
            },
            SemanticDiagnosticKind::WrongEnum { expected_enum, actual_enum } => {
                let mut s = "Wrong enum in pattern. Expected: \"".to_owned();
                s.append(ctx.enum_path(*expected_enum).as_str());
                s.append("\". Got: \"");
                s.append(ctx.enum_path(*actual_enum).as_str());
                s.append("\".");
                s
            },
            SemanticDiagnosticKind::ShortStringMustBeAscii => {
                "Short strings can only include ASCII characters.".to_owned()
            },
            SemanticDiagnosticKind::IllegalStringEscaping(err) => {
                let mut s = "Invalid string escaping:\n".to_owned();
                s.append(err.as_str());
                s
            },
            SemanticDiagnosticKind::InvalidCopyTraitImpl => {
                "Invalid copy trait implementation.".to_owned()
            },
            SemanticDiagnosticKind::InvalidDropTraitImpl => {
                "Invalid drop trait implementation.".to_owned()
            },
            SemanticDiagnosticKind::InvalidImplItem { item_kw } => {
                let mut s = "`".to_owned();
                s.append(item_kw.as_str());
                s.append("` is not allowed inside impl.");
                s
            },
            SemanticDiagnosticKind::MissingItemsInImpl { item_names } => {
                let quoted = quoted_name_list(item_names);
                let joined = join_strs(&quoted, ", ");
                let mut s = "Not all trait items are implemented. Missing: ".to_owned();
                s.append(joined.as_str());
                s.append(".");
                s
            },
            SemanticDiagnosticKind::PassPanicAsNopanic { impl_function_id, trait_id } => {
                let mut s = "The signature of function `".to_owned();
                s.append(ctx.impl_fn_name(*impl_function_id).as_str());
                s.append("` is incompatible with trait `");
                s.append(ctx.trait_name(*trait_id).as_str());
                s.append("`. The trait function is declared as nopanic.");
                s
            },
            SemanticDiagnosticKind::PanicableFromNonPanicable => {
                "Function is declared as nopanic but calls a function that may panic.".to_owned()
            },
            SemanticDiagnosticKind::PanicableExternFunction => {
                "An extern function must be marked as nopanic.".to_owned()
            },
            SemanticDiagnosticKind::PluginDiagnostic(diagnostic) => {
                let mut s = "Plugin diagnostic: ".to_owned();
                s.append(diagnostic.message.as_str());
                s
            },
            SemanticDiagnosticKind::WrappedPluginDiagnostic { diagnostic, original_diag } => {
                let mut s = "Plugin diagnostic: ".to_owned();
                s.append(diagnostic.message.as_str());
                s
            },
            SemanticDiagnosticKind::NameDefinedMultipleTimes { name } => {
                let mut s = "The name `".to_owned();
                s.append(name.as_str());
                s.append("` is defined multiple times.");
                s
            },
            SemanticDiagnosticKind::NamedArgumentsAreNotSupported => {
                "Named arguments are not supported in this context.".to_owned()
            },
            SemanticDiagnosticKind::UnnamedArgumentFollowsNamed => {
                "Unnamed arguments cannot follow named arguments.".to_owned()
            },
            SemanticDiagnosticKind::NamedArgumentMismatch { expected, found } => {
                let mut s = "Unexpected argument name. Expected: '".to_owned();
                s.append(expected.as_str());
                s.append("', found '");
                s.append(found.as_str());
                s.append("'.");
                s
            },
            SemanticDiagnosticKind::UnsupportedOutsideOfFunction { feature_name } => {
                let mut s = feature_name.text().to_owned();
                s.append(" is not supported outside of functions.");
                s
            },
            SemanticDiagnosticKind::OnlyLiteralConstants => {
                "Only literal constants are currently supported.".to_owned()
            },
            SemanticDiagnosticKind::ExternItemWithImplGenericsNotSupported => {
                "Extern items with impl generics are not supported".to_owned()
            },
            SemanticDiagnosticKind::MissingSemicolon => "Missing semicolon".to_owned(),
            SemanticDiagnosticKind::TraitMismatch => {
                "Supplied impl does not match the required trait".to_owned()
            },
        }
    }
}


} // verus!
