//! The type compatibility checker: unifies the result types of the branches
//! of a control-flow merge — the arms of a match, or the two blocks of an
//! if/else — by exact structural equality, with no coercion and no
//! common-supertype search.

use vstd::prelude::*;

use crate::conformance::at;
use crate::diagnostic::{DiagModel, KindModel, SemanticDiagnostics, SemanticDiagnosticKind};
use crate::ids::{ModuleFileId, SyntaxStablePtrId, TypeId};

verus! {

/// One branch of a control-flow merge: its result type and the syntax node
/// the branch came from.
#[derive(Clone, Copy, Debug, PartialEq, Eq, Structural)]
pub struct Branch {
    pub ty: TypeId,
    pub stable_ptr: SyntaxStablePtrId,
}

/// The findings of comparing the first `i` match arms to the first arm's
/// type: one finding per mismatching arm, in arm order. The first arm's type
/// stays the expected type throughout — after the first mismatch it is not
/// re-derived, since that decision is already made and reported.
pub open spec fn match_arm_models(
    mf: ModuleFileId,
    expected: TypeId,
    arms: Seq<Branch>,
    i: int,
) -> Seq<DiagModel>
    decreases i,
{
    if i <= 1 {
        Seq::empty()
    } else {
        match_arm_models(mf, expected, arms, i - 1) + (if arms[i - 1].ty != expected {
            seq![
                at(
                    mf,
                    arms[i - 1].stable_ptr,
                    KindModel::IncompatibleMatchArms {
                        match_ty: expected,
                        arm_ty: arms[i - 1].ty,
                    },
                ),
            ]
        } else {
            Seq::empty()
        })
    }
}

/// Check that every arm of a match agrees with the first arm's type, which
/// becomes the type of the whole match. Each mismatching arm yields its own
/// finding, so independent mismatches are each reported. Returns the merged
/// type: the first arm's type, or nothing for an arm-less match.
pub fn check_match_arms(diags: &mut SemanticDiagnostics, arms: &Vec<Branch>) -> (r: Option<TypeId>)
    ensures
        r == (if arms@.len() == 0 {
            None
        } else {
            Some(arms@[0].ty)
        }),
        final(diags)@ == old(diags)@ + (if arms@.len() == 0 {
            Seq::<DiagModel>::empty()
        } else {
            match_arm_models(
                old(diags).module_file_id,
                arms@[0].ty,
                arms@,
                arms@.len() as int,
            )
        }),
        final(diags).module_file_id == old(diags).module_file_id,
{
    let ghost base = diags@;
    let ghost mf = diags.module_file_id;
    if arms.len() == 0 {
        proof {
            assert(diags@ =~= base + Seq::<DiagModel>::empty());
        }
        return None;
    }
    let expected = arms[0].ty;
    let mut i: usize = 1;
    proof {
        assert(diags@ =~= base + match_arm_models(mf, expected, arms@, 1));
    }
    while i < arms.len()
        invariant
            1 <= i <= arms@.len(),
            expected == arms@[0].ty,
            diags@ == base + match_arm_models(mf, expected, arms@, i as int),
            diags.module_file_id == mf,
        decreases arms@.len() - i,
    {
        let arm = arms[i];
        if arm.ty != expected {
            diags.report_by_ptr(
                arm.stable_ptr,
                SemanticDiagnosticKind::IncompatibleMatchArms {
                    match_ty: expected,
                    arm_ty: arm.ty,
                },
            );
        }
        proof {
            assert(diags@ =~= base + match_arm_models(mf, expected, arms@, i as int + 1));
        }
        i = i + 1;
    }
    Some(expected)
}

/// The at-most-one finding of an if/else merge: the two blocks must have the
/// same type.
pub open spec fn if_block_models(
    mf: ModuleFileId,
    ptr: SyntaxStablePtrId,
    block_if_ty: TypeId,
    block_else_ty: TypeId,
) -> Seq<DiagModel> {
    if block_if_ty != block_else_ty {
        seq![at(mf, ptr, KindModel::IncompatibleIfBlockTypes { block_if_ty, block_else_ty })]
    } else {
        Seq::empty()
    }
}

/// Check that the if block and the else block agree on one type, which
/// becomes the type of the whole expression. On a mismatch the finding is
/// recorded and analysis proceeds with the if block's type — the decision is
/// made once, never re-derived.
pub fn check_if_blocks(
    diags: &mut SemanticDiagnostics,
    block_if_ty: TypeId,
    block_else_ty: TypeId,
    stable_ptr: SyntaxStablePtrId,
) -> (r: TypeId)
    ensures
        r == block_if_ty,
        final(diags)@ == old(diags)@ + if_block_models(
            old(diags).module_file_id,
            stable_ptr,
            block_if_ty,
            block_else_ty,
        ),
        final(diags).module_file_id == old(diags).module_file_id,
{
    let ghost base = diags@;
    if block_if_ty != block_else_ty {
        diags.report_by_ptr(
            stable_ptr,
            SemanticDiagnosticKind::IncompatibleIfBlockTypes { block_if_ty, block_else_ty },
        );
    }
    proof {
        assert(diags@ =~= base + if_block_models(
            old(diags).module_file_id,
            stable_ptr,
            block_if_ty,
            block_else_ty,
        ));
    }
    block_if_ty
}

} // verus!
