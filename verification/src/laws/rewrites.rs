//! The order of rewrites.
use vstd::prelude::*;

use crate::optimizer::{Rewrite, rewrites};

verus! {

/// Each rewrite stands at its place: first those that look at the plan as it was
/// analyzed, then limits and filters going down, then those that look again at
/// what has been added.
pub proof fn rewrites_in_place(order: Vec<Rewrite>)
    requires
        call_ensures(rewrites, (), order),
    ensures
        order@.len() == 23,
        order@[0] == Rewrite::EliminateNestedUnion,
        order@[1] == Rewrite::SimplifyExpressions,
        order@[2] == Rewrite::UnwrapCastInComparison,
        order@[3] == Rewrite::ReplaceDistinctWithAggregate,
        order@[4] == Rewrite::EliminateJoin,
        order@[5] == Rewrite::DecorrelatePredicateSubquery,
        order@[6] == Rewrite::ScalarSubqueryToJoin,
        order@[7] == Rewrite::ExtractEquijoinPredicate,
        order@[8] == Rewrite::EliminateDuplicatedExpr,
        order@[9] == Rewrite::EliminateFilter,
        order@[10] == Rewrite::EliminateCrossJoin,
        order@[11] == Rewrite::CommonSubexprEliminate,
        order@[12] == Rewrite::EliminateLimit,
        order@[13] == Rewrite::PropagateEmptyRelation,
        order@[14] == Rewrite::EliminateOneUnion,
        order@[15] == Rewrite::FilterNullJoinKeys,
        order@[16] == Rewrite::EliminateOuterJoin,
        order@[17] == Rewrite::PushDownLimit,
        order@[18] == Rewrite::PushDownFilter,
        order@[19] == Rewrite::SimplifyExpressions,
        order@[20] == Rewrite::UnwrapCastInComparison,
        order@[21] == Rewrite::CommonSubexprEliminate,
        order@[22] == Rewrite::EliminateGroupByConstant,
{
}

/// Only the rewrites that look again at what has been added are applied twice.
pub proof fn rewrites_applied_again(order: Vec<Rewrite>, i: int, j: int)
    requires
        call_ensures(rewrites, (), order),
        0 <= i < j < order@.len(),
        order@[i] == order@[j],
    ensures
        i < 19 <= j < 22,
        order@[i] is SimplifyExpressions || order@[i] is UnwrapCastInComparison
            || order@[i] is CommonSubexprEliminate,
{
}

} // verus!
