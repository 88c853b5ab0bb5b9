//! The rewrites that turn an analyzed plan into the plan that is run.
use vstd::prelude::*;

verus! {

/// A rewrite of the query engine's optimizer.
#[derive(Debug, Clone, Copy, PartialEq, Eq, Structural)]
pub enum Rewrite {
    EliminateNestedUnion,
    SimplifyExpressions,
    UnwrapCastInComparison,
    ReplaceDistinctWithAggregate,
    EliminateJoin,
    DecorrelatePredicateSubquery,
    ScalarSubqueryToJoin,
    ExtractEquijoinPredicate,
    EliminateDuplicatedExpr,
    EliminateFilter,
    EliminateCrossJoin,
    CommonSubexprEliminate,
    EliminateLimit,
    PropagateEmptyRelation,
    EliminateOneUnion,
    FilterNullJoinKeys,
    EliminateOuterJoin,
    PushDownLimit,
    PushDownFilter,
    EliminateGroupByConstant,
    /// Makes nested aggregates of `count(distinct ..)`, which cannot be run.
    SingleDistinctToGroupBy,
    /// Drops the calculation of an event time that nothing else reads.
    OptimizeProjections,
}

/// The rewrites in the order in which they are applied. The last four look
/// again at the expressions and projections that the others have added.
pub open spec fn rewrite_order() -> Seq<Rewrite> {
    seq![
        Rewrite::EliminateNestedUnion,
        Rewrite::SimplifyExpressions,
        Rewrite::UnwrapCastInComparison,
        Rewrite::ReplaceDistinctWithAggregate,
        Rewrite::EliminateJoin,
        Rewrite::DecorrelatePredicateSubquery,
        Rewrite::ScalarSubqueryToJoin,
        Rewrite::ExtractEquijoinPredicate,
        Rewrite::EliminateDuplicatedExpr,
        Rewrite::EliminateFilter,
        Rewrite::EliminateCrossJoin,
        Rewrite::CommonSubexprEliminate,
        Rewrite::EliminateLimit,
        Rewrite::PropagateEmptyRelation,
        Rewrite::EliminateOneUnion,
        Rewrite::FilterNullJoinKeys,
        Rewrite::EliminateOuterJoin,
        Rewrite::PushDownLimit,
        Rewrite::PushDownFilter,
        Rewrite::SimplifyExpressions,
        Rewrite::UnwrapCastInComparison,
        Rewrite::CommonSubexprEliminate,
        Rewrite::EliminateGroupByConstant,
    ]
}

/// The rewrites in the order in which they are applied.
pub fn rewrites() -> (order: Vec<Rewrite>)
    ensures
        order@ == rewrite_order(),
{
    let order = vec![
        Rewrite::EliminateNestedUnion,
        Rewrite::SimplifyExpressions,
        Rewrite::UnwrapCastInComparison,
        Rewrite::ReplaceDistinctWithAggregate,
        Rewrite::EliminateJoin,
        Rewrite::DecorrelatePredicateSubquery,
        Rewrite::ScalarSubqueryToJoin,
        Rewrite::ExtractEquijoinPredicate,
        Rewrite::EliminateDuplicatedExpr,
        Rewrite::EliminateFilter,
        Rewrite::EliminateCrossJoin,
        Rewrite::CommonSubexprEliminate,
        Rewrite::EliminateLimit,
        Rewrite::PropagateEmptyRelation,
        Rewrite::EliminateOneUnion,
        Rewrite::FilterNullJoinKeys,
        Rewrite::EliminateOuterJoin,
        Rewrite::PushDownLimit,
        Rewrite::PushDownFilter,
        Rewrite::SimplifyExpressions,
        Rewrite::UnwrapCastInComparison,
        Rewrite::CommonSubexprEliminate,
        Rewrite::EliminateGroupByConstant,
    ];
    proof {
        assert(order@ =~= rewrite_order());
    }
    order
}

/// Unions of one input are only eliminated after empty relations have been
/// propagated.
pub proof fn one_union_after_empty_relation(i: int, j: int)
    requires
        0 <= i < rewrite_order().len(),
        0 <= j < rewrite_order().len(),
        rewrite_order()[i] == Rewrite::EliminateOneUnion,
        rewrite_order()[j] == Rewrite::PropagateEmptyRelation,
    ensures
        j < i,
{
}

/// Filters are only pushed down after limits, since they cannot pass one.
pub proof fn filters_pushed_after_limits(i: int, j: int)
    requires
        0 <= i < rewrite_order().len(),
        0 <= j < rewrite_order().len(),
        rewrite_order()[i] == Rewrite::PushDownFilter,
        rewrite_order()[j] == Rewrite::PushDownLimit,
    ensures
        j < i,
{
}

/// No rewrite makes nested aggregates, and none drops the calculation of an
/// event time.
pub proof fn plan_keeps_aggregates_and_event_time()
    ensures
        !rewrite_order().contains(Rewrite::SingleDistinctToGroupBy),
        !rewrite_order().contains(Rewrite::OptimizeProjections),
{
}

/// Expressions are simplified again after the last filter has been pushed
/// down.
pub proof fn simplified_after_filters(i: int)
    requires
        0 <= i < rewrite_order().len(),
        rewrite_order()[i] == Rewrite::PushDownFilter,
    ensures
        exists|j: int|
            i < j < rewrite_order().len() && rewrite_order()[j] == Rewrite::SimplifyExpressions,
{
    assert(rewrite_order()[19] == Rewrite::SimplifyExpressions);
}

} // verus!
