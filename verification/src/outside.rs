//! Values of the query engine that the planner carries without looking inside.
use vstd::prelude::*;

verus! {

/// A node of a logical query plan.
#[verifier::external_type_specification]
#[verifier::external_body]
pub struct ExLogicalPlan(datafusion::logical_expr::LogicalPlan);

/// An expression of a logical query plan.
#[verifier::external_type_specification]
#[verifier::external_body]
pub struct ExExpr(datafusion::logical_expr::Expr);

/// An error that the query engine reports.
#[verifier::external_type_specification]
#[verifier::external_body]
pub struct ExDataFusionError(datafusion::common::DataFusionError);

/// `<datafusion::logical_expr::Expr as Clone>::clone`: the copy is the same
/// expression.
pub assume_specification[ <datafusion::logical_expr::Expr as Clone>::clone ](
    expr: &datafusion::logical_expr::Expr,
) -> (copy: datafusion::logical_expr::Expr)
    ensures
        copy == *expr,
;

/// `<datafusion::logical_expr::LogicalPlan as Clone>::clone`: the copy is the
/// same plan.
pub assume_specification[ <datafusion::logical_expr::LogicalPlan as Clone>::clone ](
    plan: &datafusion::logical_expr::LogicalPlan,
) -> (copy: datafusion::logical_expr::LogicalPlan)
    ensures
        copy == *plan,
;

/// What `datafusion::logical_expr::Expr::Column` is for the column that
/// `datafusion::common::Column::from_name` makes of a name.
pub uninterp spec fn column_named(name: Seq<char>) -> datafusion::logical_expr::Expr;

/// `datafusion::common::Column::from_name`: the expression reads the column with
/// that name of whatever relation, and is named by [`column_named`].
#[verifier::external_body]
pub(crate) fn read_column(name: &String) -> (expr: datafusion::logical_expr::Expr)
    ensures
        expr == column_named(name@),
{
    datafusion::logical_expr::Expr::Column(datafusion::common::Column::from_name(name))
}

} // verus!
