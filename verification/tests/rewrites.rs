use planner_tables::optimizer::{rewrites, Rewrite};

fn places(rewrite: Rewrite) -> Vec<usize> {
    let order = rewrites();
    (0..order.len()).filter(|i| order[*i] == rewrite).collect()
}

#[test]
fn the_rewrites_in_order() {
    let order = rewrites();
    assert_eq!(order.len(), 23);
    assert_eq!(order[0], Rewrite::EliminateNestedUnion);
    assert_eq!(order[22], Rewrite::EliminateGroupByConstant);
    assert_eq!(places(Rewrite::SimplifyExpressions), vec![1, 19]);
    assert_eq!(places(Rewrite::UnwrapCastInComparison), vec![2, 20]);
    assert_eq!(places(Rewrite::CommonSubexprEliminate), vec![11, 21]);
}

#[test]
fn unions_of_one_go_after_empty_relations() {
    assert_eq!(places(Rewrite::PropagateEmptyRelation), vec![13]);
    assert_eq!(places(Rewrite::EliminateOneUnion), vec![14]);
}

#[test]
fn filters_go_down_after_limits() {
    assert_eq!(places(Rewrite::PushDownLimit), vec![17]);
    assert_eq!(places(Rewrite::PushDownFilter), vec![18]);
}

#[test]
fn no_rewrite_drops_event_time() {
    assert!(places(Rewrite::OptimizeProjections).is_empty());
    assert!(places(Rewrite::SingleDistinctToGroupBy).is_empty());
}
