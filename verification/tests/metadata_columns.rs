use planner_tables::error::PlanError;
use planner_tables::metadata::{
    find_metadata_key, ExprHead, ExprTree, MetadataFinder, TreeNodeRecursion,
};

fn call(name: &str, children: Vec<ExprTree>) -> ExprTree {
    ExprTree { head: ExprHead::ScalarFunction(name.to_string()), children }
}

fn text(value: &str) -> ExprTree {
    ExprTree { head: ExprHead::StringLiteral(value.to_string()), children: vec![] }
}

fn column() -> ExprTree {
    ExprTree { head: ExprHead::Other, children: vec![] }
}

fn refusal_of(tree: &ExprTree) -> String {
    match find_metadata_key(tree) {
        Err(PlanError::Plan(message)) => message,
        other => panic!("not refused: {:?}", other),
    }
}

#[test]
fn a_call_of_metadata_names_its_key() {
    let found = find_metadata_key(&call("metadata", vec![text("offset_id")]));
    assert_eq!(found.ok(), Some(Some("offset_id".to_string())));
}

#[test]
fn an_expression_without_metadata_has_no_key() {
    assert_eq!(find_metadata_key(&column()).ok(), Some(None));
    assert_eq!(find_metadata_key(&text("metadata")).ok(), Some(None));
    let nested = call("concat", vec![column(), call("lower", vec![text("a")])]);
    assert_eq!(find_metadata_key(&nested).ok(), Some(None));
}

#[test]
fn metadata_below_the_root_is_refused() {
    let message = "Metadata columns must have only a single call to 'metadata'";
    let nested = call("concat", vec![text("a"), call("metadata", vec![text("k")])]);
    assert_eq!(refusal_of(&nested), message);
    let deep = ExprTree {
        head: ExprHead::Other,
        children: vec![column(), call("lower", vec![call("metadata", vec![])])],
    };
    assert_eq!(refusal_of(&deep), message);
}

#[test]
fn metadata_takes_one_argument() {
    let message = "For metadata columns, metadata call must have a single argument";
    assert_eq!(refusal_of(&call("metadata", vec![])), message);
    assert_eq!(refusal_of(&call("metadata", vec![text("a"), text("b")])), message);
}

#[test]
fn metadata_takes_a_literal() {
    let message = "For metadata columns, metadata call must have a literal string argument";
    assert_eq!(refusal_of(&call("metadata", vec![column()])), message);
    let nested = call("metadata", vec![call("metadata", vec![text("k")])]);
    assert_eq!(refusal_of(&nested), message);
}

#[test]
fn a_walk_leaves_what_it_entered() {
    let mut finder = MetadataFinder::new();
    let tree = call("concat", vec![column(), call("lower", vec![text("a")])]);
    assert_eq!(finder.visit(&tree).ok(), Some(TreeNodeRecursion::Continue));
    assert_eq!(finder.depth, 0);
    assert!(finder.key.is_none());
    assert_eq!(finder.f_down(&column()).ok(), Some(TreeNodeRecursion::Continue));
    assert_eq!(finder.depth, 1);
    assert_eq!(finder.f_up(), TreeNodeRecursion::Continue);
    assert_eq!(finder.depth, 0);
    let metadata = call("metadata", vec![text("k")]);
    assert_eq!(finder.visit(&metadata).ok(), Some(TreeNodeRecursion::Stop));
    assert_eq!(finder.key, Some("k".to_string()));
}
