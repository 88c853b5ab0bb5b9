//! Which expressions define metadata columns.
use vstd::prelude::*;

use crate::error::PlanError;
use crate::laws::terms::breaks_rule;
use crate::metadata::{ExprHead, ExprTree, MetadataFinder, TreeNodeRecursion, find_metadata_key};

verus! {

/// Whether the expression is a call of the function `metadata`.
pub open spec fn calls_metadata(tree: ExprTree) -> bool {
    tree.head matches ExprHead::ScalarFunction(name) && name@ == "metadata"@
}

/// Whether the way down, from child to child, leads to a call of `metadata`.
pub open spec fn leads_to_metadata(tree: ExprTree, way: Seq<int>) -> bool
    decreases way.len(),
{
    if way.len() == 0 {
        calls_metadata(tree)
    } else {
        &&& 0 <= way[0] < tree.children@.len()
        &&& leads_to_metadata(tree.children@[way[0]], way.drop_first())
    }
}

/// Whether there is a call of `metadata` anywhere in the expression.
pub open spec fn holds_metadata(tree: ExprTree) -> bool {
    exists|way: Seq<int>| leads_to_metadata(tree, way)
}

pub(crate) proof fn lemma_holds_metadata(tree: ExprTree)
    ensures
        tree.mentions_metadata() == holds_metadata(tree),
        tree.is_metadata_call() == calls_metadata(tree),
    decreases tree,
{
    if holds_metadata(tree) {
        let way = choose|way: Seq<int>| leads_to_metadata(tree, way);
        if way.len() > 0 {
            let child = tree.children@[way[0]];
            assert(holds_metadata(child)) by {
                assert(leads_to_metadata(child, way.drop_first()));
            }
            lemma_holds_metadata(child);
        }
    }
    if tree.mentions_metadata() {
        if calls_metadata(tree) {
            assert(leads_to_metadata(tree, Seq::empty()));
        } else {
            let i = choose|i: int|
                0 <= i < tree.children@.len() && (
                #[trigger] tree.children@[i]).mentions_metadata();
            lemma_holds_metadata(tree.children@[i]);
            let below = choose|way: Seq<int>| leads_to_metadata(tree.children@[i], way);
            let way = seq![i] + below;
            assert(way.drop_first() =~= below);
            assert(leads_to_metadata(tree, way));
        }
    }
}

/// Whether the error tells what is wrong with an expression that holds calls of
/// `metadata`.
pub open spec fn is_metadata_refusal(tree: ExprTree, error: PlanError) -> bool {
    if !calls_metadata(tree) {
        breaks_rule(error, "Metadata columns must have only a single call to 'metadata'"@)
    } else if tree.children@.len() != 1 {
        breaks_rule(error, "For metadata columns, metadata call must have a single argument"@)
    } else {
        breaks_rule(
            error,
            "For metadata columns, metadata call must have a literal string argument"@,
        )
    }
}

/// An expression names a key exactly if it is a call of `metadata` with one
/// string literal; it has none exactly if `metadata` is called nowhere in it; and
/// every other expression is refused for what is wrong with it.
pub proof fn metadata_key_of_expression(
    tree: ExprTree,
    found: Result<Option<String>, PlanError>,
)
    requires
        call_ensures(find_metadata_key, (&tree,), found),
    ensures
        (found matches Ok(None)) <==> !holds_metadata(tree),
        found matches Ok(Some(key)) ==> {
            &&& calls_metadata(tree)
            &&& tree.children@.len() == 1
            &&& tree.children@[0].head matches ExprHead::StringLiteral(text)
            &&& text@ == key@
        },
        calls_metadata(tree) && tree.children@.len() == 1
            && tree.children@[0].head is StringLiteral ==> found is Ok,
        found matches Err(error) ==> is_metadata_refusal(tree, error),
{
    lemma_holds_metadata(tree);
}

/// Entering a node goes one deeper, unless it is a call of `metadata`: then the
/// walk ends, with the key if this is the root and has one literal.
pub proof fn entering_a_node(
    finder: &mut MetadataFinder,
    node: ExprTree,
    next: Result<TreeNodeRecursion, PlanError>,
)
    requires
        old(finder).depth < usize::MAX,
        call_ensures(MetadataFinder::f_down, (finder, &node), next),
    ensures
        !calls_metadata(node) ==> {
            &&& next == Ok::<TreeNodeRecursion, PlanError>(TreeNodeRecursion::Continue)
            &&& final(finder).depth == old(finder).depth + 1
            &&& final(finder).key == old(finder).key
        },
        calls_metadata(node) && old(finder).depth > 0 ==> (next matches Err(error) && breaks_rule(
            error,
            "Metadata columns must have only a single call to 'metadata'"@,
        )),
        calls_metadata(node) && old(finder).depth == 0 ==> match next {
            Ok(next) => {
                &&& next is Stop
                &&& node.children@.len() == 1
                &&& node.children@[0].head matches ExprHead::StringLiteral(text)
                &&& final(finder).key matches Some(key)
                &&& key@ == text@
            },
            Err(_) => node.children@.len() != 1 || !(node.children@[0].head is StringLiteral),
        },
{
    lemma_holds_metadata(node);
}

} // verus!
