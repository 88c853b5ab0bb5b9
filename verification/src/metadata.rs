//! Recognising the columns that hold metadata of a message.
use vstd::prelude::*;

use crate::error::{ErrorView, PlanError};
use crate::text::{is_text, spelled_option};

verus! {

/// What an expression is at its root.
#[derive(Debug, PartialEq, Eq)]
pub enum ExprHead {
    /// A call of the scalar function with this name; its arguments are the
    /// children.
    ScalarFunction(String),
    /// A string literal that is not `NULL`.
    StringLiteral(String),
    /// Anything else.
    Other,
}

/// An expression with its subexpressions in order.
#[derive(Debug, PartialEq, Eq)]
pub struct ExprTree {
    pub head: ExprHead,
    pub children: Vec<ExprTree>,
}

/// Whether a walk over an expression goes on.
#[derive(Debug, Clone, Copy, PartialEq, Eq, Structural)]
pub enum TreeNodeRecursion {
    Continue,
    Stop,
}

/// Looks for the call of `metadata` that makes a column a metadata column.
#[derive(Debug)]
pub struct MetadataFinder {
    /// The key that the call names.
    pub key: Option<String>,
    /// The number of nodes that enclose the next one.
    pub depth: usize,
}

pub open spec fn one_call_error() -> ErrorView {
    ErrorView::Plan("Metadata columns must have only a single call to 'metadata'"@)
}

pub open spec fn literal_argument_error() -> ErrorView {
    ErrorView::Plan("For metadata columns, metadata call must have a literal string argument"@)
}

pub open spec fn one_argument_error() -> ErrorView {
    ErrorView::Plan("For metadata columns, metadata call must have a single argument"@)
}

impl ExprTree {
    /// Whether the expression is a call of `metadata`.
    pub open spec fn is_metadata_call(self) -> bool {
        self.head matches ExprHead::ScalarFunction(name) && name@ == "metadata"@
    }

    /// Whether a call of `metadata` occurs in the expression, at its root or
    /// below.
    pub open spec fn mentions_metadata(self) -> bool
        decreases self,
    {
        self.is_metadata_call() || exists|i: int|
            0 <= i < self.children@.len() && (#[trigger] self.children@[i]).mentions_metadata()
    }

    /// The number of nodes on the longest way down from the root.
    pub open spec fn height(self) -> nat
        decreases self,
    {
        1 + max_height(self.children@, self.children@.len() as int)
    }

    /// The key of the metadata column that the expression defines, where it
    /// defines one.
    pub open spec fn metadata_key(self) -> Result<Option<Seq<char>>, ErrorView> {
        if self.is_metadata_call() {
            if self.children@.len() != 1 {
                Err(one_argument_error())
            } else {
                match self.children@[0].head {
                    ExprHead::StringLiteral(key) => Ok(Some(key@)),
                    _ => Err(literal_argument_error()),
                }
            }
        } else if self.mentions_metadata() {
            Err(one_call_error())
        } else {
            Ok(None)
        }
    }
}

/// The largest height among the first `n` trees.
pub open spec fn max_height(trees: Seq<ExprTree>, n: int) -> nat
    decreases trees, n,
{
    if n <= 0 || n > trees.len() {
        0
    } else {
        let rest = max_height(trees, n - 1);
        let last = trees[n - 1].height();
        if rest < last {
            last
        } else {
            rest
        }
    }
}

/// Each of the first `n` trees is at most as high as the highest of them.
proof fn lemma_max_height(trees: Seq<ExprTree>, n: int, i: int)
    requires
        0 <= i < n <= trees.len(),
    ensures
        trees[i].height() <= max_height(trees, n),
    decreases n,
{
    if i < n - 1 {
        lemma_max_height(trees, n - 1, i);
    }
}

impl MetadataFinder {
    /// A finder that has seen nothing.
    pub fn new() -> (finder: MetadataFinder)
        ensures
            finder.key is None,
            finder.depth == 0,
    {
        MetadataFinder { key: None, depth: 0 }
    }

    /// Enters a node.
    pub fn f_down(&mut self, node: &ExprTree) -> (next: Result<TreeNodeRecursion, PlanError>)
        requires
            !node.is_metadata_call() ==> old(self).depth < usize::MAX,
        ensures
            match next {
                Ok(TreeNodeRecursion::Stop) => {
                    &&& old(self).depth == 0
                    &&& node.is_metadata_call()
                    &&& node.metadata_key() == Ok::<Option<Seq<char>>, ErrorView>(
                        spelled_option(final(self).key),
                    )
                    &&& final(self).depth == old(self).depth
                },
                Ok(TreeNodeRecursion::Continue) => {
                    &&& !node.is_metadata_call()
                    &&& final(self).key == old(self).key
                    &&& final(self).depth == old(self).depth + 1
                },
                Err(e) => {
                    &&& node.is_metadata_call()
                    &&& old(self).depth > 0 ==> e.view() == one_call_error()
                    &&& old(self).depth == 0 ==> node.metadata_key() == Err::<
                        Option<Seq<char>>,
                        ErrorView,
                    >(e.view())
                    &&& *final(self) == *old(self)
                },
            },
            old(self).depth == 0 && node.metadata_key() is Ok && node.is_metadata_call() ==> next
                == Ok::<TreeNodeRecursion, PlanError>(TreeNodeRecursion::Stop),
    {
        if let ExprHead::ScalarFunction(name) = &node.head {
            if is_text(name, "metadata") {
                if self.depth > 0 {
                    return Err(
                        PlanError::plan("Metadata columns must have only a single call to 'metadata'"),
                    );
                }
                if node.children.len() != 1 {
                    return Err(
                        PlanError::plan(
                            "For metadata columns, metadata call must have a single argument",
                        ),
                    );
                }
                return match &node.children[0].head {
                    ExprHead::StringLiteral(key) => {
                        self.key = Some(key.clone());
                        Ok(TreeNodeRecursion::Stop)
                    },
                    _ => Err(
                        PlanError::plan(
                            "For metadata columns, metadata call must have a literal string argument",
                        ),
                    ),
                };
            }
        }
        self.depth = self.depth + 1;
        Ok(TreeNodeRecursion::Continue)
    }

    /// Leaves a node.
    pub fn f_up(&mut self) -> (next: TreeNodeRecursion)
        requires
            old(self).depth > 0,
        ensures
            next == TreeNodeRecursion::Continue,
            final(self).depth == old(self).depth - 1,
            final(self).key == old(self).key,
    {
        self.depth = self.depth - 1;
        TreeNodeRecursion::Continue
    }

    /// Walks over an expression: enters the node, then walks over its children
    /// in order, then leaves the node, until the walk is stopped.
    pub fn visit(&mut self, tree: &ExprTree) -> (next: Result<TreeNodeRecursion, PlanError>)
        requires
            old(self).depth + tree.height() <= usize::MAX,
        ensures
            match next {
                Ok(TreeNodeRecursion::Stop) => {
                    &&& old(self).depth == 0
                    &&& tree.is_metadata_call()
                    &&& tree.metadata_key() == Ok::<Option<Seq<char>>, ErrorView>(
                        spelled_option(final(self).key),
                    )
                    &&& final(self).depth == old(self).depth
                },
                Ok(TreeNodeRecursion::Continue) => {
                    &&& !tree.mentions_metadata()
                    &&& *final(self) == *old(self)
                },
                Err(e) => {
                    &&& tree.mentions_metadata()
                    &&& final(self).key == old(self).key
                    &&& old(self).depth > 0 ==> e.view() == one_call_error()
                    &&& old(self).depth == 0 ==> tree.metadata_key() == Err::<
                        Option<Seq<char>>,
                        ErrorView,
                    >(e.view())
                },
            },
        decreases tree,
    {
        let ghost start = *self;
        match self.f_down(tree) {
            Err(e) => Err(e),
            Ok(TreeNodeRecursion::Stop) => Ok(TreeNodeRecursion::Stop),
            Ok(TreeNodeRecursion::Continue) => {
                let mut i: usize = 0;
                while i < tree.children.len()
                    invariant
                        i <= tree.children@.len(),
                        self.depth == start.depth + 1,
                        self.key == start.key,
                        start.depth + tree.height() <= usize::MAX,
                        !tree.is_metadata_call(),
                        start == *old(self),
                        forall|j: int|
                            0 <= j < i ==> !(#[trigger] tree.children@[j]).mentions_metadata(),
                    decreases tree.children@.len() - i,
                {
                    proof {
                        lemma_max_height(
                            tree.children@,
                            tree.children@.len() as int,
                            i as int,
                        );
                    }
                    match self.visit(&tree.children[i]) {
                        Err(e) => {
                            return Err(e);
                        },
                        Ok(TreeNodeRecursion::Stop) => {
                            return Ok(TreeNodeRecursion::Stop);
                        },
                        Ok(TreeNodeRecursion::Continue) => {},
                    }
                    i = i + 1;
                }
                Ok(self.f_up())
            },
        }
    }
}

/// The key of the metadata column that the expression defines, where it
/// defines one.
pub fn find_metadata_key(tree: &ExprTree) -> (found: Result<Option<String>, PlanError>)
    requires
        tree.height() <= usize::MAX,
    ensures
        match found {
            Ok(key) => tree.metadata_key() == Ok::<Option<Seq<char>>, ErrorView>(
                spelled_option(key),
            ),
            Err(e) => tree.metadata_key() == Err::<Option<Seq<char>>, ErrorView>(e.view()),
        },
{
    let mut finder = MetadataFinder::new();
    match finder.visit(tree) {
        Ok(_) => Ok(finder.key),
        Err(e) => Err(e),
    }
}

} // verus!
