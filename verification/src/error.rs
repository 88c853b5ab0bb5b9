//! The errors of planning.
use datafusion::common::DataFusionError;
use vstd::prelude::*;

verus! {

/// Why a statement cannot be planned.
#[derive(Debug)]
pub enum PlanError {
    /// The statement breaks a rule, which the text names.
    Plan(String),
    /// Two columns of a schema have this name.
    DuplicateField(String),
    /// An error with a description of what it prevented.
    Context(String, Box<PlanError>),
    /// An error of the query engine.
    Engine(DataFusionError),
}

/// What a [`PlanError`] says.
pub enum ErrorView {
    Plan(Seq<char>),
    DuplicateField(Seq<char>),
    Context(Seq<char>, Box<ErrorView>),
    Engine(DataFusionError),
}

impl PlanError {
    /// What the error says.
    pub open spec fn view(&self) -> ErrorView
        decreases self,
    {
        match self {
            PlanError::Plan(text) => ErrorView::Plan(text@),
            PlanError::DuplicateField(name) => ErrorView::DuplicateField(name@),
            PlanError::Context(text, cause) => ErrorView::Context(text@, Box::new(cause.view())),
            PlanError::Engine(error) => ErrorView::Engine(*error),
        }
    }

    /// An error with a fixed text.
    pub fn plan(text: &str) -> (error: PlanError)
        ensures
            error.view() == ErrorView::Plan(text@),
    {
        PlanError::Plan(text.to_owned())
    }

    /// An error whose text has `detail` at its end.
    pub fn plan_with(text: &str, detail: &str) -> (error: PlanError)
        ensures
            error.view() == ErrorView::Plan(text@ + detail@),
    {
        PlanError::Plan(crate::text::concat2(text, detail))
    }

    /// An error whose text has `detail` between `head` and `tail`.
    pub fn plan_around(head: &str, detail: &str, tail: &str) -> (error: PlanError)
        ensures
            error.view() == ErrorView::Plan(head@ + detail@ + tail@),
    {
        PlanError::Plan(crate::text::concat3(head, detail, tail))
    }

    /// The error with a description of what it prevented.
    pub fn context(self, description: String) -> (error: PlanError)
        ensures
            error.view() == ErrorView::Context(description@, Box::new(self.view())),
    {
        PlanError::Context(description, Box::new(self))
    }
}

} // verus!
