//! The tables that a query can read and write.
use datafusion::logical_expr::LogicalPlan;
use vstd::prelude::*;

use crate::connector_table::{
    ConnectorOp, ConnectorOpView, ConnectorTable, copy_columns, fields_of, spec_views,
};
use crate::error::{ErrorView, PlanError};
use crate::schema::{
    DFField, Field, FieldView, copy_fields, copy_unqualified, field_views, unqualified,
};

verus! {

/// A logical plan with the fields of its output.
#[derive(Debug, PartialEq, Eq)]
pub struct QueryPlan {
    pub plan: LogicalPlan,
    pub fields: Vec<Field>,
}

impl Clone for QueryPlan {
    fn clone(&self) -> (copy: QueryPlan)
        ensures
            copy.says_same(*self),
    {
        QueryPlan { plan: self.plan.clone(), fields: copy_fields(&self.fields) }
    }
}

/// A table.
#[allow(inconsistent_fields)]
#[derive(Debug, PartialEq, Eq)]
pub enum Table {
    /// A table of a connector that is only good for lookups.
    LookupTable(ConnectorTable),
    /// A table of a connector.
    ConnectorTable(ConnectorTable),
    /// A table that holds its rows in memory.
    MemoryTable { name: String, fields: Vec<Field>, logical_plan: Option<QueryPlan> },
    /// The result of a query under a name.
    TableFromQuery { name: String, logical_plan: QueryPlan },
    /// Where the results of a query go that are only looked at.
    PreviewSink { logical_plan: QueryPlan },
}

impl QueryPlan {
    /// Whether two plans are the same.
    pub open spec fn says_same(self, other: QueryPlan) -> bool {
        self.plan == other.plan && field_views(self.fields@) == field_views(other.fields@)
    }
}

impl Table {
    /// Whether two tables are the same.
    pub open spec fn says_same(self, other: Table) -> bool {
        match (self, other) {
            (Table::LookupTable(a), Table::LookupTable(b)) => a.view() == b.view(),
            (Table::ConnectorTable(a), Table::ConnectorTable(b)) => a.view() == b.view(),
            (
                Table::MemoryTable { name, fields, logical_plan },
                Table::MemoryTable { name: n, fields: f, logical_plan: p },
            ) => {
                &&& name@ == n@
                &&& field_views(fields@) == field_views(f@)
                &&& match (logical_plan, p) {
                    (Some(a), Some(b)) => a.says_same(b),
                    (None, None) => true,
                    _ => false,
                }
            },
            (
                Table::TableFromQuery { name, logical_plan },
                Table::TableFromQuery { name: n, logical_plan: p },
            ) => name@ == n@ && logical_plan.says_same(p),
            (
                Table::PreviewSink { logical_plan },
                Table::PreviewSink { logical_plan: p },
            ) => logical_plan.says_same(p),
            _ => false,
        }
    }
}

impl Clone for Table {
    fn clone(&self) -> (copy: Table)
        ensures
            copy.says_same(*self),
    {
        match self {
            Table::LookupTable(table) => Table::LookupTable(table.clone()),
            Table::ConnectorTable(table) => Table::ConnectorTable(table.clone()),
            Table::MemoryTable { name, fields, logical_plan } => Table::MemoryTable {
                name: name.clone(),
                fields: copy_fields(fields),
                logical_plan: match logical_plan {
                    Some(plan) => Some(plan.clone()),
                    None => None,
                },
            },
            Table::TableFromQuery { name, logical_plan } => Table::TableFromQuery {
                name: name.clone(),
                logical_plan: logical_plan.clone(),
            },
            Table::PreviewSink { logical_plan } => Table::PreviewSink {
                logical_plan: logical_plan.clone(),
            },
        }
    }
}

/// Whether two lists of output fields have the same names and types in the same
/// order.
pub open spec fn same_output(a: Seq<DFField>, b: Seq<DFField>) -> bool {
    &&& a.len() == b.len()
    &&& forall|i: int|
        0 <= i < a.len() ==> (#[trigger] a[i]).field.view().name == b[i].field.view().name
            && a[i].field.view().data_type.same_as(b[i].field.view().data_type)
}

/// Whether two lists of output fields have the same names and types in the same
/// order.
pub fn has_same_output(a: &Vec<DFField>, b: &Vec<DFField>) -> (same: bool)
    ensures
        same == same_output(a@, b@),
{
    if a.len() != b.len() {
        return false;
    }
    for i in 0..a.len()
        invariant
            a@.len() == b@.len(),
            forall|j: int|
                0 <= j < i ==> (#[trigger] a@[j]).field.view().name == b@[j].field.view().name
                    && a@[j].field.view().data_type.same_as(b@[j].field.view().data_type),
    {
        if !(a[i].field.name == b[i].field.name && a[i].field.data_type.same_type(
            &b[i].field.data_type,
        )) {
            proof {
                assert(a@[i as int].field.view().name != b@[i as int].field.view().name
                    || !a@[i as int].field.view().data_type.same_as(
                    b@[i as int].field.view().data_type,
                ));
            }
            return false;
        }
    }
    true
}

/// The error where two inserts into a table without columns differ.
pub open spec fn insert_schema_error() -> ErrorView {
    ErrorView::Plan("all inserts into a table must share the same schema"@)
}

impl Table {
    /// The name of the table.
    pub open spec fn table_name(self) -> Seq<char> {
        match self {
            Table::MemoryTable { name, .. } => name@,
            Table::TableFromQuery { name, .. } => name@,
            Table::ConnectorTable(table) => table.name@,
            Table::LookupTable(table) => table.name@,
            Table::PreviewSink { .. } => "preview"@,
        }
    }

    /// The fields of a row.
    pub open spec fn row_fields(self) -> Seq<FieldView> {
        match self {
            Table::MemoryTable { fields, .. } => field_views(fields@),
            Table::ConnectorTable(table) => connector_fields(table),
            Table::LookupTable(table) => connector_fields(table),
            Table::TableFromQuery { logical_plan, .. } => field_views(logical_plan.fields@),
            Table::PreviewSink { logical_plan } => field_views(logical_plan.fields@),
        }
    }

    /// Whether the columns of the table are taken from what is inserted.
    pub open spec fn takes_inferred_fields(self) -> bool {
        self matches Table::ConnectorTable(table) && table.fields@.len() == 0
    }

    /// Whether the fields contradict those of an earlier insert.
    pub open spec fn contradicts(self, fields: Seq<DFField>) -> bool {
        &&& self.takes_inferred_fields()
        &&& self->ConnectorTable_0.inferred_fields matches Some(existing) && !same_output(
            existing@,
            fields,
        )
    }

    /// The table after its columns have been taken from what is inserted.
    pub open spec fn with_inferred_fields(self, fields: Vec<DFField>) -> Table {
        if self.takes_inferred_fields() {
            Table::ConnectorTable(
                ConnectorTable { inferred_fields: Some(fields), ..self->ConnectorTable_0 },
            )
        } else {
            self
        }
    }

    /// The name of the table.
    pub fn name(&self) -> (name: &str)
        ensures
            name@ == self.table_name(),
    {
        match self {
            Table::MemoryTable { name, .. } | Table::TableFromQuery { name, .. } => name.as_str(),
            Table::ConnectorTable(table) | Table::LookupTable(table) => table.name.as_str(),
            Table::PreviewSink { .. } => "preview",
        }
    }

    /// Takes the columns of a connector table that defines none from what is
    /// inserted. All inserts have to agree.
    pub fn set_inferred_fields(&mut self, fields: Vec<DFField>) -> (done: Result<(), PlanError>)
        ensures
            match done {
                Ok(()) => {
                    &&& !old(self).contradicts(fields@)
                    &&& *final(self) == old(self).with_inferred_fields(fields)
                },
                Err(e) => {
                    &&& old(self).contradicts(fields@)
                    &&& e.view() == insert_schema_error()
                    &&& *final(self) == *old(self)
                },
            },
    {
        match self {
            Table::ConnectorTable(table) => {
                if table.fields.len() > 0 {
                    return Ok(());
                }
                let agrees = match &table.inferred_fields {
                    Some(existing) => has_same_output(existing, &fields),
                    None => true,
                };
                if !agrees {
                    return Err(
                        PlanError::plan("all inserts into a table must share the same schema"),
                    );
                }
                table.inferred_fields = Some(fields);
                Ok(())
            },
            _ => Ok(()),
        }
    }

    /// The fields of a row.
    pub fn get_fields(&self) -> (fields: Vec<Field>)
        ensures
            field_views(fields@) == self.row_fields(),
    {
        match self {
            Table::MemoryTable { fields, .. } => copy_fields(fields),
            Table::ConnectorTable(table) | Table::LookupTable(table) => {
                match &table.inferred_fields {
                    Some(fields) => copy_unqualified(fields),
                    None => copy_columns(&table.fields),
                }
            },
            Table::TableFromQuery { logical_plan, .. } => copy_fields(&logical_plan.fields),
            Table::PreviewSink { logical_plan } => copy_fields(&logical_plan.fields),
        }
    }

    /// What an operator that writes the table needs to know of its connector,
    /// or the error where the table cannot be written.
    pub open spec fn sink_op(self, default_sink: ConnectorOpView) -> Result<
        ConnectorOpView,
        ErrorView,
    > {
        match self {
            Table::ConnectorTable(table) => Ok(table.view().connector_op()),
            Table::LookupTable(table) => Ok(table.view().connector_op()),
            Table::MemoryTable { .. } => Err(ErrorView::Plan("can't write to a memory table"@)),
            _ => Ok(default_sink),
        }
    }

    /// What an operator that writes the table needs to know of its connector.
    /// Previews go to the default sink; the result of a query is not written.
    pub fn connector_op(&self, default_sink: ConnectorOp) -> (op: Result<ConnectorOp, PlanError>)
        requires
            !(self is TableFromQuery),
        ensures
            match op {
                Ok(op) => self.sink_op(default_sink.view()) == Ok::<ConnectorOpView, ErrorView>(
                    op.view(),
                ),
                Err(e) => self.sink_op(default_sink.view()) == Err::<ConnectorOpView, ErrorView>(
                    e.view(),
                ),
            },
    {
        match self {
            Table::ConnectorTable(table) | Table::LookupTable(table) => Ok(table.connector_op()),
            Table::MemoryTable { .. } => Err(PlanError::plan("can't write to a memory table")),
            _ => Ok(default_sink),
        }
    }
}

/// The fields of a row of a connector's table: those that were inferred, where
/// there are any, else its columns.
pub open spec fn connector_fields(table: ConnectorTable) -> Seq<FieldView> {
    match table.inferred_fields {
        Some(fields) => unqualified(fields@),
        None => fields_of(spec_views(table.fields@)),
    }
}

} // verus!
