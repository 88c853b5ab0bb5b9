//! Working out the columns of a table, with the query engine planning the
//! expressions that generate columns.
use datafusion::common::DataFusionError;
use datafusion::logical_expr::Expr;
use vstd::prelude::*;

use crate::columns::{
    ColumnDef, DeclaredColumn, DeclaredColumnView, check_field_names, copy_names, declare_columns,
    declared_columns, declared_views, field_names, first_repeat, first_unsupported,
    physical_columns, physical_fields,
};
use crate::connector_table::{FieldSpec, FieldSpecView, spec_views};
use crate::error::{ErrorView, PlanError};
use crate::metadata::{ExprTree, find_metadata_key};
use crate::schema::{Field, TableReference, copy_fields, field_views};
use crate::table::{QueryPlan, Table};
use crate::table_catalog::{TableCatalog, same_entry};
use crate::text::concat3;

verus! {

/// A planned expression, and what its parts are.
#[derive(Debug)]
pub struct PlannedExpr {
    pub expression: Expr,
    pub tree: ExprTree,
}

/// What a planned statement does.
#[derive(Debug)]
pub enum PlanKind {
    /// Computes these expressions.
    Projection(Vec<PlannedExpr>),
    CreateView { name: TableReference, input: QueryPlan },
    CreateMemoryTable { name: TableReference, input: QueryPlan },
    /// Inserts the rows of the input.
    Insert { table_name: TableReference, input: QueryPlan },
    /// Anything else.
    Other,
}

/// A statement as the query engine has planned it.
#[derive(Debug)]
pub struct PlannedStatement {
    pub plan: QueryPlan,
    pub kind: PlanKind,
}

/// A query that computes one expression over a table.
#[derive(Debug)]
pub struct GeneratingQuery {
    /// The statement.
    pub sql: String,
    /// The table that the statement reads.
    pub table: Table,
}

/// The statement that computes an expression over a table.
pub open spec fn generating_sql(expr: Seq<char>, name: Seq<char>) -> Seq<char> {
    "SELECT "@ + expr + " from "@ + name
}

impl GeneratingQuery {
    /// Whether the query computes the expression over a table with the name and
    /// the fields.
    pub open spec fn computes(
        self,
        expr: Seq<char>,
        name: Seq<char>,
        fields: Seq<crate::schema::FieldView>,
    ) -> bool {
        &&& self.sql@ == generating_sql(expr, name)
        &&& self.table matches Table::MemoryTable { name: table_name, fields: table_fields, .. }
            && table_name@ == name && field_views(table_fields@) == fields
        &&& self.table->MemoryTable_logical_plan is None
    }

    /// Whether `bound` is the catalog with the query's own table under the key,
    /// in place of any other one.
    pub open spec fn binds(self, key: Seq<char>, catalog: TableCatalog, bound: TableCatalog) -> bool {
        &&& bound.table(key) == Some(self.table)
        &&& bound.same_tables_but(catalog, key)
    }

    /// The catalog in which the query is planned: the query's own table shadows
    /// one that is filed under the same key.
    pub fn within(self, key: String, catalog: &TableCatalog) -> (bound: TableCatalog)
        ensures
            self.binds(key@, *catalog, bound),
    {
        let mut bound = catalog.clone();
        let ghost copy = bound;
        bound.insert_table(key, self.table);
        proof {
            assert forall|k: Seq<char>| k != key@ implies #[trigger] same_entry(
                bound.table(k),
                catalog.table(k),
            ) by {
                assert(same_entry(copy.table(k), catalog.table(k)));
            }
        }
        bound
    }
}

/// The query that computes an expression over a table with the fields.
pub fn plan_generating_expr(expr: &String, name: &String, fields: &Vec<Field>) -> (query:
    GeneratingQuery)
    ensures
        query.computes(expr@, name@, field_views(fields@)),
{
    let head = concat3("SELECT ", expr.as_str(), " from ");
    GeneratingQuery {
        sql: crate::text::concat2(head.as_str(), name.as_str()),
        table: Table::MemoryTable {
            name: name.clone(),
            fields: copy_fields(fields),
            logical_plan: None,
        },
    }
}

impl PlannedStatement {
    /// Whether the statement computes at least one expression.
    pub open spec fn computes_expression(self) -> bool {
        self.kind matches PlanKind::Projection(exprs) && exprs@.len() > 0
    }

    /// The first expression that the statement computes.
    pub open spec fn first_expression(self) -> PlannedExpr {
        self.kind->Projection_0@[0]
    }
}

/// The first expression that a statement computes.
pub fn generated_expression(plan: PlannedStatement) -> (expr: PlannedExpr)
    requires
        plan.computes_expression(),
    ensures
        expr == plan.first_expression(),
{
    match plan.kind {
        PlanKind::Projection(exprs) => {
            let mut exprs = exprs;
            exprs.swap_remove(0)
        },
        _ => {
            proof {
                assert(false);
            }
            vstd::pervasive::unreached()
        },
    }
}

/// The columns of a table while the expressions that generate some of them are
/// being planned.
#[derive(Debug)]
pub struct SchemaDraft {
    table_name: String,
    columns: Vec<DeclaredColumn>,
    physical: Vec<Field>,
    specs: Vec<FieldSpec>,
}

/// What becomes of a column that no expression generates.
pub open spec fn plain_spec(column: DeclaredColumnView) -> FieldSpecView {
    FieldSpecView::Struct(column.field)
}

/// What becomes of a column that an expression generates: it holds metadata
/// where the expression names a key, else it is computed.
pub open spec fn generated_spec(
    column: DeclaredColumnView,
    key: Option<Seq<char>>,
    expression: Expr,
) -> FieldSpecView {
    match key {
        Some(key) => FieldSpecView::Metadata { field: column.field, key },
        None => FieldSpecView::Virtual { field: column.field, expression },
    }
}

/// The settled columns with those that follow up to the next generated one.
pub open spec fn filled(
    columns: Seq<DeclaredColumnView>,
    settled: Seq<FieldSpecView>,
) -> Seq<FieldSpecView>
    decreases columns.len() - settled.len(),
{
    if settled.len() < columns.len() && columns[settled.len() as int].generation_expr is None {
        filled(columns, settled.push(plain_spec(columns[settled.len() as int])))
    } else {
        settled
    }
}

/// Whether a settled column is what becomes of its declaration, whatever was
/// planned.
pub open spec fn settles(spec: FieldSpecView, column: DeclaredColumnView) -> bool {
    &&& spec.field() == column.field
    &&& spec is Struct <==> column.generation_expr is None
}

/// Whether each settled column is what becomes of its declaration, and all are
/// settled up to the next generated one.
pub open spec fn is_draft(
    columns: Seq<DeclaredColumnView>,
    settled: Seq<FieldSpecView>,
) -> bool {
    &&& settled.len() <= columns.len()
    &&& forall|i: int| 0 <= i < settled.len() ==> settles(#[trigger] settled[i], columns[i])
    &&& settled.len() < columns.len() ==> columns[settled.len() as int].generation_expr is Some
}

impl SchemaDraft {
    /// The name of the table.
    pub closed spec fn table(self) -> Seq<char> {
        self.table_name@
    }

    /// The declared columns.
    pub closed spec fn declared(self) -> Seq<DeclaredColumnView> {
        declared_views(self.columns@)
    }

    /// The columns that are settled: the first ones.
    pub closed spec fn settled(self) -> Seq<FieldSpecView> {
        spec_views(self.specs@)
    }

    /// Whether every column is settled.
    pub open spec fn complete(self) -> bool {
        self.settled().len() == self.declared().len()
    }

    #[verifier::type_invariant]
    spec fn valid(self) -> bool {
        &&& is_draft(self.declared(), self.settled())
        &&& field_views(self.physical@) == physical_columns(self.declared())
    }
}

/// Settles the columns up to the next generated one.
fn fill(columns: &Vec<DeclaredColumn>, specs: Vec<FieldSpec>) -> (filled_specs: Vec<FieldSpec>)
    requires
        specs@.len() <= columns@.len(),
        forall|i: int|
            0 <= i < specs@.len() ==> settles(
                #[trigger] spec_views(specs@)[i],
                declared_views(columns@)[i],
            ),
    ensures
        spec_views(filled_specs@) == filled(declared_views(columns@), spec_views(specs@)),
        is_draft(declared_views(columns@), spec_views(filled_specs@)),
{
    let ghost views = declared_views(columns@);
    let ghost goal = filled(views, spec_views(specs@));
    let mut specs = specs;
    while specs.len() < columns.len() && columns[specs.len()].generation_expr.is_none()
        invariant
            views == declared_views(columns@),
            specs@.len() <= columns@.len(),
            forall|i: int|
                0 <= i < specs@.len() ==> settles(#[trigger] spec_views(specs@)[i], views[i]),
            filled(views, spec_views(specs@)) == goal,
        decreases columns@.len() - specs@.len(),
    {
        let i: usize = specs.len();
        let ghost before = spec_views(specs@);
        specs.push(FieldSpec::Struct(columns[i].field.clone()));
        proof {
            assert(spec_views(specs@) =~= before.push(plain_spec(views[i as int])));
            assert forall|j: int| 0 <= j < specs@.len() implies settles(
                #[trigger] spec_views(specs@)[j],
                views[j],
            ) by {
                if j < i {
                    assert(settles(before[j], views[j]));
                }
            }
        }
    }
    proof {
        if specs@.len() < columns@.len() {
            assert(views[specs@.len() as int].generation_expr is Some);
        }
    }
    specs
}

/// Whether the error is the one of the first column whose type is not supported.
pub open spec fn is_type_error(columns: Seq<ColumnDef>, error: ErrorView) -> bool {
    exists|i: int|
        #[trigger] first_unsupported(columns, i) && error == ErrorView::Engine(
            columns[i].column_type->Err_0,
        )
}

/// Whether the error is the one of the first name that repeats an earlier one.
pub open spec fn is_name_error(names: Seq<Seq<char>>, error: ErrorView) -> bool {
    exists|i: int|
        #[trigger] first_repeat(names, i) && error == ErrorView::DuplicateField(names[i])
}

/// Whether each type is supported.
pub open spec fn all_supported(columns: Seq<ColumnDef>) -> bool {
    forall|i: int| 0 <= i < columns.len() ==> (#[trigger] columns[i]).column_type is Ok
}

impl Table {
    /// Starts to work out the columns of a table. The types have to be
    /// supported, and the columns that no expression generates need different
    /// names.
    pub fn schema_from_columns(table_name: String, columns: Vec<ColumnDef>) -> (draft: Result<
        SchemaDraft,
        PlanError,
    >)
        ensures
            match draft {
                Ok(draft) => {
                    &&& all_supported(columns@)
                    &&& field_names(
                        physical_columns(declared_columns(columns@)),
                    ).no_duplicates()
                    &&& draft.table() == table_name@
                    &&& draft.declared() == declared_columns(columns@)
                    &&& draft.settled() == filled(
                        declared_columns(columns@),
                        Seq::<FieldSpecView>::empty(),
                    )
                    &&& is_draft(draft.declared(), draft.settled())
                },
                Err(e) => {
                    ||| is_type_error(columns@, e.view())
                    ||| all_supported(columns@) && is_name_error(
                        field_names(physical_columns(declared_columns(columns@))),
                        e.view(),
                    )
                },
            },
    {
        let columns = match declare_columns(columns) {
            Ok(columns) => columns,
            Err(e) => {
                return Err(e);
            },
        };
        let physical = physical_fields(&columns);
        let names = copy_names(&physical);
        match check_field_names(&names) {
            Ok(()) => {},
            Err(name) => {
                return Err(PlanError::DuplicateField(name));
            },
        }
        let specs: Vec<FieldSpec> = Vec::new();
        proof {
            assert(spec_views(specs@) =~= Seq::<FieldSpecView>::empty());
        }
        let specs = fill(&columns, specs);
        Ok(SchemaDraft { table_name, columns, physical, specs })
    }
}

impl SchemaDraft {
    /// The query that computes the next generated column, where there is one,
    /// over a table of the columns that no expression generates.
    pub fn next_query(&self) -> (query: Option<GeneratingQuery>)
        ensures
            is_draft(self.declared(), self.settled()),
            match query {
                Some(query) => {
                    &&& !self.complete()
                    &&& query.computes(
                        self.declared()[self.settled().len() as int].generation_expr->0,
                        self.table(),
                        physical_columns(self.declared()),
                    )
                },
                None => self.complete(),
            },
    {
        proof {
            use_type_invariant(self);
        }
        let i: usize = self.specs.len();
        if i == self.columns.len() {
            return None;
        }
        proof {
            assert(self.declared()[i as int] == self.columns@[i as int].view());
        }
        match &self.columns[i].generation_expr {
            Some(expr) => Some(plan_generating_expr(expr, &self.table_name, &self.physical)),
            None => None,
        }
    }

    /// Whether `draft` is what becomes of this one once the plan of the next
    /// generated column is known.
    pub open spec fn accepts(
        self,
        plan: PlannedStatement,
        draft: Result<SchemaDraft, PlanError>,
    ) -> bool {
        match draft {
            Ok(draft) => {
                &&& plan.first_expression().tree.metadata_key() is Ok
                &&& draft.table() == self.table()
                &&& draft.declared() == self.declared()
                &&& draft.settled() == filled(
                    self.declared(),
                    self.settled().push(
                        generated_spec(
                            self.declared()[self.settled().len() as int],
                            plan.first_expression().tree.metadata_key()->Ok_0,
                            plan.first_expression().expression,
                        ),
                    ),
                )
                &&& is_draft(draft.declared(), draft.settled())
            },
            Err(e) => plan.first_expression().tree.metadata_key() == Err::<
                Option<Seq<char>>,
                ErrorView,
            >(e.view()),
        }
    }

    /// Settles the next generated column by the plan of its query, and the
    /// columns after it up to the next generated one.
    pub fn accept(self, plan: PlannedStatement) -> (draft: Result<SchemaDraft, PlanError>)
        requires
            !self.complete(),
            plan.computes_expression(),
            plan.first_expression().tree.height() <= usize::MAX,
        ensures
            self.accepts(plan, draft),
    {
        proof {
            use_type_invariant(&self);
        }
        let ghost declared = self.declared();
        let ghost settled = self.settled();
        let expr = generated_expression(plan);
        let key = match find_metadata_key(&expr.tree) {
            Ok(key) => key,
            Err(e) => {
                return Err(e);
            },
        };
        let SchemaDraft { table_name, columns, physical, specs } = self;
        let i: usize = specs.len();
        let field = columns[i].field.clone();
        let mut specs = specs;
        let spec = match key {
            Some(key) => FieldSpec::Metadata { field, key },
            None => FieldSpec::Virtual { field, expression: expr.expression },
        };
        let ghost added = spec.view();
        specs.push(spec);
        proof {
            assert(declared[i as int] == columns@[i as int].view());
            assert(spec_views(specs@) =~= settled.push(added));
            assert forall|j: int| 0 <= j < specs@.len() implies settles(
                #[trigger] spec_views(specs@)[j],
                declared[j],
            ) by {
                if j < i {
                    assert(settles(settled[j], declared[j]));
                }
            }
        }
        let specs = fill(&columns, specs);
        Ok(SchemaDraft { table_name, columns, physical, specs })
    }

    /// Goes on with what came of planning the query of the next generated
    /// column. An error of the query engine ends the work.
    pub fn resume(self, planned: Result<PlannedStatement, DataFusionError>) -> (draft: Result<
        SchemaDraft,
        PlanError,
    >)
        requires
            !self.complete(),
            planned matches Ok(plan) ==> plan.computes_expression()
                && plan.first_expression().tree.height() <= usize::MAX,
        ensures
            match planned {
                Ok(plan) => self.accepts(plan, draft),
                Err(e) => draft matches Err(error) && error.view() == ErrorView::Engine(e),
            },
    {
        match planned {
            Ok(plan) => self.accept(plan),
            Err(e) => Err(PlanError::Engine(e)),
        }
    }

    /// The columns of the table: as many as are declared, in the same order.
    pub fn finish(self) -> (fields: Vec<FieldSpec>)
        requires
            self.complete(),
        ensures
            spec_views(fields@) == self.settled(),
            fields@.len() == self.declared().len(),
            is_draft(self.declared(), self.settled()),
    {
        proof {
            use_type_invariant(&self);
        }
        self.specs
    }
}

} // verus!
