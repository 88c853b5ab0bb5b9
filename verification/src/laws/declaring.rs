//! The columns that statements declare.
use datafusion::common::DataFusionError;
use vstd::prelude::*;

use crate::columns::{
    ColumnDef, ColumnOption, DeclaredColumn, DeclaredColumnView, copy_names, declare_columns,
    declared_columns, declared_views, field_names, first_repeat, first_unsupported,
    generation_expr, is_nullable, is_primary_key, physical_columns, physical_fields,
    primary_key_names, primary_keys,
};
use crate::connector_table::{FieldSpec, FieldSpecView, spec_views};
use crate::error::PlanError;
use crate::laws::metadata::{
    calls_metadata, holds_metadata, is_metadata_refusal, lemma_holds_metadata,
};
use crate::metadata::ExprHead;
use crate::schema::{Field, FieldView, field_views};
use crate::schema_draft::{
    GeneratingQuery, PlanKind, PlannedExpr, PlannedStatement, SchemaDraft, filled,
    generated_expression, plan_generating_expr,
};
use crate::table::Table;
use crate::table_catalog::TableCatalog;
use crate::text::spelled;

verus! {

/// Whether the column is declared a primary key at any place of its options.
pub open spec fn is_key(column: ColumnDef) -> bool {
    exists|j: int|
        0 <= j < column.options@.len() && (#[trigger] column.options@[j]) == (
        ColumnOption::Unique { is_primary: true })
}

/// The number of primary key columns among the first `n`.
pub open spec fn keys_before(columns: Seq<ColumnDef>, n: int) -> nat
    decreases n,
{
    if n <= 0 {
        0
    } else if is_key(columns[n - 1]) {
        keys_before(columns, n - 1) + 1
    } else {
        keys_before(columns, n - 1)
    }
}

/// Whether the names are those of the primary key columns, in their order.
pub open spec fn are_key_names(names: Seq<Seq<char>>, columns: Seq<ColumnDef>) -> bool {
    &&& names.len() == keys_before(columns, columns.len() as int)
    &&& forall|i: int|
        0 <= i < columns.len() && is_key(#[trigger] columns[i]) ==> {
            &&& keys_before(columns, i) < names.len()
            &&& names[keys_before(columns, i) as int] == columns[i].name@
        }
}

/// Whether the option gives an expression that generates the column.
pub open spec fn gives_expression(option: ColumnOption) -> bool {
    option matches ColumnOption::Generated { generation_expr: Some(_) }
}

/// Whether an option at any place gives an expression that generates the column.
pub open spec fn is_generated(column: ColumnDef) -> bool {
    exists|j: int|
        0 <= j < column.options@.len() && gives_expression(#[trigger] column.options@[j])
}

/// Whether the expression is the first one that the options give, or none where
/// they give none.
pub open spec fn is_first_expression(
    expr: Option<Seq<char>>,
    options: Seq<ColumnOption>,
) -> bool {
    match expr {
        Some(text) => exists|j: int|
            {
                &&& 0 <= j < options.len()
                &&& (#[trigger] options[j]) matches ColumnOption::Generated {
                    generation_expr: Some(own),
                }
                &&& own@ == text
                &&& forall|k: int| 0 <= k < j ==> !gives_expression(#[trigger] options[k])
            },
        None => forall|j: int| 0 <= j < options.len() ==> !gives_expression(#[trigger] options[j]),
    }
}

/// Whether a field and an expression are what a column with a supported type
/// declares.
pub open spec fn is_declared_as(
    field: FieldView,
    expr: Option<Seq<char>>,
    column: ColumnDef,
) -> bool {
    &&& field.name == column.name@
    &&& field.data_type == column.column_type->Ok_0.data_type.view()
    &&& field.nullable <==> forall|j: int|
        0 <= j < column.options@.len() ==> !((#[trigger] column.options@[j]) is NotNull)
    &&& field.dict_id == 0
    &&& !field.dict_is_ordered
    &&& field.metadata == column.column_type->Ok_0.metadata@
    &&& is_first_expression(expr, column.options@)
}

/// The number of columns among the first `n` that no expression generates.
pub open spec fn plain_before(columns: Seq<DeclaredColumnView>, n: int) -> nat
    decreases n,
{
    if n <= 0 {
        0
    } else if columns[n - 1].generation_expr is None {
        plain_before(columns, n - 1) + 1
    } else {
        plain_before(columns, n - 1)
    }
}

/// Whether the fields are those of the columns that no expression generates, in
/// their order, with nothing but name, type and nullability.
pub open spec fn are_plain_fields(
    fields: Seq<FieldView>,
    columns: Seq<DeclaredColumnView>,
) -> bool {
    &&& fields.len() == plain_before(columns, columns.len() as int)
    &&& forall|i: int|
        0 <= i < columns.len() && (#[trigger] columns[i]).generation_expr is None ==> {
            let r = plain_before(columns, i) as int;
            &&& r < fields.len()
            &&& fields[r].name == columns[i].field.name
            &&& fields[r].data_type == columns[i].field.data_type
            &&& fields[r].nullable == columns[i].field.nullable
            &&& fields[r].dict_id == 0
            &&& !fields[r].dict_is_ordered
            &&& fields[r].metadata == Map::<Seq<char>, Seq<char>>::empty()
        }
}

proof fn lemma_keys_of_front(columns: Seq<ColumnDef>, i: int)
    requires
        0 <= i < columns.len(),
    ensures
        keys_before(columns.drop_last(), i) == keys_before(columns, i),
    decreases i,
{
    if i > 0 {
        lemma_keys_of_front(columns, i - 1);
    }
}

proof fn lemma_is_key(column: ColumnDef)
    ensures
        is_primary_key(column.options@) == is_key(column),
{
}

proof fn lemma_key_names(columns: Seq<ColumnDef>)
    ensures
        are_key_names(primary_key_names(columns), columns),
    decreases columns.len(),
{
    reveal(Seq::filter);
    if columns.len() > 0 {
        let front = columns.drop_last();
        let n = front.len() as int;
        lemma_key_names(front);
        lemma_is_key(columns[n]);
        lemma_keys_of_front(columns, n);
        if is_key(columns[n]) {
            assert(primary_key_names(columns) =~= primary_key_names(front).push(
                columns[n].name@,
            ));
        } else {
            assert(primary_key_names(columns) =~= primary_key_names(front));
        }
        assert forall|i: int| 0 <= i < columns.len() && is_key(#[trigger] columns[i]) implies {
            &&& keys_before(columns, i) < primary_key_names(columns).len()
            &&& primary_key_names(columns)[keys_before(columns, i) as int] == columns[i].name@
        } by {
            lemma_keys_of_front(columns, i);
            if i < n {
                assert(is_key(front[i]));
            }
        }
    }
}

/// A column's name is among the primary keys exactly if it is declared one at any
/// place of its options, and the keys keep the order of the columns.
pub proof fn keys_of_columns(columns: Vec<ColumnDef>, names: Vec<String>)
    requires
        call_ensures(primary_keys, (&columns,), names),
    ensures
        are_key_names(Seq::new(names@.len(), |i: int| names@[i]@), columns@),
        names@.len() == keys_before(columns@, columns@.len() as int),
{
    lemma_key_names(columns@);
    assert(spelled(names@) =~= Seq::new(names@.len(), |i: int| names@[i]@));
}

/// The same holds of whoever knows only the texts.
pub(crate) proof fn lemma_spelled_keys(names: Seq<String>, columns: Seq<ColumnDef>)
    requires
        spelled(names) == primary_key_names(columns),
    ensures
        are_key_names(Seq::new(names.len(), |i: int| names[i]@), columns),
{
    lemma_key_names(columns);
    assert(spelled(names) =~= Seq::new(names.len(), |i: int| names[i]@));
}

proof fn lemma_first_expression(options: Seq<ColumnOption>)
    ensures
        is_first_expression(generation_expr(options), options),
    decreases options.len(),
{
    if options.len() > 0 {
        if !gives_expression(options[0]) {
            let rest = options.skip(1);
            lemma_first_expression(rest);
            if let Some(text) = generation_expr(rest) {
                let j = choose|j: int|
                    {
                        &&& 0 <= j < rest.len()
                        &&& (#[trigger] rest[j]) matches ColumnOption::Generated {
                            generation_expr: Some(own),
                        }
                        &&& own@ == text
                        &&& forall|k: int| 0 <= k < j ==> !gives_expression(#[trigger] rest[k])
                    };
                assert(options[j + 1] == rest[j]);
                assert forall|k: int| 0 <= k < j + 1 implies !gives_expression(
                    #[trigger] options[k],
                ) by {
                    if k > 0 {
                        assert(rest[k - 1] == options[k]);
                    }
                }
            } else {
                assert forall|k: int| 0 <= k < options.len() implies !gives_expression(
                    #[trigger] options[k],
                ) by {
                    if k > 0 {
                        assert(rest[k - 1] == options[k]);
                    }
                }
            }
        } else {
            assert(options[0] is Generated);
        }
    }
}

proof fn lemma_declared_as(column: ColumnDef)
    ensures
        is_declared_as(column.declared().field, column.declared().generation_expr, column),
        column.declared().generation_expr is Some <==> is_generated(column),
{
    let options = column.options@;
    lemma_first_expression(options);
    if is_nullable(options) {
        assert forall|j: int| 0 <= j < options.len() implies !((#[trigger] options[j]) is NotNull)
            by {}
    }
    match column.declared().generation_expr {
        Some(text) => {
            let j = choose|j: int|
                {
                    &&& 0 <= j < options.len()
                    &&& (#[trigger] options[j]) matches ColumnOption::Generated {
                        generation_expr: Some(own),
                    }
                    &&& own@ == text
                    &&& forall|k: int| 0 <= k < j ==> !gives_expression(#[trigger] options[k])
                };
            assert(gives_expression(options[j]));
        },
        None => {},
    }
}

/// Columns are declared if all their types are supported, each with its name,
/// type and metadata, `NULL` unless an option at any place forbids it, and the
/// first expression that its options give. Else the first error is given.
pub proof fn columns_as_declared(
    columns: Vec<ColumnDef>,
    declared: Result<Vec<DeclaredColumn>, PlanError>,
)
    requires
        call_ensures(declare_columns, (columns,), declared),
    ensures
        declared is Ok <==> forall|i: int|
            0 <= i < columns@.len() ==> (#[trigger] columns@[i]).column_type is Ok,
        declared matches Ok(declared) ==> {
            &&& declared@.len() == columns@.len()
            &&& forall|i: int|
                0 <= i < columns@.len() ==> is_declared_as(
                    (#[trigger] declared@[i]).field.view(),
                    match declared@[i].generation_expr {
                        Some(expr) => Some(expr@),
                        None => None,
                    },
                    columns@[i],
                )
        },
        declared matches Err(error) ==> exists|i: int|
            {
                &&& 0 <= i < columns@.len()
                &&& (#[trigger] columns@[i]).column_type matches Err(e)
                &&& error == PlanError::Engine(e)
                &&& forall|j: int| 0 <= j < i ==> (#[trigger] columns@[j]).column_type is Ok
            },
{
    match declared {
        Ok(declared) => {
            assert(declared_views(declared@).len() == declared@.len());
            assert(declared_columns(columns@).len() == columns@.len());
            assert forall|i: int| 0 <= i < columns@.len() implies is_declared_as(
                (#[trigger] declared@[i]).field.view(),
                match declared@[i].generation_expr {
                    Some(expr) => Some(expr@),
                    None => None,
                },
                columns@[i],
            ) by {
                assert(declared_views(declared@)[i] == declared@[i].view());
                assert(declared_columns(columns@)[i] == columns@[i].declared());
                lemma_declared_as(columns@[i]);
            }
        },
        Err(error) => {
            let i = choose|i: int| #[trigger]
                first_unsupported(columns@, i) && error.view()
                    == crate::error::ErrorView::Engine(columns@[i].column_type->Err_0);
            assert(columns@[i].column_type is Err);
        },
    }
}

proof fn lemma_plain_of_front(columns: Seq<DeclaredColumnView>, i: int)
    requires
        0 <= i < columns.len(),
    ensures
        plain_before(columns.drop_last(), i) == plain_before(columns, i),
    decreases i,
{
    if i > 0 {
        lemma_plain_of_front(columns, i - 1);
    }
}

proof fn lemma_plain_fields(columns: Seq<DeclaredColumnView>)
    ensures
        are_plain_fields(physical_columns(columns), columns),
    decreases columns.len(),
{
    reveal(Seq::filter);
    if columns.len() > 0 {
        let front = columns.drop_last();
        let n = front.len() as int;
        lemma_plain_fields(front);
        lemma_plain_of_front(columns, n);
        let last = columns[n].field;
        if columns[n].generation_expr is None {
            assert(physical_columns(columns) =~= physical_columns(front).push(
                FieldView::plain(last.name, last.data_type, last.nullable),
            ));
        } else {
            assert(physical_columns(columns) =~= physical_columns(front));
        }
        let fields = physical_columns(columns);
        assert forall|i: int| 0 <= i < columns.len() && (
        #[trigger] columns[i]).generation_expr is None implies {
            let r = plain_before(columns, i) as int;
            &&& r < fields.len()
            &&& fields[r].name == columns[i].field.name
            &&& fields[r].data_type == columns[i].field.data_type
            &&& fields[r].nullable == columns[i].field.nullable
            &&& fields[r].dict_id == 0
            &&& !fields[r].dict_is_ordered
            &&& fields[r].metadata == Map::<Seq<char>, Seq<char>>::empty()
        } by {
            lemma_plain_of_front(columns, i);
            if i < n {
                assert(front[i].generation_expr is None);
            }
        }
    }
}

/// The physical fields are those of the columns that no expression generates, in
/// their order and without metadata, and copied names keep their order.
pub proof fn physical_fields_of_columns(
    columns: Vec<DeclaredColumn>,
    fields: Vec<Field>,
    names: Vec<String>,
)
    requires
        call_ensures(physical_fields, (&columns,), fields),
        call_ensures(copy_names, (&fields,), names),
    ensures
        are_plain_fields(
            Seq::new(fields@.len(), |i: int| fields@[i].view()),
            Seq::new(columns@.len(), |i: int| columns@[i].view()),
        ),
        names@.len() == fields@.len(),
        forall|i: int| 0 <= i < fields@.len() ==> (#[trigger] names@[i])@ == fields@[i].name@,
{
    lemma_plain_fields(declared_views(columns@));
    assert(declared_views(columns@) =~= Seq::new(columns@.len(), |i: int| columns@[i].view()));
    assert(field_views(fields@) =~= Seq::new(fields@.len(), |i: int| fields@[i].view()));
    assert(spelled(names@).len() == names@.len());
    assert(field_names(field_views(fields@)).len() == fields@.len());
    assert forall|i: int| 0 <= i < fields@.len() implies (#[trigger] names@[i])@
        == fields@[i].name@ by {
        assert(spelled(names@)[i] == names@[i]@);
        assert(field_names(field_views(fields@))[i] == fields@[i].view().name);
    }
}

/// The query that generates a column selects its expression from a table with
/// the name, the fields and no plan.
pub proof fn generating_query(
    expr: String,
    name: String,
    fields: Vec<Field>,
    query: GeneratingQuery,
)
    requires
        call_ensures(plan_generating_expr, (&expr, &name, &fields), query),
    ensures
        query.sql@ == "SELECT "@ + expr@ + " from "@ + name@,
        query.table matches Table::MemoryTable {
            name: table_name,
            fields: table_fields,
            logical_plan,
        } && {
            &&& table_name@ == name@
            &&& logical_plan is None
            &&& field_views(table_fields@) == field_views(fields@)
        },
{
}

/// The first expression of a projection is taken.
pub proof fn expression_of_projection(plan: PlannedStatement, expr: PlannedExpr)
    requires
        plan.kind matches PlanKind::Projection(exprs) && exprs@.len() > 0,
        call_ensures(generated_expression, (plan,), expr),
    ensures
        expr == plan.kind->Projection_0@[0],
{
}

/// A query is planned over its own table, whatever was filed under its key, and
/// over the other tables of the catalog.
pub proof fn query_sees_its_table(
    query: GeneratingQuery,
    key: String,
    catalog: TableCatalog,
    bound: TableCatalog,
    other: Seq<char>,
)
    requires
        call_ensures(GeneratingQuery::within, (query, key, &catalog), bound),
    ensures
        bound.table(key@) == Some(query.table),
        other != key@ ==> match catalog.table(other) {
            Some(table) => bound.table(other) matches Some(copy) && copy.says_same(table),
            None => bound.table(other) is None,
        },
{
    if other != key@ {
        assert(crate::table_catalog::same_entry(bound.table(other), catalog.table(other)));
    }
}

proof fn lemma_filled_shape(columns: Seq<DeclaredColumnView>, settled: Seq<FieldSpecView>)
    requires
        settled.len() <= columns.len(),
    ensures
        ({
            let more = filled(columns, settled);
            &&& settled.len() <= more.len() <= columns.len()
            &&& forall|i: int| 0 <= i < settled.len() ==> (#[trigger] more[i]) == settled[i]
            &&& forall|i: int|
                settled.len() <= i < more.len() ==> columns[i].generation_expr is None && (
                #[trigger] more[i]) == FieldSpecView::Struct(columns[i].field)
            &&& more.len() < columns.len() ==> columns[more.len() as int].generation_expr is Some
        }),
    decreases columns.len() - settled.len(),
{
    let n = settled.len() as int;
    if n < columns.len() && columns[n].generation_expr is None {
        let next = settled.push(FieldSpecView::Struct(columns[n].field));
        lemma_filled_shape(columns, next);
        let more = filled(columns, settled);
        assert(more == filled(columns, next));
        assert forall|i: int| 0 <= i < settled.len() implies (#[trigger] more[i]) == settled[i] by {
            assert(more[i] == next[i]);
        }
        assert forall|i: int| settled.len() <= i < more.len() implies
            columns[i].generation_expr is None && (#[trigger] more[i]) == FieldSpecView::Struct(
            columns[i].field,
        ) by {
            if i == n {
                assert(more[i] == next[i]);
            }
        }
    }
}

/// Whether two columns that no expression generates share a name, the second of
/// them before place `n`.
pub open spec fn repeats_before(columns: Seq<ColumnDef>, n: int) -> bool {
    exists|i: int, j: int|
        #![trigger columns[i], columns[j]]
        0 <= i < j < n && j < columns.len() && !is_generated(columns[i]) && !is_generated(
            columns[j],
        ) && columns[i].name@ == columns[j].name@
}

proof fn lemma_plain_monotone(columns: Seq<DeclaredColumnView>, i: int, j: int)
    requires
        0 <= i <= j <= columns.len(),
    ensures
        plain_before(columns, i) <= plain_before(columns, j),
        i < j && columns[i].generation_expr is None ==> plain_before(columns, i) < plain_before(
            columns,
            j,
        ),
    decreases j,
{
    if i < j {
        lemma_plain_monotone(columns, i, j - 1);
    }
}

/// Each physical column has a declared one.
proof fn lemma_plain_source(columns: Seq<DeclaredColumnView>, n: int, r: int) -> (i: int)
    requires
        0 <= n <= columns.len(),
        0 <= r < plain_before(columns, n),
    ensures
        0 <= i < n,
        columns[i].generation_expr is None,
        plain_before(columns, i) == r,
    decreases n,
{
    if columns[n - 1].generation_expr is None && plain_before(columns, n - 1) == r {
        n - 1
    } else {
        lemma_plain_source(columns, n - 1, r)
    }
}

proof fn lemma_names(columns: Seq<ColumnDef>, i: int)
    requires
        0 <= i < columns.len(),
    ensures
        declared_columns(columns).len() == columns.len(),
        declared_columns(columns)[i].generation_expr is None <==> !is_generated(columns[i]),
        !is_generated(columns[i]) ==> {
            let names = field_names(physical_columns(declared_columns(columns)));
            let r = plain_before(declared_columns(columns), i) as int;
            r < names.len() && names[r] == columns[i].name@
        },
{
    let declared = declared_columns(columns);
    lemma_declared_as(columns[i]);
    lemma_plain_fields(declared);
    assert(declared[i] == columns[i].declared());
    if !is_generated(columns[i]) {
        let r = plain_before(declared, i) as int;
        assert(declared[i].generation_expr is None);
        assert(field_names(physical_columns(declared))[r] == physical_columns(declared)[r].name);
    }
}

pub(crate) proof fn lemma_distinct(columns: Seq<ColumnDef>)
    ensures
        field_names(physical_columns(declared_columns(columns))).no_duplicates()
            <==> !repeats_before(columns, columns.len() as int),
{
    let declared = declared_columns(columns);
    let names = field_names(physical_columns(declared));
    lemma_plain_fields(declared);
    assert(names.len() == physical_columns(declared).len());
    assert(declared.len() == columns.len());
    if names.no_duplicates() && repeats_before(columns, columns.len() as int) {
        let (i, j) = choose|i: int, j: int|
            #![trigger columns[i], columns[j]]
            0 <= i < j < columns.len() && !is_generated(columns[i]) && !is_generated(columns[j])
                && columns[i].name@ == columns[j].name@;
        lemma_names(columns, i);
        lemma_names(columns, j);
        lemma_plain_monotone(declared, i, j);
        let (r, s) = (plain_before(declared, i) as int, plain_before(declared, j) as int);
        assert(names[r] != names[s]);
    }
    if !names.no_duplicates() {
        let (r, s) = choose|r: int, s: int|
            0 <= r < names.len() && 0 <= s < names.len() && r != s && names[r] == names[s];
        let i = lemma_plain_source(declared, columns.len() as int, r);
        let j = lemma_plain_source(declared, columns.len() as int, s);
        lemma_names(columns, i);
        lemma_names(columns, j);
        if i < j {
            assert(columns[i].name@ == columns[j].name@);
        } else {
            assert(columns[j].name@ == columns[i].name@);
        }
        assert(repeats_before(columns, columns.len() as int));
    }
}

/// The columns of a table can be worked out exactly if all their types are
/// supported and no two that are not generated share a name.
pub proof fn columns_can_be_worked_out(
    name: String,
    columns: Vec<ColumnDef>,
    draft: Result<SchemaDraft, PlanError>,
)
    requires
        call_ensures(Table::schema_from_columns, (name, columns), draft),
    ensures
        draft is Ok <==> {
            &&& forall|i: int|
                0 <= i < columns@.len() ==> (#[trigger] columns@[i]).column_type is Ok
            &&& !repeats_before(columns@, columns@.len() as int)
        },
{
    lemma_distinct(columns@);
    if draft is Err {
        lemma_column_errors(columns@, draft->Err_0);
    }
}

/// Whether the error is the one that a list of columns has to give: that of the
/// first type that is not supported, else that of the first name that repeats.
pub open spec fn is_columns_refusal(columns: Seq<ColumnDef>, error: PlanError) -> bool {
    if exists|i: int| 0 <= i < columns.len() && (#[trigger] columns[i]).column_type is Err {
        exists|i: int|
            {
                &&& 0 <= i < columns.len()
                &&& (#[trigger] columns[i]).column_type matches Err(e)
                &&& error == PlanError::Engine(e)
                &&& forall|j: int| 0 <= j < i ==> (#[trigger] columns[j]).column_type is Ok
            }
    } else {
        exists|j: int|
            {
                &&& 0 <= j < columns.len()
                &&& error matches PlanError::DuplicateField(name)
                &&& name@ == (#[trigger] columns[j]).name@
                &&& !repeats_before(columns, j)
                &&& repeats_before(columns, j + 1)
            }
    }
}

pub(crate) proof fn lemma_column_errors(columns: Seq<ColumnDef>, error: PlanError)
    requires
        crate::statement::is_columns_error(columns, error.view()),
    ensures
        is_columns_refusal(columns, error),
        (exists|i: int| 0 <= i < columns.len() && (#[trigger] columns[i]).column_type is Err)
            || repeats_before(columns, columns.len() as int),
{
    if crate::schema_draft::is_type_error(columns, error.view()) {
        let i = choose|i: int| #[trigger]
            first_unsupported(columns, i) && error.view() == crate::error::ErrorView::Engine(
                columns[i].column_type->Err_0,
            );
        assert(columns[i].column_type is Err);
    } else {
        let declared = declared_columns(columns);
        let names = field_names(physical_columns(declared));
        lemma_plain_fields(declared);
        assert(names.len() == physical_columns(declared).len());
        assert(declared.len() == columns.len());
        let s = choose|s: int| #[trigger]
            first_repeat(names, s) && error.view() == crate::error::ErrorView::DuplicateField(
                names[s],
            );
        let j = lemma_plain_source(declared, columns.len() as int, s);
        lemma_names(columns, j);
        let r = choose|r: int| 0 <= r < names.take(s).len() && names.take(s)[r] == names[s];
        assert(names[r] == names[s]);
        let i = lemma_plain_source(declared, columns.len() as int, r);
        lemma_names(columns, i);
        if j <= i {
            lemma_plain_monotone(declared, j, i);
        }
        assert(columns[i].name@ == columns[j].name@);
        assert(repeats_before(columns, j + 1));
        assert(repeats_before(columns, columns.len() as int));
        if repeats_before(columns, j) {
            let (a, b) = choose|a: int, b: int|
                #![trigger columns[a], columns[b]]
                0 <= a < b < j && b < columns.len() && !is_generated(columns[a])
                    && !is_generated(columns[b]) && columns[a].name@ == columns[b].name@;
            lemma_names(columns, a);
            lemma_names(columns, b);
            lemma_plain_monotone(declared, a, b);
            lemma_plain_monotone(declared, b, j);
            let (x, y) = (plain_before(declared, a) as int, plain_before(declared, b) as int);
            assert(names.take(s)[x] == names[x]);
            assert(names.take(s)[y] == names[y]);
        }
    }
}

/// Where the columns cannot be worked out, the first type that is not supported
/// is told, else the first name that repeats.
pub proof fn columns_refused(name: String, columns: Vec<ColumnDef>, error: PlanError)
    requires
        call_ensures(
            Table::schema_from_columns,
            (name, columns),
            Err::<SchemaDraft, PlanError>(error),
        ),
    ensures
        is_columns_refusal(columns@, error),
{
    lemma_column_errors(columns@, error);
}

/// Whether a draft is at its start: its columns are those declared, and all up to
/// the first generated one are part of the message.
pub open spec fn is_fresh(draft: SchemaDraft, name: Seq<char>, columns: Seq<ColumnDef>) -> bool {
    &&& draft.table() == name
    &&& draft.declared().len() == columns.len()
    &&& forall|i: int|
        0 <= i < columns.len() ==> is_declared_as(
            (#[trigger] draft.declared()[i]).field,
            draft.declared()[i].generation_expr,
            columns[i],
        )
    &&& draft.settled().len() <= columns.len()
    &&& forall|i: int|
        0 <= i < draft.settled().len() ==> !is_generated(columns[i]) && (
        #[trigger] draft.settled()[i]) == FieldSpecView::Struct(draft.declared()[i].field)
    &&& draft.settled().len() < columns.len() ==> is_generated(
        columns[draft.settled().len() as int],
    )
}

pub(crate) proof fn lemma_fresh(draft: SchemaDraft, name: Seq<char>, columns: Seq<ColumnDef>)
    requires
        draft.table() == name,
        draft.declared() == declared_columns(columns),
        draft.settled() == filled(declared_columns(columns), Seq::<FieldSpecView>::empty()),
    ensures
        is_fresh(draft, name, columns),
{
    let declared = declared_columns(columns);
    assert(declared.len() == columns.len());
    lemma_filled_shape(declared, Seq::empty());
    assert forall|i: int| 0 <= i < columns.len() implies is_declared_as(
        (#[trigger] draft.declared()[i]).field,
        draft.declared()[i].generation_expr,
        columns[i],
    ) by {
        assert(declared[i] == columns[i].declared());
        lemma_declared_as(columns[i]);
    }
    assert forall|i: int| 0 <= i < draft.settled().len() implies !is_generated(columns[i]) && (
    #[trigger] draft.settled()[i]) == FieldSpecView::Struct(draft.declared()[i].field) by {
        assert(declared[i] == columns[i].declared());
        lemma_declared_as(columns[i]);
    }
    let n = draft.settled().len() as int;
    if n < columns.len() {
        assert(declared[n] == columns[n].declared());
        lemma_declared_as(columns[n]);
    }
}

/// A draft starts with the declared columns.
pub proof fn draft_starts(name: String, columns: Vec<ColumnDef>, draft: SchemaDraft)
    requires
        call_ensures(
            Table::schema_from_columns,
            (name, columns),
            Ok::<SchemaDraft, PlanError>(draft),
        ),
    ensures
        is_fresh(draft, name@, columns@),
{
    lemma_fresh(draft, name@, columns@);
}

/// The next query selects the expression of the first column that is not settled,
/// from a table of the columns that are not generated.
pub proof fn next_query_of_draft(draft: SchemaDraft, query: Option<GeneratingQuery>)
    requires
        call_ensures(SchemaDraft::next_query, (&draft,), query),
    ensures
        query is None <==> draft.settled().len() == draft.declared().len(),
        query matches Some(query) ==> {
            let n = draft.settled().len() as int;
            &&& n < draft.declared().len()
            &&& draft.declared()[n].generation_expr matches Some(expr)
            &&& query.sql@ == "SELECT "@ + expr + " from "@ + draft.table()
            &&& query.table matches Table::MemoryTable { name, fields, logical_plan }
            &&& name@ == draft.table()
            &&& logical_plan is None
            &&& are_plain_fields(
                Seq::new(fields@.len(), |i: int| fields@[i].view()),
                draft.declared(),
            )
        },
{
    lemma_plain_fields(draft.declared());
    if let Some(query) = query {
        let fields = query.table->MemoryTable_fields;
        assert(field_views(fields@) =~= Seq::new(fields@.len(), |i: int| fields@[i].view()));
    }
}

/// Whether a draft is what another becomes once the expression of its next column
/// is known: the column holds metadata if the expression is a call of `metadata`
/// with one literal and is computed if `metadata` is called nowhere in it, what
/// was settled stays, and the columns up to the next generated one follow.
pub open spec fn goes_on(draft: SchemaDraft, expr: PlannedExpr, next: SchemaDraft) -> bool {
    let n = draft.settled().len() as int;
    let field = draft.declared()[n].field;
    &&& next.table() == draft.table()
    &&& next.declared() == draft.declared()
    &&& n < next.settled().len() <= next.declared().len()
    &&& forall|i: int| 0 <= i < n ==> (#[trigger] next.settled()[i]) == draft.settled()[i]
    &&& if calls_metadata(expr.tree) {
        &&& expr.tree.children@.len() == 1
        &&& expr.tree.children@[0].head matches ExprHead::StringLiteral(key)
        &&& next.settled()[n] == (FieldSpecView::Metadata { field, key: key@ })
    } else {
        &&& !holds_metadata(expr.tree)
        &&& next.settled()[n] == (FieldSpecView::Virtual { field, expression: expr.expression })
    }
    &&& forall|i: int|
        n < i < next.settled().len() ==> next.declared()[i].generation_expr is None && (
        #[trigger] next.settled()[i]) == FieldSpecView::Struct(next.declared()[i].field)
    &&& next.settled().len() < next.declared().len()
        ==> next.declared()[next.settled().len() as int].generation_expr is Some
}

proof fn lemma_goes_on(
    draft: SchemaDraft,
    plan: PlannedStatement,
    next: Result<SchemaDraft, PlanError>,
)
    requires
        draft.settled().len() < draft.declared().len(),
        plan.computes_expression(),
        draft.accepts(plan, next),
    ensures
        next is Ok <==> {
            let tree = plan.kind->Projection_0@[0].tree;
            ||| !holds_metadata(tree)
            ||| calls_metadata(tree) && tree.children@.len() == 1
                && tree.children@[0].head is StringLiteral
        },
        next matches Ok(next) ==> goes_on(draft, plan.kind->Projection_0@[0], next),
        next matches Err(error) ==> is_metadata_refusal(
            plan.kind->Projection_0@[0].tree,
            error,
        ),
{
    let expr = plan.kind->Projection_0@[0];
    lemma_holds_metadata(expr.tree);
    let n = draft.settled().len() as int;
    if let Ok(next) = next {
        let added = crate::schema_draft::generated_spec(
            draft.declared()[n],
            expr.tree.metadata_key()->Ok_0,
            expr.expression,
        );
        let before = draft.settled().push(added);
        lemma_filled_shape(draft.declared(), before);
        assert(next.settled()[n] == before[n]);
        assert forall|i: int| 0 <= i < n implies (#[trigger] next.settled()[i])
            == draft.settled()[i] by {
            assert(next.settled()[i] == before[i]);
        }
    }
}

/// Accepting a plan settles the next column.
pub proof fn column_accepted(
    draft: SchemaDraft,
    plan: PlannedStatement,
    next: Result<SchemaDraft, PlanError>,
)
    requires
        draft.settled().len() < draft.declared().len(),
        plan.kind matches PlanKind::Projection(exprs) && exprs@.len() > 0,
        call_ensures(SchemaDraft::accept, (draft, plan), next),
    ensures
        next is Ok <==> {
            let tree = plan.kind->Projection_0@[0].tree;
            ||| !holds_metadata(tree)
            ||| calls_metadata(tree) && tree.children@.len() == 1
                && tree.children@[0].head is StringLiteral
        },
        next matches Ok(next) ==> goes_on(draft, plan.kind->Projection_0@[0], next),
        next matches Err(error) ==> is_metadata_refusal(
            plan.kind->Projection_0@[0].tree,
            error,
        ),
{
    lemma_goes_on(draft, plan, next);
}

/// What came of planning settles the next column, or ends the work with the
/// engine's own error.
pub proof fn column_resumed(
    draft: SchemaDraft,
    planned: Result<PlannedStatement, DataFusionError>,
    next: Result<SchemaDraft, PlanError>,
)
    requires
        draft.settled().len() < draft.declared().len(),
        planned matches Ok(plan) ==> (plan.kind matches PlanKind::Projection(exprs) && exprs@.len()
            > 0),
        call_ensures(SchemaDraft::resume, (draft, planned), next),
    ensures
        match planned {
            Err(e) => next == Err::<SchemaDraft, PlanError>(PlanError::Engine(e)),
            Ok(plan) => {
                &&& next is Ok <==> {
                    let tree = plan.kind->Projection_0@[0].tree;
                    ||| !holds_metadata(tree)
                    ||| calls_metadata(tree) && tree.children@.len() == 1
                        && tree.children@[0].head is StringLiteral
                }
                &&& next matches Ok(next) ==> goes_on(draft, plan.kind->Projection_0@[0], next)
                &&& next matches Err(error) ==> is_metadata_refusal(
                    plan.kind->Projection_0@[0].tree,
                    error,
                )
            },
        },
{
    if let Ok(plan) = planned {
        lemma_goes_on(draft, plan, next);
    }
}

/// A finished draft gives its settled columns in order.
pub proof fn draft_finished(draft: SchemaDraft, fields: Vec<FieldSpec>)
    requires
        call_ensures(SchemaDraft::finish, (draft,), fields),
    ensures
        fields@.len() == draft.settled().len(),
        forall|i: int|
            0 <= i < fields@.len() ==> (#[trigger] fields@[i]).view() == draft.settled()[i],
{
    assert(spec_views(fields@).len() == fields@.len());
    assert forall|i: int| 0 <= i < fields@.len() implies (#[trigger] fields@[i]).view()
        == draft.settled()[i] by {
        assert(spec_views(fields@)[i] == fields@[i].view());
    }
}

/// Columns that no expression generates become the columns of the table, one for
/// one, without anything being planned.
pub proof fn plain_table(
    name: String,
    columns: Vec<ColumnDef>,
    draft: SchemaDraft,
    query: Option<GeneratingQuery>,
    fields: Vec<FieldSpec>,
)
    requires
        call_ensures(
            Table::schema_from_columns,
            (name, columns),
            Ok::<SchemaDraft, PlanError>(draft),
        ),
        forall|i: int| 0 <= i < columns@.len() ==> !is_generated(#[trigger] columns@[i]),
        call_ensures(SchemaDraft::next_query, (&draft,), query),
        call_ensures(SchemaDraft::finish, (draft,), fields),
    ensures
        query is None,
        fields@.len() == columns@.len(),
        forall|i: int|
            0 <= i < columns@.len() ==> (#[trigger] fields@[i]) is Struct && is_declared_as(
                fields@[i]->Struct_0.view(),
                None,
                columns@[i],
            ),
{
    draft_starts(name, columns, draft);
    draft_finished(draft, fields);
    assert forall|i: int| 0 <= i < columns@.len() implies (#[trigger] fields@[i]) is Struct
        && is_declared_as(fields@[i]->Struct_0.view(), None, columns@[i]) by {
        assert(draft.settled()[i] == FieldSpecView::Struct(draft.declared()[i].field));
        assert(fields@[i].view() == draft.settled()[i]);
        let declared = draft.declared()[i];
        assert(is_declared_as(declared.field, declared.generation_expr, columns@[i]));
        if let Some(text) = declared.generation_expr {
            let options = columns@[i].options@;
            let j = choose|j: int|
                {
                    &&& 0 <= j < options.len()
                    &&& (#[trigger] options[j]) matches ColumnOption::Generated {
                        generation_expr: Some(own),
                    }
                    &&& own@ == text
                    &&& forall|k: int| 0 <= k < j ==> !gives_expression(#[trigger] options[k])
                };
            assert(gives_expression(options[j]));
        }
    }
}

} // verus!
