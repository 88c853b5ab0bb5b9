//! The columns that a statement declares.
use std::collections::HashMap;
use std::sync::Arc;

use arrow_schema::DataType as ArrowType;
use arrow_schema::Field as ArrowField;
use datafusion::common::{DFSchema, DataFusionError, SchemaError};
use vstd::prelude::*;

use crate::error::{ErrorView, PlanError};
use crate::schema::{DataType, Field, FieldView, field_views};
use crate::string_map::StringMap;
use crate::text::{spelled, spelled_option};

verus! {

/// A type as a statement gives it to a column.
#[derive(Debug)]
pub struct ColumnType {
    pub data_type: DataType,
    /// What the type adds to the metadata of its field.
    pub metadata: StringMap,
}

/// What a statement says of a column beside its name and type.
#[derive(Debug, PartialEq, Eq)]
pub enum ColumnOption {
    NotNull,
    /// The column is generated, by this expression where it is given.
    Generated { generation_expr: Option<String> },
    /// The values are unique.
    Unique { is_primary: bool },
    /// Anything else.
    Other,
}

/// A column as a statement declares it.
#[derive(Debug)]
pub struct ColumnDef {
    pub name: String,
    /// The type, or the error where the type is not supported.
    pub column_type: Result<ColumnType, DataFusionError>,
    pub options: Vec<ColumnOption>,
}

/// Whether the column may hold `NULL`.
pub open spec fn is_nullable(options: Seq<ColumnOption>) -> bool {
    !exists|i: int| 0 <= i < options.len() && (#[trigger] options[i]) is NotNull
}

/// Whether the column belongs to the primary key.
pub open spec fn is_primary_key(options: Seq<ColumnOption>) -> bool {
    exists|i: int|
        0 <= i < options.len() && (#[trigger] options[i]) == (ColumnOption::Unique {
            is_primary: true,
        })
}

/// The expression that generates the column: the first one that is given.
pub open spec fn generation_expr(options: Seq<ColumnOption>) -> Option<Seq<char>>
    decreases options.len(),
{
    if options.len() == 0 {
        None
    } else {
        match options[0] {
            ColumnOption::Generated { generation_expr: Some(expr) } => Some(expr@),
            _ => generation_expr(options.skip(1)),
        }
    }
}

fn nullable(options: &Vec<ColumnOption>) -> (yes: bool)
    ensures
        yes == is_nullable(options@),
{
    for i in 0..options.len()
        invariant
            forall|j: int| 0 <= j < i ==> !((#[trigger] options@[j]) is NotNull),
    {
        match &options[i] {
            ColumnOption::NotNull => {
                proof {
                    assert(options@[i as int] is NotNull);
                }
                return false;
            },
            _ => {},
        }
    }
    true
}

fn primary_key(options: &Vec<ColumnOption>) -> (yes: bool)
    ensures
        yes == is_primary_key(options@),
{
    for i in 0..options.len()
        invariant
            forall|j: int|
                0 <= j < i ==> (#[trigger] options@[j]) != (ColumnOption::Unique {
                    is_primary: true,
                }),
    {
        match &options[i] {
            ColumnOption::Unique { is_primary } => {
                if *is_primary {
                    proof {
                        assert(options@[i as int] == (ColumnOption::Unique { is_primary: true }));
                    }
                    return true;
                }
            },
            _ => {},
        }
    }
    false
}

fn generating_text(options: &Vec<ColumnOption>) -> (expr: Option<String>)
    ensures
        spelled_option(expr) == generation_expr(options@),
{
    proof {
        assert(options@.skip(0) =~= options@);
    }
    for i in 0..options.len()
        invariant
            generation_expr(options@.skip(i as int)) == generation_expr(options@),
    {
        proof {
            assert(options@.skip(i as int).skip(1) =~= options@.skip(i + 1));
        }
        match &options[i] {
            ColumnOption::Generated { generation_expr: Some(expr) } => {
                return Some(expr.clone());
            },
            _ => {},
        }
    }
    proof {
        assert(options@.skip(options@.len() as int).len() == 0);
    }
    None
}

/// The names of the primary key columns, in order.
pub open spec fn primary_key_names(columns: Seq<ColumnDef>) -> Seq<Seq<char>> {
    columns.filter(|c: ColumnDef| is_primary_key(c.options@)).map_values(|c: ColumnDef| c.name@)
}

/// The names of the primary key columns, in order.
pub fn primary_keys(columns: &Vec<ColumnDef>) -> (names: Vec<String>)
    ensures
        spelled(names@) == primary_key_names(columns@),
{
    let mut names: Vec<String> = Vec::new();
    proof {
        reveal(Seq::filter);
        assert(spelled(names@) =~= primary_key_names(columns@.take(0)));
    }
    for i in 0..columns.len()
        invariant
            spelled(names@) == primary_key_names(columns@.take(i as int)),
    {
        let ghost before = names@;
        proof {
            reveal(Seq::filter);
            assert(columns@.take(i + 1).drop_last() =~= columns@.take(i as int));
            assert(columns@.take(i + 1).last() == columns@[i as int]);
        }
        if primary_key(&columns[i].options) {
            names.push(columns[i].name.clone());
            proof {
                assert(spelled(names@) =~= spelled(before).push(columns@[i as int].name@));
                assert(primary_key_names(columns@.take(i + 1)) =~= primary_key_names(
                    columns@.take(i as int),
                ).push(columns@[i as int].name@));
            }
        }
    }
    proof {
        assert(columns@.take(columns@.len() as int) =~= columns@);
    }
    names
}

/// A column with the expression that generates it, where there is one.
#[derive(Debug)]
pub struct DeclaredColumn {
    pub field: Field,
    pub generation_expr: Option<String>,
}

/// What a [`DeclaredColumn`] says.
pub struct DeclaredColumnView {
    pub field: FieldView,
    pub generation_expr: Option<Seq<char>>,
}

impl DeclaredColumn {
    /// What the column says.
    pub open spec fn view(&self) -> DeclaredColumnView {
        DeclaredColumnView {
            field: self.field.view(),
            generation_expr: spelled_option(self.generation_expr),
        }
    }
}

/// What a list of columns says, column by column.
pub open spec fn declared_views(columns: Seq<DeclaredColumn>) -> Seq<DeclaredColumnView> {
    Seq::new(columns.len(), |i: int| columns[i].view())
}

impl ColumnDef {
    /// What the declaration says where its type is supported.
    pub open spec fn declared(self) -> DeclaredColumnView {
        DeclaredColumnView {
            field: FieldView {
                name: self.name@,
                data_type: self.column_type->Ok_0.data_type.view(),
                nullable: is_nullable(self.options@),
                dict_id: 0,
                dict_is_ordered: false,
                metadata: self.column_type->Ok_0.metadata@,
            },
            generation_expr: generation_expr(self.options@),
        }
    }
}

/// What a list of declarations says, column by column.
pub open spec fn declared_columns(columns: Seq<ColumnDef>) -> Seq<DeclaredColumnView> {
    columns.map_values(|c: ColumnDef| c.declared())
}

/// Whether the column at `i` is the first whose type is not supported.
pub open spec fn first_unsupported(columns: Seq<ColumnDef>, i: int) -> bool {
    &&& 0 <= i < columns.len()
    &&& columns[i].column_type is Err
    &&& forall|j: int| 0 <= j < i ==> (#[trigger] columns[j]).column_type is Ok
}

/// The columns as they are declared, or the error of the first one whose type is
/// not supported.
pub fn declare_columns(columns: Vec<ColumnDef>) -> (declared: Result<
    Vec<DeclaredColumn>,
    PlanError,
>)
    ensures
        match declared {
            Ok(declared) => {
                &&& forall|i: int|
                    0 <= i < columns@.len() ==> (#[trigger] columns@[i]).column_type is Ok
                &&& declared_views(declared@) == declared_columns(columns@)
            },
            Err(e) => exists|i: int|
                #[trigger] first_unsupported(columns@, i) && e.view() == ErrorView::Engine(
                    columns@[i].column_type->Err_0,
                ),
        },
{
    let ghost given = columns@;
    let mut rest = columns;
    let mut declared: Vec<DeclaredColumn> = Vec::new();
    let mut i: usize = 0;
    while i < rest.len()
        invariant
            rest@ == given,
            given == columns@,
            i <= rest@.len(),
            declared@.len() == i,
            forall|j: int| 0 <= j < i ==> (#[trigger] rest@[j]).column_type is Ok,
            forall|j: int| 0 <= j < i ==> (#[trigger] declared@[j]).view() == given[j].declared(),
        decreases rest@.len() - i,
    {
        let nullable = nullable(&rest[i].options);
        let generation_expr = generating_text(&rest[i].options);
        let failed = match &rest[i].column_type {
            Ok(column_type) => {
                let field = Field {
                    name: rest[i].name.clone(),
                    data_type: column_type.data_type.clone(),
                    nullable,
                    dict_id: 0,
                    dict_is_ordered: false,
                    metadata: column_type.metadata.clone(),
                };
                declared.push(DeclaredColumn { field, generation_expr });
                false
            },
            Err(_) => true,
        };
        if failed {
            proof {
                assert(first_unsupported(given, i as int));
            }
            let column = rest.swap_remove(i);
            match column.column_type {
                Err(e) => {
                    return Err(PlanError::Engine(e));
                },
                Ok(_) => {},
            }
        }
        i = i + 1;
    }
    proof {
        assert(declared_views(declared@) =~= declared_columns(given));
    }
    Ok(declared)
}

/// Whether the name at `i` is the first that stands at an earlier place too.
pub open spec fn first_repeat(names: Seq<Seq<char>>, i: int) -> bool {
    &&& 0 <= i < names.len()
    &&& names.take(i).contains(names[i])
    &&& names.take(i).no_duplicates()
}

/// `datafusion::common::DFSchema::new_with_metadata` on fields without a
/// qualifier: it fails where two of them have the same name, and the error names
/// the first one that repeats an earlier name.
#[verifier::external_body]
pub(crate) fn check_field_names(names: &Vec<String>) -> (checked: Result<(), String>)
    ensures
        match checked {
            Ok(()) => spelled(names@).no_duplicates(),
            Err(name) => exists|i: int|
                #[trigger] first_repeat(spelled(names@), i) && name@ == spelled(names@)[i],
        },
{
    let fields = names.iter().map(|n| (None, Arc::new(ArrowField::new(n, ArrowType::Null, true))));
    match DFSchema::new_with_metadata(fields.collect(), HashMap::new()) {
        Ok(_) => Ok(()),
        Err(DataFusionError::SchemaError(SchemaError::DuplicateUnqualifiedField { name }, _)) => {
            Err(name)
        },
        Err(e) => Err(e.to_string()),
    }
}

/// The columns that no expression generates, without their metadata.
pub open spec fn physical_columns(columns: Seq<DeclaredColumnView>) -> Seq<FieldView> {
    columns.filter(|c: DeclaredColumnView| c.generation_expr is None).map_values(
        |c: DeclaredColumnView|
            FieldView::plain(c.field.name, c.field.data_type, c.field.nullable),
    )
}

/// The names of fields, in order.
pub open spec fn field_names(fields: Seq<FieldView>) -> Seq<Seq<char>> {
    fields.map_values(|f: FieldView| f.name)
}

/// The columns that no expression generates, without their metadata.
pub fn physical_fields(columns: &Vec<DeclaredColumn>) -> (fields: Vec<Field>)
    ensures
        field_views(fields@) == physical_columns(declared_views(columns@)),
{
    let ghost views = declared_views(columns@);
    let mut fields: Vec<Field> = Vec::new();
    proof {
        reveal(Seq::filter);
        assert(field_views(fields@) =~= physical_columns(views.take(0)));
    }
    for i in 0..columns.len()
        invariant
            views == declared_views(columns@),
            field_views(fields@) == physical_columns(views.take(i as int)),
    {
        let ghost before = fields@;
        proof {
            reveal(Seq::filter);
            assert(views.take(i + 1).drop_last() =~= views.take(i as int));
            assert(views.take(i + 1).last() == columns@[i as int].view());
        }
        if columns[i].generation_expr.is_none() {
            let field = &columns[i].field;
            fields.push(Field::new(field.name.clone(), field.data_type.clone(), field.nullable));
            proof {
                assert(field_views(fields@) =~= field_views(before).push(fields@.last().view()));
                assert(physical_columns(views.take(i + 1)) =~= physical_columns(
                    views.take(i as int),
                ).push(fields@.last().view()));
            }
        }
    }
    proof {
        assert(views.take(columns@.len() as int) =~= views);
    }
    fields
}

/// Copies the names of fields.
pub fn copy_names(fields: &Vec<Field>) -> (names: Vec<String>)
    ensures
        spelled(names@) == field_names(field_views(fields@)),
{
    let mut names: Vec<String> = Vec::new();
    for i in 0..fields.len()
        invariant
            names@.len() == i,
            forall|j: int| 0 <= j < i ==> (#[trigger] names@[j])@ == fields@[j].view().name,
    {
        names.push(fields[i].name.clone());
    }
    proof {
        assert(spelled(names@) =~= field_names(field_views(fields@)));
    }
    names
}

} // verus!
