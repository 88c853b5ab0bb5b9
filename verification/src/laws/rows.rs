//! The rows of tables and what is inserted into them.
use datafusion::common::DataFusionError;
use vstd::prelude::*;

use crate::connector_table::{
    ConnectorOp, ConnectorTable, FieldSpec, copy_columns, fields_of, spec_views,
};
use crate::error::PlanError;
use crate::laws::terms::{are_all_fields, are_same_fields, breaks_rule, column_field};
use crate::schema::{DFField, Field, copy_unqualified, field_views, unqualified};
use crate::table::{Table, has_same_output};
use crate::table_catalog::{TableCatalog, infer_sink_schema};

verus! {

/// Whether the fields are those of the output without its relations, in their
/// order.
pub open spec fn are_output_fields(fields: Seq<Field>, output: Seq<DFField>) -> bool {
    &&& fields.len() == output.len()
    &&& forall|i: int|
        0 <= i < output.len() ==> (#[trigger] fields[i]).view() == output[i].field.view()
}

/// Whether two outputs have as many fields, and at each place the same name and
/// the same type.
pub open spec fn agree(a: Seq<DFField>, b: Seq<DFField>) -> bool {
    &&& a.len() == b.len()
    &&& forall|i: int|
        0 <= i < a.len() ==> {
            &&& (#[trigger] a[i]).field.name@ == b[i].field.name@
            &&& a[i].field.data_type.view().same_as(b[i].field.data_type.view())
        }
}

proof fn lemma_same_views(fields: Seq<Field>, others: Seq<Field>)
    requires
        field_views(fields) == field_views(others),
    ensures
        are_same_fields(fields, others),
{
    assert(field_views(fields).len() == fields.len());
    assert(field_views(others).len() == others.len());
    assert(fields.len() == others.len());
    assert forall|i: int| 0 <= i < others.len() implies (#[trigger] fields[i]).view()
        == others[i].view() by {
        assert(fields.len() == others.len());
        assert(field_views(fields)[i] == fields[i].view());
        assert(field_views(others)[i] == others[i].view());
    }
}

proof fn lemma_all_fields(fields: Seq<Field>, columns: Seq<FieldSpec>)
    requires
        field_views(fields) == fields_of(spec_views(columns)),
    ensures
        are_all_fields(fields, columns),
{
    assert(field_views(fields).len() == fields.len());
    assert(spec_views(columns).len() == columns.len());
    assert(fields_of(spec_views(columns)).len() == columns.len());
    assert forall|i: int| 0 <= i < columns.len() implies (#[trigger] fields[i]).view()
        == column_field(columns[i]).view() by {
        assert(field_views(fields)[i] == fields[i].view());
        assert(spec_views(columns)[i] == columns[i].view());
        assert(fields_of(spec_views(columns))[i] == columns[i].view().field());
    }
}

proof fn lemma_output_fields(fields: Seq<Field>, output: Seq<DFField>)
    requires
        field_views(fields) == unqualified(output),
    ensures
        are_output_fields(fields, output),
{
    assert(field_views(fields).len() == fields.len());
    assert(unqualified(output).len() == output.len());
    assert forall|i: int| 0 <= i < output.len() implies (#[trigger] fields[i]).view()
        == output[i].field.view() by {
        assert(field_views(fields)[i] == fields[i].view());
        assert(unqualified(output)[i] == output[i].field.view());
    }
}

/// The rows of a connector's table, also of one for lookups, have a field for
/// each column, whether it is stored, holds metadata or is computed, unless
/// fields were inferred: then they have those.
pub proof fn rows_of_connector_table(table: Table, inner: ConnectorTable, fields: Vec<Field>)
    requires
        table == Table::ConnectorTable(inner) || table == Table::LookupTable(inner),
        call_ensures(Table::get_fields, (&table,), fields),
    ensures
        match inner.inferred_fields {
            None => are_all_fields(fields@, inner.fields@),
            Some(output) => are_output_fields(fields@, output@),
        },
{
    match inner.inferred_fields {
        None => lemma_all_fields(fields@, inner.fields@),
        Some(output) => lemma_output_fields(fields@, output@),
    }
}

/// The rows of a table without a connector have the table's own fields, or those
/// of its plan.
pub proof fn rows_of_other_table(table: Table, fields: Vec<Field>)
    requires
        call_ensures(Table::get_fields, (&table,), fields),
    ensures
        match table {
            Table::MemoryTable { fields: own, .. } => are_same_fields(fields@, own@),
            Table::TableFromQuery { logical_plan, .. } => are_same_fields(
                fields@,
                logical_plan.fields@,
            ),
            Table::PreviewSink { logical_plan } => are_same_fields(fields@, logical_plan.fields@),
            _ => true,
        },
{
    match table {
        Table::MemoryTable { fields: own, .. } => lemma_same_views(fields@, own@),
        Table::TableFromQuery { logical_plan, .. } => lemma_same_views(
            fields@,
            logical_plan.fields@,
        ),
        Table::PreviewSink { logical_plan } => lemma_same_views(fields@, logical_plan.fields@),
        _ => {},
    }
}

/// Copying columns and copying an output keep every field in its place.
pub proof fn copied_fields(
    columns: Vec<FieldSpec>,
    output: Vec<DFField>,
    of_columns: Vec<Field>,
    of_output: Vec<Field>,
)
    requires
        call_ensures(copy_columns, (&columns,), of_columns),
        call_ensures(copy_unqualified, (&output,), of_output),
    ensures
        are_all_fields(of_columns@, columns@),
        are_output_fields(of_output@, output@),
{
    lemma_all_fields(of_columns@, columns@);
    lemma_output_fields(of_output@, output@);
}

/// The name of a table is the one that it was given, and previews share one.
pub proof fn name_of_table(table: Table, name: &str)
    requires
        call_ensures(Table::name, (&table,), name),
    ensures
        match table {
            Table::MemoryTable { name: own, .. } => name@ == own@,
            Table::TableFromQuery { name: own, .. } => name@ == own@,
            Table::ConnectorTable(inner) => name@ == inner.name@,
            Table::LookupTable(inner) => name@ == inner.name@,
            Table::PreviewSink { .. } => name@ == "preview"@,
        },
{
}

/// A connector's table, also one for lookups, is written through its connector,
/// a preview through the default sink, and a table in memory not at all.
pub proof fn writing(table: Table, default_sink: ConnectorOp, op: Result<ConnectorOp, PlanError>)
    requires
        !(table is TableFromQuery),
        call_ensures(Table::connector_op, (&table, default_sink), op),
    ensures
        match table {
            Table::ConnectorTable(inner) => writes_through(op, inner),
            Table::LookupTable(inner) => writes_through(op, inner),
            Table::MemoryTable { .. } => op matches Err(e) && breaks_rule(
                e,
                "can't write to a memory table"@,
            ),
            _ => op matches Ok(op) && op.connector@ == default_sink.connector@ && op.config@
                == default_sink.config@ && op.description@ == default_sink.description@,
        },
{
}

/// Whether the operator is told of the table's connector.
pub open spec fn writes_through(op: Result<ConnectorOp, PlanError>, table: ConnectorTable) -> bool {
    op matches Ok(op) && op.connector@ == table.connector@ && op.config@ == table.config@
        && op.description@ == table.description@
}

/// Two outputs are compared at every place.
pub proof fn outputs_compared_everywhere(a: Vec<DFField>, b: Vec<DFField>, same: bool)
    requires
        call_ensures(has_same_output, (&a, &b), same),
    ensures
        same <==> agree(a@, b@),
{
    if same {
        assert forall|i: int| 0 <= i < a@.len() implies {
            &&& (#[trigger] a@[i]).field.name@ == b@[i].field.name@
            &&& a@[i].field.data_type.view().same_as(b@[i].field.data_type.view())
        } by {
            assert(a@[i].field.view().name == b@[i].field.view().name);
        }
    } else if agree(a@, b@) {
        assert forall|i: int| 0 <= i < a@.len() implies (#[trigger] a@[i]).field.view().name
            == b@[i].field.view().name && a@[i].field.view().data_type.same_as(
            b@[i].field.view().data_type,
        ) by {
            assert(a@[i].field.name@ == b@[i].field.name@);
        }
    }
}

proof fn lemma_agree(a: Seq<DFField>, b: Seq<DFField>)
    ensures
        crate::table::same_output(a, b) == agree(a, b),
{
    if crate::table::same_output(a, b) {
        assert forall|i: int| 0 <= i < a.len() implies {
            &&& (#[trigger] a[i]).field.name@ == b[i].field.name@
            &&& a[i].field.data_type.view().same_as(b[i].field.data_type.view())
        } by {
            assert(a[i].field.view().name == b[i].field.view().name);
        }
    } else if agree(a, b) {
        assert forall|i: int| 0 <= i < a.len() implies (#[trigger] a[i]).field.view().name
            == b[i].field.view().name && a[i].field.view().data_type.same_as(
            b[i].field.view().data_type,
        ) by {
            assert(a[i].field.name@ == b[i].field.name@);
        }
    }
}

/// An insert into a table without declared columns is accepted exactly if no
/// earlier one disagrees with it at any place, and then the table has its output.
/// A refused one changes nothing.
pub proof fn insert_into_open_table(
    table: &mut Table,
    inner: ConnectorTable,
    output: Vec<DFField>,
    done: Result<(), PlanError>,
)
    requires
        *old(table) == Table::ConnectorTable(inner),
        inner.fields@.len() == 0,
        call_ensures(Table::set_inferred_fields, (table, output), done),
    ensures
        done is Ok <==> (inner.inferred_fields matches Some(earlier) ==> agree(
            earlier@,
            output@,
        )),
        match done {
            Ok(()) => *final(table) == Table::ConnectorTable(
                ConnectorTable { inferred_fields: Some(output), ..inner },
            ),
            Err(error) => {
                &&& *final(table) == *old(table)
                &&& breaks_rule(error, "all inserts into a table must share the same schema"@)
            },
        },
{
    if let Some(earlier) = inner.inferred_fields {
        lemma_agree(earlier@, output@);
    }
}

/// Inserts into any other table are accepted and leave it as it is.
pub proof fn insert_into_closed_table(
    table: &mut Table,
    output: Vec<DFField>,
    done: Result<(), PlanError>,
)
    requires
        *old(table) matches Table::ConnectorTable(inner) ==> inner.fields@.len() > 0,
        call_ensures(Table::set_inferred_fields, (table, output), done),
    ensures
        done is Ok,
        *final(table) == *old(table),
{
}

/// Of two inserts into a table without declared columns, the second is accepted
/// after the first exactly if they agree at every place, and the rows then have
/// the fields of the second.
pub proof fn two_inserts(
    table: &mut Table,
    after: &mut Table,
    first: Vec<DFField>,
    second: Vec<DFField>,
    first_done: Result<(), PlanError>,
    second_done: Result<(), PlanError>,
    fields: Vec<Field>,
)
    requires
        *old(table) matches Table::ConnectorTable(inner) && inner.fields@.len() == 0,
        call_ensures(Table::set_inferred_fields, (table, first), first_done),
        first_done is Ok,
        *old(after) == *final(table),
        call_ensures(Table::set_inferred_fields, (after, second), second_done),
        call_ensures(Table::get_fields, (&*final(after),), fields),
    ensures
        second_done is Ok <==> agree(first@, second@),
        second_done is Ok ==> are_output_fields(fields@, second@),
        second_done is Err ==> are_output_fields(fields@, first@),
{
    lemma_agree(first@, second@);
    if second_done is Ok {
        lemma_output_fields(fields@, second@);
    } else {
        lemma_output_fields(fields@, first@);
    }
}

/// An insert is refused if its query could not be planned, if there is no table,
/// or if an earlier insert disagrees. No insert changes another table.
pub proof fn insert_by_name(
    catalog: &mut TableCatalog,
    key: String,
    name: String,
    output: Result<Vec<DFField>, DataFusionError>,
    done: Result<(), PlanError>,
)
    requires
        call_ensures(infer_sink_schema, (catalog, &key, &name, output), done),
    ensures
        forall|k: Seq<char>|
            k != key@ || done is Err ==> #[trigger] final(catalog).table(k) == old(catalog).table(k),
        match output {
            Err(e) => done == Err::<(), PlanError>(PlanError::Engine(e)),
            Ok(fields) => match old(catalog).table(key@) {
                None => done matches Err(error) && breaks_rule(
                    error,
                    "table "@ + name@ + " not found"@,
                ),
                Some(Table::ConnectorTable(inner)) => if inner.fields@.len() > 0 {
                    &&& done is Ok
                    &&& final(catalog).table(key@) == old(catalog).table(key@)
                } else if inner.inferred_fields is Some && !agree(
                    inner.inferred_fields->0@,
                    fields@,
                ) {
                    done matches Err(error) && breaks_rule(
                        error,
                        "all inserts into a table must share the same schema"@,
                    )
                } else {
                    &&& done is Ok
                    &&& final(catalog).table(key@) == Some(
                        Table::ConnectorTable(
                            ConnectorTable { inferred_fields: Some(fields), ..inner },
                        ),
                    )
                },
                Some(_) => {
                    &&& done is Ok
                    &&& final(catalog).table(key@) == old(catalog).table(key@)
                },
            },
        },
{
    if let Ok(fields) = output {
        if let Some(Table::ConnectorTable(inner)) = old(catalog).table(key@) {
            if let Some(earlier) = inner.inferred_fields {
                lemma_agree(earlier@, fields@);
            }
        }
    }
}

/// A filed table is found under its key, and filing it changes no other key.
pub proof fn filed_table_found(
    catalog: &mut TableCatalog,
    key: String,
    table: Table,
    other: String,
    found: Option<&Table>,
    elsewhere: Option<&Table>,
)
    requires
        call_ensures(TableCatalog::insert_table, (catalog, key, table), ()),
        call_ensures(TableCatalog::get_table, (&*final(catalog), &key), found),
        call_ensures(TableCatalog::get_table, (&*final(catalog), &other), elsewhere),
        other@ != key@,
    ensures
        found == Some(&table),
        match elsewhere {
            Some(table) => old(catalog).table(other@) == Some(*table),
            None => old(catalog).table(other@) is None,
        },
{
}

/// A copied catalog has the same table under each key, and a new one has none.
pub proof fn copying_catalog(
    catalog: TableCatalog,
    copy: TableCatalog,
    fresh: TableCatalog,
    key: Seq<char>,
)
    requires
        call_ensures(TableCatalog::clone, (&catalog,), copy),
        call_ensures(TableCatalog::new, (), fresh),
    ensures
        match catalog.table(key) {
            Some(table) => copy.table(key) matches Some(other) && other.says_same(table),
            None => copy.table(key) is None,
        },
        fresh.table(key) is None,
{
    assert(crate::table_catalog::same_entry(copy.table(key), catalog.table(key)));
}

} // verus!
