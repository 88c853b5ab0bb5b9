//! Reading the tables of connectors.
use vstd::prelude::*;

use crate::connector_table::{
    Connection, ConnectionType, ConnectorOp, ConnectorTable, FieldSpec, FieldSpecView,
    ProcessingMode, Schema, SourceOperator, fields_of, has_time_field, has_virtual, spec_views,
    stored, stored_fields,
};
use crate::error::PlanError;
use crate::laws::terms::{
    are_stored_fields, breaks_rule, column_field, computes_columns, is_timestamp_named,
    lemma_stored_rank, names_timestamp, stored_before, updates,
};
use crate::outside::column_named;
use crate::schema::{Field, field_views};
use crate::time_span::TimeSpan;
use datafusion::logical_expr::Expr;

verus! {

proof fn lemma_columns(table: ConnectorTable)
    ensures
        table.view().fields.len() == table.fields@.len(),
        forall|i: int|
            0 <= i < table.fields@.len() ==> (#[trigger] table.view().fields[i])
                == table.fields@[i].view(),
        forall|i: int|
            0 <= i < table.fields@.len() ==> (#[trigger] table.fields@[i]).view()
                == table.view().fields[i],
{
}

proof fn lemma_time_field(table: ConnectorTable, name: Seq<char>)
    ensures
        has_time_field(table.view().fields, name) == names_timestamp(table, name),
{
    lemma_columns(table);
    if has_time_field(table.view().fields, name) {
        let i = choose|i: int|
            0 <= i < table.view().fields.len() && (
            #[trigger] table.view().fields[i]).is_time_field(name);
        assert(is_timestamp_named(table.fields@[i], name));
    }
    if names_timestamp(table, name) {
        let i = choose|i: int|
            0 <= i < table.fields@.len() && is_timestamp_named(
                #[trigger] table.fields@[i],
                name,
            );
        assert(table.view().fields[i].is_time_field(name));
    }
}

proof fn lemma_computed(table: ConnectorTable)
    ensures
        crate::connector_table::any_virtual(table.view().fields) == computes_columns(table),
{
    lemma_columns(table);
    if computes_columns(table) {
        let i = choose|i: int|
            0 <= i < table.fields@.len() && (#[trigger] table.fields@[i]) is Virtual;
        assert(table.view().fields[i] is Virtual);
    }
    if crate::connector_table::any_virtual(table.view().fields) {
        let i = choose|i: int|
            0 <= i < table.view().fields.len() && (#[trigger] table.view().fields[i]) is Virtual;
        assert(table.fields@[i] is Virtual);
    }
}

proof fn lemma_stored_fields(fields: Seq<Field>, columns: Seq<FieldSpec>)
    requires
        field_views(fields) == fields_of(stored(spec_views(columns))),
    ensures
        are_stored_fields(fields, columns),
{
    lemma_stored_rank(columns);
    let kept = stored(spec_views(columns));
    assert(field_views(fields).len() == fields.len());
    assert(fields_of(kept).len() == kept.len());
    assert forall|i: int| 0 <= i < columns.len() && !((#[trigger] columns[i]) is Virtual) implies
        fields[stored_before(columns, i) as int].view() == column_field(columns[i]).view() by {
        let r = stored_before(columns, i) as int;
        assert(field_views(fields)[r] == fields[r].view());
        assert(fields_of(kept)[r] == kept[r].field());
    }
}

/// A table can be read exactly if it is a source, does not compute columns while
/// its rows are updates, has a timestamp column of whichever kind under the name
/// of its event time, which updates do not have, and one under the name of its
/// watermark.
pub proof fn readable(table: ConnectorTable, source: Result<SourceOperator, PlanError>)
    requires
        call_ensures(ConnectorTable::as_sql_source, (&table,), source),
    ensures
        source is Ok <==> {
            &&& table.connection_type == ConnectionType::Source
            &&& !(updates(table) && computes_columns(table))
            &&& (table.event_time_field matches Some(name) ==> !updates(table)
                && names_timestamp(table, name@))
            &&& (table.watermark_field matches Some(name) ==> names_timestamp(table, name@))
        },
{
    lemma_computed(table);
    if let Some(name) = table.event_time_field {
        lemma_time_field(table, name@);
    }
    if let Some(name) = table.watermark_field {
        lemma_time_field(table, name@);
    }
}

/// The first reason for which a table cannot be read is the one that is given.
pub proof fn unreadable(table: ConnectorTable, source: Result<SourceOperator, PlanError>)
    requires
        call_ensures(ConnectorTable::as_sql_source, (&table,), source),
    ensures
        source matches Err(error) ==> {
            if table.connection_type != ConnectionType::Source {
                breaks_rule(error, "cannot read from sink"@)
            } else if updates(table) && computes_columns(table) {
                breaks_rule(
                    error,
                    "can't read from a source with virtual fields and update mode."@,
                )
            } else if table.event_time_field is Some && updates(table) {
                breaks_rule(error, "can't use event_time_field with update mode."@)
            } else if table.event_time_field is Some && !names_timestamp(
                table,
                table.event_time_field->0@,
            ) {
                breaks_rule(
                    error,
                    "field "@ + table.event_time_field->0@ + " not found or not a timestamp"@,
                )
            } else {
                &&& table.watermark_field matches Some(name)
                &&& breaks_rule(error, "field "@ + name@ + " not found or not a timestamp"@)
            }
        },
{
    lemma_computed(table);
    if let Some(name) = table.event_time_field {
        lemma_time_field(table, name@);
    }
    if let Some(name) = table.watermark_field {
        lemma_time_field(table, name@);
    }
}

/// A source has the identity, the connector, the mode and the idle time of its
/// table, takes time from the columns that the table names, and reads the columns
/// that are not computed in their order.
pub proof fn source_of_table(table: ConnectorTable, source: SourceOperator)
    requires
        call_ensures(
            ConnectorTable::as_sql_source,
            (&table,),
            Ok::<SourceOperator, PlanError>(source),
        ),
    ensures
        source.name@ == table.name@,
        source.source.id == table.id,
        source.source.config.connector@ == table.connector@,
        source.source.config.config@ == table.config@,
        source.source.config.description@ == table.description@,
        source.source.idle_time == table.idle_time,
        source.source.processing_mode is Update <==> updates(table),
        are_stored_fields(source.source.struct_def@, table.fields@),
        match table.event_time_field {
            Some(name) => source.timestamp_override == Some(column_named(name@)),
            None => source.timestamp_override is None,
        },
        match table.watermark_field {
            Some(name) => source.watermark_column == Some(column_named(name@)),
            None => source.watermark_column is None,
        },
{
    lemma_stored_fields(source.source.struct_def@, table.fields@);
}

/// The physical schema has the columns that are not computed in their order.
pub proof fn physical_schema_of_table(table: ConnectorTable, schema: Schema)
    requires
        call_ensures(ConnectorTable::physical_schema, (&table,), schema),
    ensures
        are_stored_fields(schema.fields@, table.fields@),
{
    lemma_stored_fields(schema.fields@, table.fields@);
}

/// Copying the columns that are not computed keeps their order.
pub proof fn stored_fields_of_columns(columns: Vec<FieldSpec>, fields: Vec<Field>)
    requires
        call_ensures(stored_fields, (&columns,), fields),
    ensures
        are_stored_fields(fields@, columns@),
{
    lemma_stored_fields(fields@, columns@);
}

/// Event time is taken from any timestamp column with the name, unless the rows
/// are updates.
pub proof fn event_time_column(
    table: ConnectorTable,
    column: Result<Option<Expr>, PlanError>,
)
    requires
        call_ensures(ConnectorTable::timestamp_override, (&table,), column),
    ensures
        match table.event_time_field {
            None => column matches Ok(None),
            Some(name) => if updates(table) {
                column matches Err(e) && breaks_rule(
                    e,
                    "can't use event_time_field with update mode."@,
                )
            } else if names_timestamp(table, name@) {
                column == Ok::<Option<Expr>, PlanError>(Some(column_named(name@)))
            } else {
                column matches Err(e) && breaks_rule(
                    e,
                    "field "@ + name@ + " not found or not a timestamp"@,
                )
            },
        },
{
    if let Some(name) = table.event_time_field {
        lemma_time_field(table, name@);
    }
}

/// The watermark is taken from any timestamp column with the name.
pub proof fn watermark_column(table: ConnectorTable, column: Result<Option<Expr>, PlanError>)
    requires
        call_ensures(ConnectorTable::watermark_column, (&table,), column),
    ensures
        match table.watermark_field {
            None => column matches Ok(None),
            Some(name) => if names_timestamp(table, name@) {
                column == Ok::<Option<Expr>, PlanError>(Some(column_named(name@)))
            } else {
                column matches Err(e) && breaks_rule(
                    e,
                    "field "@ + name@ + " not found or not a timestamp"@,
                )
            },
        },
{
    if let Some(name) = table.watermark_field {
        lemma_time_field(table, name@);
    }
}

/// The time field is the first column, of whichever kind, that is a timestamp
/// with the name.
pub proof fn first_time_field(
    table: ConnectorTable,
    name: String,
    found: Result<&FieldSpec, PlanError>,
)
    requires
        call_ensures(ConnectorTable::get_time_field, (&table, &name), found),
    ensures
        match found {
            Ok(column) => exists|i: int|
                {
                    &&& 0 <= i < table.fields@.len()
                    &&& *column == #[trigger] table.fields@[i]
                    &&& is_timestamp_named(*column, name@)
                    &&& forall|j: int|
                        0 <= j < i ==> !is_timestamp_named(#[trigger] table.fields@[j], name@)
                },
            Err(error) => {
                &&& !names_timestamp(table, name@)
                &&& breaks_rule(error, "field "@ + name@ + " not found or not a timestamp"@)
            },
        },
{
    lemma_time_field(table, name@);
    lemma_columns(table);
    if let Ok(column) = found {
        let i = choose|i: int|
            {
                &&& 0 <= i < table.fields@.len()
                &&& *column == #[trigger] table.fields@[i]
                &&& column.view().is_time_field(name@)
                &&& forall|j: int|
                    0 <= j < i ==> !(#[trigger] table.fields@[j]).view().is_time_field(name@)
            };
        assert(is_timestamp_named(*column, name@));
        assert forall|j: int| 0 <= j < i implies !is_timestamp_named(
            #[trigger] table.fields@[j],
            name@,
        ) by {
            assert(!table.fields@[j].view().is_time_field(name@));
        }
    }
}

/// Whether a column is computed, its field and its key are read off its kind.
pub proof fn column_parts(
    column: FieldSpec,
    computed: bool,
    field: &Field,
    key: Option<&str>,
)
    requires
        call_ensures(FieldSpec::is_virtual, (&column,), computed),
        call_ensures(FieldSpec::field, (&column,), field),
        call_ensures(FieldSpec::metadata_key, (&column,), key),
    ensures
        computed <==> column is Virtual,
        *field == column_field(column),
        match column {
            FieldSpec::Metadata { key: own, .. } => key matches Some(key) && key@ == own@,
            _ => key is None,
        },
{
}

/// Whether columns are computed, rows are updates, and what an operator is told,
/// are read off the table.
pub proof fn table_parts(
    table: ConnectorTable,
    columns: Vec<FieldSpec>,
    computes: bool,
    among: bool,
    updating: bool,
    mode: ProcessingMode,
    op: ConnectorOp,
)
    requires
        call_ensures(ConnectorTable::has_virtual_fields, (&table,), computes),
        call_ensures(has_virtual, (&columns,), among),
        call_ensures(ConnectorTable::is_updating, (&table,), updating),
        call_ensures(ConnectorTable::processing_mode, (&table,), mode),
        call_ensures(ConnectorTable::connector_op, (&table,), op),
    ensures
        computes == computes_columns(table),
        among == exists|i: int| 0 <= i < columns@.len() && (#[trigger] columns@[i]) is Virtual,
        updating == updates(table),
        mode is Update <==> updates(table),
        op.connector@ == table.connector@,
        op.config@ == table.config@,
        op.description@ == table.description@,
{
    lemma_computed(table);
    let views = spec_views(columns@);
    if among {
        let i = choose|i: int| 0 <= i < views.len() && (#[trigger] views[i]) is Virtual;
        assert(columns@[i] is Virtual);
    } else {
        assert forall|i: int| 0 <= i < columns@.len() implies !((
        #[trigger] columns@[i]) is Virtual) by {
            assert(!(views[i] is Virtual));
        }
    }
}

/// A connection is a table with its identity, its format and its fields as
/// columns, and with nothing but the default idle time set.
pub proof fn connection_as_table(
    connection: Connection,
    default_idle_time: Option<TimeSpan>,
    table: ConnectorTable,
)
    requires
        call_ensures(ConnectorTable::from, (connection, default_idle_time), table),
    ensures
        table.id == connection.id,
        table.connector@ == connection.connector@,
        table.name@ == connection.name@,
        table.connection_type == connection.connection_type,
        table.config@ == connection.config@,
        table.description@ == connection.description@,
        table.format == connection.format,
        table.event_time_field is None,
        table.watermark_field is None,
        table.idle_time == default_idle_time,
        table.primary_keys@.len() == 0,
        table.inferred_fields is None,
        table.lookup_cache_max_bytes is None,
        table.lookup_cache_ttl is None,
        table.fields@.len() == connection.fields@.len(),
        forall|i: int|
            0 <= i < connection.fields@.len() ==> (#[trigger] table.fields@[i]) is Struct
                && table.fields@[i]->Struct_0.view() == connection.fields@[i].view(),
{
    lemma_columns(table);
    assert(table.view().primary_keys.len() == 0);
    assert forall|i: int| 0 <= i < connection.fields@.len() implies (
    #[trigger] table.fields@[i]) is Struct && table.fields@[i]->Struct_0.view()
        == connection.fields@[i].view() by {
        assert(table.view().fields[i] == FieldSpecView::Struct(connection.fields@[i].view()));
    }
}

} // verus!
