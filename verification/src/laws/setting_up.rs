//! Setting up the tables of connectors, call by call.
use vstd::prelude::*;

use crate::connector_table::{
    Connection, ConnectorTable, FieldSpec, Format, fields_of, spec_views, stored,
};
use crate::error::PlanError;
use crate::from_options::{
    BadData, ConnectionSchema, Framing, NeedBadData, NeedConnection, NeedConnector, NeedFormat,
    NeedFraming, NeedSchema, NeedSourceFields, SchemaColumn, SourceField, column_views,
    first_failure, is_description, plain_columns,
};
use crate::laws::options::{
    has_negative_days, interval_of, is_outcome, lemma_negative_days, lemma_outcome,
};
use crate::laws::terms::{breaks_rule, column_field, lemma_stored_rank, stored_before};
use crate::schema::{DataTypeView, FieldView, ScalarType, TimeUnit};
use crate::string_map::StringMap;
use crate::time_span::TimeSpan;

verus! {

/// Whether a column is stored as Delta Lake does it: a timestamp without a zone
/// in microseconds, everything else as it is.
pub open spec fn is_stored_by_delta(stored_column: FieldSpec, column: FieldSpec) -> bool {
    &&& stored_column is Struct
    &&& {
        let after = column_field(stored_column).view();
        let before = column_field(column).view();
        &&& after.name == before.name
        &&& after.nullable == before.nullable
        &&& after.dict_id == before.dict_id
        &&& after.dict_is_ordered == before.dict_is_ordered
        &&& after.metadata == before.metadata
        &&& after.data_type == if before.data_type matches DataTypeView::Timestamp(_, None) {
            DataTypeView::Timestamp(TimeUnit::Microsecond, None)
        } else {
            before.data_type
        }
    }
}

/// Whether the columns are stored as the connector does it: Delta Lake in its own
/// way, every other one as they are.
pub open spec fn are_stored_by(
    connector: Seq<char>,
    stored_columns: Seq<FieldSpec>,
    columns: Seq<FieldSpec>,
) -> bool {
    &&& stored_columns.len() == columns.len()
    &&& forall|i: int|
        0 <= i < columns.len() ==> if connector == "delta"@ {
            is_stored_by_delta(#[trigger] stored_columns[i], columns[i])
        } else {
            stored_columns[i].view() == columns[i].view()
        }
}

pub(crate) proof fn lemma_stored_by(
    connector: Seq<char>,
    stored_columns: Seq<FieldSpec>,
    columns: Seq<FieldSpec>,
)
    requires
        spec_views(stored_columns) == crate::from_options::connector_columns(
            connector,
            spec_views(columns),
        ),
        connector == "delta"@ ==> forall|i: int|
            0 <= i < columns.len() ==> (#[trigger] columns[i]) is Struct,
    ensures
        are_stored_by(connector, stored_columns, columns),
{
    let views = spec_views(columns);
    let after = crate::from_options::connector_columns(connector, views);
    assert(spec_views(stored_columns).len() == stored_columns.len());
    assert(views.len() == columns.len());
    assert(after.len() == columns.len());
    assert forall|i: int| 0 <= i < columns.len() implies if connector == "delta"@ {
        is_stored_by_delta(#[trigger] stored_columns[i], columns[i])
    } else {
        stored_columns[i].view() == columns[i].view()
    } by {
        assert(spec_views(stored_columns)[i] == stored_columns[i].view());
        assert(views[i] == columns[i].view());
        if connector == "delta"@ {
            assert(columns[i] is Struct);
            assert(after[i] == crate::from_options::delta_column(views[i]));
        }
    }
}

/// Setting up starts with what was asked for, and with the columns as the
/// connector stores them.
pub proof fn request_started(
    name: String,
    connector: String,
    temporary: bool,
    fields: Vec<FieldSpec>,
    primary_keys: Vec<String>,
    options: StringMap,
    profile: Option<String>,
    default_idle_time: Option<TimeSpan>,
    stage: NeedConnector,
)
    requires
        connector@ == "delta"@ ==> forall|i: int|
            0 <= i < fields@.len() ==> (#[trigger] fields@[i]) is Struct,
        call_ensures(
            ConnectorTable::from_options,
            (
                name,
                connector,
                temporary,
                fields,
                primary_keys,
                options,
                profile,
                default_idle_time,
            ),
            stage,
        ),
    ensures
        stage.request.name == name,
        stage.request.connector == connector,
        stage.request.temporary == temporary,
        are_stored_by(connector@, stage.request.fields@, fields@),
        stage.request.primary_keys == primary_keys,
        stage.request.profile == profile,
        stage.request.default_idle_time == default_idle_time,
        stage.options == options,
{
    lemma_stored_by(connector@, stage.request.fields@, fields@);
}

/// A connector that is not found is named, and one that is found changes nothing
/// of what was asked for.
pub proof fn connector_looked_up(
    stage: NeedConnector,
    found: bool,
    next: Result<NeedFormat, PlanError>,
)
    requires
        call_ensures(NeedConnector::resume, (stage, found), next),
    ensures
        match next {
            Ok(next) => found && next.request == stage.request && next.options == stage.options,
            Err(e) => !found && breaks_rule(
                e,
                "Unknown connector '"@ + stage.request.connector@ + "'"@,
            ),
        },
{
}

/// A format that cannot be parsed is refused with the reason.
pub proof fn format_parsed(
    stage: NeedFormat,
    format: Result<Option<Format>, String>,
    options: StringMap,
    next: Result<NeedFraming, PlanError>,
)
    requires
        call_ensures(NeedFormat::resume, (stage, format, options), next),
    ensures
        match format {
            Ok(format) => next matches Ok(next) && next.format == format && next.request
                == stage.request && next.options == options,
            Err(reason) => next matches Err(e) && breaks_rule(
                e,
                "invalid format: '"@ + reason@ + "'"@,
            ),
        },
{
}

/// Whether the messages are Debezium envelopes in JSON.
pub open spec fn has_envelopes(format: Option<Format>) -> bool {
    format matches Some(format) && format.debezium_json
}

/// Whether one of the columns is computed.
pub open spec fn any_computed(columns: Seq<FieldSpec>) -> bool {
    exists|i: int| 0 <= i < columns.len() && (#[trigger] columns[i]) is Virtual
}

/// Whether the field has nothing but name, type and nullability.
pub open spec fn is_bare(
    field: FieldView,
    name: Seq<char>,
    data_type: DataTypeView,
    nullable: bool,
) -> bool {
    &&& field.name == name
    &&& field.data_type == data_type
    &&& field.nullable == nullable
    &&& field.dict_id == 0
    &&& !field.dict_is_ordered
    &&& field.metadata == Map::<Seq<char>, Seq<char>>::empty()
}

/// Whether the columns are those of an envelope around rows of the table.
pub open spec fn is_envelope(message: Seq<SchemaColumn>, columns: Seq<FieldSpec>) -> bool {
    let row = DataTypeView::Struct(
        Seq::new(columns.len(), |i: int| column_field(columns[i]).view()),
    );
    &&& message.len() == 3
    &&& is_bare(message[0].field.view(), "before"@, row, true)
    &&& is_bare(message[1].field.view(), "after"@, row, true)
    &&& is_bare(
        message[2].field.view(),
        "op"@,
        DataTypeView::Scalar(ScalarType::Utf8),
        false,
    )
    &&& message[0].metadata_key is None
    &&& message[1].metadata_key is None
    &&& message[2].metadata_key is None
}

/// Whether the columns are those of the table that are not computed, in their
/// order, each with its key if it holds metadata.
pub open spec fn is_plain_message(message: Seq<SchemaColumn>, columns: Seq<FieldSpec>) -> bool {
    &&& message.len() == stored_before(columns, columns.len() as int)
    &&& forall|i: int|
        0 <= i < columns.len() && !((#[trigger] columns[i]) is Virtual) ==> {
            let column = message[stored_before(columns, i) as int];
            &&& column.field.view() == column_field(columns[i]).view()
            &&& match columns[i] {
                FieldSpec::Metadata { key, .. } => column.metadata_key matches Some(own) && own@
                    == key@,
                _ => column.metadata_key is None,
            }
        }
}

/// A message has an envelope if the format has them, and else the columns that
/// are not computed. A temporary table is one for lookups. What stands against
/// this is told: first a framing that cannot be parsed, then another type, then
/// computed columns in an envelope.
pub proof fn framing_parsed(
    stage: NeedFraming,
    framing: Result<Option<Framing>, String>,
    options: StringMap,
    next: Result<NeedSourceFields, PlanError>,
)
    requires
        call_ensures(NeedFraming::resume, (stage, framing, options), next),
    ensures
        ({
            let columns = stage.request.fields@;
            let other_type = stage.request.temporary && options@.contains_key("type"@)
                && options@["type"@] != "lookup"@;
            &&& next is Ok <==> {
                &&& framing is Ok
                &&& !other_type
                &&& !(has_envelopes(stage.format) && any_computed(columns))
            }
            &&& match next {
                Ok(next) => {
                    &&& framing == Ok::<Option<Framing>, String>(next.framing)
                    &&& next.request == stage.request
                    &&& next.format == stage.format
                    &&& if has_envelopes(stage.format) {
                        is_envelope(next.columns@, columns)
                    } else {
                        is_plain_message(next.columns@, columns)
                    }
                    &&& if stage.request.temporary {
                        &&& next.options@ == options@.insert("type"@, "lookup"@)
                        &&& next.options.key_list() == if options@.contains_key("type"@) {
                            options.key_list()
                        } else {
                            options.key_list().push("type"@)
                        }
                    } else {
                        next.options == options
                    }
                },
                Err(e) => if let Err(reason) = framing {
                    breaks_rule(e, "invalid framing: '"@ + reason@ + "'"@)
                } else if other_type {
                    breaks_rule(
                        e,
                        "Cannot have a temporary table with type '"@ + options@["type"@]
                            + "'; temporary tables must be type 'lookup'"@,
                    )
                } else {
                    breaks_rule(e, "can't use virtual fields with debezium format"@)
                },
            }
        }),
{
    let columns = stage.request.fields@;
    lemma_any_computed(columns);
    if let Ok(next) = next {
        let message = next.columns@;
        assert(column_views(message).len() == message.len());
        if has_envelopes(stage.format) {
            assert(column_views(message)[0] == message[0].view());
            assert(column_views(message)[1] == message[1].view());
            assert(column_views(message)[2] == message[2].view());
            assert(spec_views(columns).len() == columns.len());
            assert(fields_of(spec_views(columns)) =~= Seq::new(
                columns.len(),
                |i: int| column_field(columns[i]).view(),
            ));
        } else {
            lemma_plain_message(message, columns);
        }
    }
}

proof fn lemma_any_computed(columns: Seq<FieldSpec>)
    ensures
        crate::connector_table::any_virtual(spec_views(columns)) == any_computed(columns),
{
    let views = spec_views(columns);
    assert(views.len() == columns.len());
    if any_computed(columns) {
        let i = choose|i: int| 0 <= i < columns.len() && (#[trigger] columns[i]) is Virtual;
        assert(views[i] is Virtual);
    }
    if crate::connector_table::any_virtual(views) {
        let i = choose|i: int| 0 <= i < views.len() && (#[trigger] views[i]) is Virtual;
        assert(columns[i] is Virtual);
    }
}

proof fn lemma_plain_message(message: Seq<SchemaColumn>, columns: Seq<FieldSpec>)
    requires
        column_views(message) == plain_columns(stored(spec_views(columns))),
    ensures
        is_plain_message(message, columns),
{
    let kept = stored(spec_views(columns));
    lemma_stored_rank(columns);
    assert(column_views(message).len() == message.len());
    assert(plain_columns(kept).len() == kept.len());
    assert forall|i: int| 0 <= i < columns.len() && !((#[trigger] columns[i]) is Virtual) implies {
        let column = message[stored_before(columns, i) as int];
        &&& column.field.view() == column_field(columns[i]).view()
        &&& match columns[i] {
            FieldSpec::Metadata { key, .. } => column.metadata_key matches Some(own) && own@
                == key@,
            _ => column.metadata_key is None,
        }
    } by {
        let r = stored_before(columns, i) as int;
        assert(column_views(message)[r] == message[r].view());
        assert(plain_columns(kept)[r].field == kept[r].field());
        assert(plain_columns(kept)[r].metadata_key == kept[r].metadata_key());
    }
}

/// Whether the description is the one that came back, with the column's own key
/// if it holds metadata.
pub open spec fn describes(
    described: SourceField,
    column: SchemaColumn,
    converted: SourceField,
) -> bool {
    &&& described.definition@ == converted.definition@
    &&& match column.metadata_key {
        Some(key) => described.metadata_key matches Some(own) && own@ == key@,
        None => match converted.metadata_key {
            Some(key) => described.metadata_key matches Some(own) && own@ == key@,
            None => described.metadata_key is None,
        },
    }
}

/// All columns are described, or the first that cannot be is named.
pub proof fn columns_described(
    stage: NeedSourceFields,
    converted: Vec<Result<SourceField, String>>,
    next: Result<NeedBadData, PlanError>,
)
    requires
        converted@.len() == stage.columns@.len(),
        call_ensures(NeedSourceFields::resume, (stage, converted), next),
    ensures
        next is Ok <==> forall|i: int|
            0 <= i < converted@.len() ==> (#[trigger] converted@[i]) is Ok,
        next matches Ok(next) ==> {
            &&& next.schema_fields@.len() == stage.columns@.len()
            &&& forall|i: int|
                0 <= i < stage.columns@.len() ==> describes(
                    #[trigger] next.schema_fields@[i],
                    stage.columns@[i],
                    converted@[i]->Ok_0,
                )
            &&& next.request == stage.request
            &&& next.options == stage.options
            &&& next.format == stage.format
            &&& next.framing == stage.framing
        },
        next matches Err(e) ==> exists|i: int|
            {
                &&& 0 <= i < converted@.len()
                &&& (#[trigger] converted@[i]) matches Err(data_type)
                &&& forall|j: int| 0 <= j < i ==> (#[trigger] converted@[j]) is Ok
                &&& breaks_rule(
                    e,
                    "field '"@ + stage.columns@[i].field.name@ + "' has a type '"@ + data_type@
                        + "' that cannot be used in a connection table"@,
                )
            },
{
    match next {
        Ok(next) => {
            assert forall|i: int| 0 <= i < stage.columns@.len() implies describes(
                #[trigger] next.schema_fields@[i],
                stage.columns@[i],
                converted@[i]->Ok_0,
            ) by {
                assert(is_description(
                    next.schema_fields@[i],
                    stage.columns@[i].view(),
                    converted@[i],
                ));
            }
        },
        Err(e) => {
            let i = choose|i: int| #[trigger]
                first_failure(converted@, i) && e.view() == crate::from_options::column_type_error(
                    stage.columns@[i].view().field.name,
                    converted@[i]->Err_0@,
                );
            assert(converted@[i] is Err);
        },
    }
}

/// The schema is built of what was parsed, and inferred if no columns are
/// declared.
pub proof fn bad_data_parsed(
    stage: NeedBadData,
    bad_data: Result<Option<BadData>, String>,
    options: StringMap,
    next: Result<NeedSchema, PlanError>,
)
    requires
        call_ensures(NeedBadData::resume, (stage, bad_data, options), next),
    ensures
        match bad_data {
            Ok(bad_data) => {
                &&& next matches Ok(next)
                &&& next.bad_data == bad_data
                &&& next.request == stage.request
                &&& next.options == options
                &&& next.format == stage.format
                &&& next.framing == stage.framing
                &&& next.schema_fields == stage.schema_fields
                &&& next.struct_name is None
                &&& next.definition is None
                &&& next.inferred == Some(stage.request.fields@.len() == 0)
            },
            Err(reason) => next matches Err(e) && breaks_rule(
                e,
                "Invalid bad_data: '"@ + reason@ + "'"@,
            ),
        },
{
}

/// A schema that cannot be built is refused with the reason.
pub proof fn schema_built(
    stage: NeedSchema,
    schema: Result<ConnectionSchema, String>,
    next: Result<NeedConnection, PlanError>,
)
    requires
        call_ensures(NeedSchema::resume, (stage, schema), next),
    ensures
        match schema {
            Ok(schema) => next matches Ok(next) && next.schema == schema && next.request
                == stage.request && next.options == stage.options,
            Err(reason) => next matches Err(e) && breaks_rule(
                e,
                "could not create connection schema: "@ + reason@,
            ),
        },
{
}

/// A connection becomes a table with the columns and keys of the request, by the
/// options that are left, and one that cannot be set up is refused with the
/// reason alone.
pub proof fn connection_made(
    stage: NeedConnection,
    connection: Result<Connection, String>,
    options: StringMap,
    outcome: Option<Result<ConnectorTable, PlanError>>,
)
    requires
        call_ensures(NeedConnection::resume, (stage, connection, options), outcome),
    ensures
        match connection {
            Ok(connection) => {
                &&& outcome is None <==> has_negative_days(options@, interval_of(options@))
                &&& outcome matches Some(outcome) ==> is_outcome(
                    connection,
                    stage.request.fields@,
                    stage.request.primary_keys@,
                    options,
                    stage.request.default_idle_time,
                    interval_of(options@),
                    outcome,
                )
            },
            Err(reason) => outcome matches Some(Err(e)) && breaks_rule(e, reason@),
        },
{
    if let Ok(connection) = connection {
        lemma_negative_days(options@, stage.request.default_idle_time);
        if let Some(outcome) = outcome {
            lemma_outcome(
                connection,
                stage.request.fields@,
                stage.request.primary_keys@,
                options,
                stage.request.default_idle_time,
                interval_of(options@),
                outcome,
            );
        }
    }
}

} // verus!
