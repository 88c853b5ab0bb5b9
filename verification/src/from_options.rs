//! Setting up the table of a connector from the options of a statement.
//!
//! The connector crates parse and check their own options. Each stage here
//! holds what the next call into them is made with, and takes what comes back:
//! [`NeedConnector`], [`NeedFormat`], [`NeedFraming`], [`NeedSourceFields`],
//! [`NeedBadData`], [`NeedSchema`] and [`NeedConnection`], in this order.
use vstd::prelude::*;

use crate::connector_table::{
    Connection, ConnectorTable, ConnectorTableView, FieldSpec, FieldSpecView, Format, any_virtual,
    copy_columns, fields_of, has_virtual, lemma_stored_push, spec_views, stored,
};
use crate::error::{ErrorView, PlanError};
use crate::schema::{DataType, DataTypeView, Field, FieldView, ScalarType, TimeUnit};
use crate::settings::{option_value, settled_table, ttl_interval, ttl_out_of_range};
use crate::string_map::StringMap;
use crate::text::{is_text, spelled, spelled_option};
use crate::time_span::TimeSpan;

verus! {

/// What a statement asks of a connector.
#[derive(Debug)]
pub struct TableRequest {
    /// The name of the table.
    pub name: String,
    /// The name of the connector.
    pub connector: String,
    /// Whether the table is temporary, and so only good for lookups.
    pub temporary: bool,
    /// The columns that the statement defines.
    pub fields: Vec<FieldSpec>,
    /// The names of the primary key columns.
    pub primary_keys: Vec<String>,
    /// The name of the connection profile to use.
    pub profile: Option<String>,
    /// How long a source may be idle where the options do not say it.
    pub default_idle_time: Option<TimeSpan>,
}

/// How the bytes of a connection are split into messages.
#[derive(Debug, PartialEq, Eq)]
pub struct Framing {
    /// The whole definition as the connector crates write it.
    pub definition: String,
}

/// What becomes of messages that cannot be decoded.
#[derive(Debug, PartialEq, Eq)]
pub struct BadData {
    /// The whole definition as the connector crates write it.
    pub definition: String,
}

/// A field as the connector crates describe it.
#[derive(Debug, PartialEq, Eq)]
pub struct SourceField {
    /// The whole definition as the connector crates write it, but for the key.
    pub definition: String,
    /// The key of the metadata that the field holds.
    pub metadata_key: Option<String>,
}

/// A schema as the connector crates describe it.
#[derive(Debug, PartialEq, Eq)]
pub struct ConnectionSchema {
    /// The whole definition as the connector crates write it.
    pub definition: String,
}

/// A column of a message that is to be described to the connector crates.
#[derive(Debug, PartialEq, Eq)]
pub struct SchemaColumn {
    pub field: Field,
    /// The key of the metadata that the column holds.
    pub metadata_key: Option<String>,
}

/// What a [`SchemaColumn`] says.
pub struct SchemaColumnView {
    pub field: FieldView,
    pub metadata_key: Option<Seq<char>>,
}

/// The connector has to be found by its name.
#[derive(Debug)]
pub struct NeedConnector {
    pub request: TableRequest,
    pub options: StringMap,
}

/// The format has to be parsed from the options.
#[derive(Debug)]
pub struct NeedFormat {
    pub request: TableRequest,
    pub options: StringMap,
}

/// The framing has to be parsed from the options.
#[derive(Debug)]
pub struct NeedFraming {
    pub request: TableRequest,
    pub options: StringMap,
    pub format: Option<Format>,
}

/// The columns of a message have to be described to the connector crates.
#[derive(Debug)]
pub struct NeedSourceFields {
    pub request: TableRequest,
    pub options: StringMap,
    pub format: Option<Format>,
    pub framing: Option<Framing>,
    pub columns: Vec<SchemaColumn>,
}

/// The treatment of bad data has to be parsed from the options.
#[derive(Debug)]
pub struct NeedBadData {
    pub request: TableRequest,
    pub options: StringMap,
    pub format: Option<Format>,
    pub framing: Option<Framing>,
    pub schema_fields: Vec<SourceField>,
}

/// The schema has to be built. Its primary keys are those of the request.
#[derive(Debug)]
pub struct NeedSchema {
    pub request: TableRequest,
    pub options: StringMap,
    pub format: Option<Format>,
    pub bad_data: Option<BadData>,
    pub framing: Option<Framing>,
    pub struct_name: Option<String>,
    pub schema_fields: Vec<SourceField>,
    pub definition: Option<String>,
    pub inferred: Option<bool>,
}

/// The connector has to set the connection up.
#[derive(Debug)]
pub struct NeedConnection {
    pub request: TableRequest,
    pub options: StringMap,
    pub schema: ConnectionSchema,
}

/// The column as Delta Lake stores it: a timestamp without a zone has
/// microseconds.
pub open spec fn delta_column(column: FieldSpecView) -> FieldSpecView {
    match column {
        FieldSpecView::Struct(field) => match field.data_type {
            DataTypeView::Timestamp(_, None) => FieldSpecView::Struct(
                FieldView {
                    data_type: DataTypeView::Timestamp(TimeUnit::Microsecond, None),
                    ..field
                },
            ),
            _ => column,
        },
        _ => column,
    }
}

/// The columns as the connector stores them.
pub open spec fn connector_columns(
    connector: Seq<char>,
    fields: Seq<FieldSpecView>,
) -> Seq<FieldSpecView> {
    if connector == "delta"@ {
        fields.map_values(|f: FieldSpecView| delta_column(f))
    } else {
        fields
    }
}

/// Whether each column is part of the message.
pub open spec fn all_struct(fields: Seq<FieldSpecView>) -> bool {
    forall|i: int| 0 <= i < fields.len() ==> (#[trigger] fields[i]) is Struct
}

/// The columns as the connector stores them. Delta Lake is only a sink, so it
/// has no computed columns and none for metadata.
fn store_columns(connector: &String, fields: Vec<FieldSpec>) -> (columns: Vec<FieldSpec>)
    requires
        connector@ == "delta"@ ==> all_struct(spec_views(fields@)),
    ensures
        spec_views(columns@) == connector_columns(connector@, spec_views(fields@)),
{
    if !is_text(connector, "delta") {
        return fields;
    }
    let mut columns: Vec<FieldSpec> = Vec::new();
    let ghost views = spec_views(fields@);
    for i in 0..fields.len()
        invariant
            views == spec_views(fields@),
            all_struct(views),
            columns@.len() == i,
            forall|j: int| 0 <= j < i ==> (#[trigger] columns@[j]).view() == delta_column(views[j]),
    {
        proof {
            assert(views[i as int] is Struct);
        }
        let mut field = fields[i].field().clone();
        let zoneless = match &field.data_type {
            DataType::Timestamp(_, None) => true,
            _ => false,
        };
        if zoneless {
            field.data_type = DataType::Timestamp(TimeUnit::Microsecond, None);
        }
        columns.push(FieldSpec::Struct(field));
    }
    proof {
        assert(spec_views(columns@) =~= connector_columns(connector@, views));
    }
    columns
}

impl ConnectorTable {
    /// Starts to set up the table of a connector.
    pub fn from_options(
        name: String,
        connector: String,
        temporary: bool,
        fields: Vec<FieldSpec>,
        primary_keys: Vec<String>,
        options: StringMap,
        connection_profile: Option<String>,
        default_idle_time: Option<TimeSpan>,
    ) -> (stage: NeedConnector)
        requires
            connector@ == "delta"@ ==> all_struct(spec_views(fields@)),
        ensures
            stage.request.name == name,
            stage.request.connector == connector,
            stage.request.temporary == temporary,
            spec_views(stage.request.fields@) == connector_columns(
                connector@,
                spec_views(fields@),
            ),
            stage.request.primary_keys == primary_keys,
            stage.request.profile == connection_profile,
            stage.request.default_idle_time == default_idle_time,
            stage.options == options,
    {
        let fields = store_columns(&connector, fields);
        NeedConnector {
            request: TableRequest {
                name,
                connector,
                temporary,
                fields,
                primary_keys,
                profile: connection_profile,
                default_idle_time,
            },
            options,
        }
    }
}

impl NeedConnector {
    /// Goes on with whether there is a connector of that name.
    pub fn resume(self, found: bool) -> (stage: Result<NeedFormat, PlanError>)
        ensures
            match stage {
                Ok(stage) => {
                    &&& found
                    &&& stage.request == self.request
                    &&& stage.options == self.options
                },
                Err(e) => {
                    &&& !found
                    &&& e.view() == ErrorView::Plan(
                        "Unknown connector '"@ + self.request.connector@ + "'"@,
                    )
                },
            },
    {
        if found {
            Ok(NeedFormat { request: self.request, options: self.options })
        } else {
            Err(
                PlanError::plan_around(
                    "Unknown connector '",
                    self.request.connector.as_str(),
                    "'",
                ),
            )
        }
    }
}

impl NeedFormat {
    /// Goes on with the parsed format and the options that are left.
    pub fn resume(self, format: Result<Option<Format>, String>, options: StringMap) -> (stage:
        Result<NeedFraming, PlanError>)
        ensures
            match stage {
                Ok(stage) => {
                    &&& format == Ok::<Option<Format>, String>(stage.format)
                    &&& stage.request == self.request
                    &&& stage.options == options
                },
                Err(e) => format matches Err(text) && e.view() == ErrorView::Plan(
                    "invalid format: '"@ + text@ + "'"@,
                ),
            },
    {
        match format {
            Ok(format) => Ok(NeedFraming { request: self.request, options, format }),
            Err(text) => Err(PlanError::plan_around("invalid format: '", text.as_str(), "'")),
        }
    }
}

/// Whether the messages are Debezium envelopes in JSON.
pub open spec fn is_debezium(format: Option<Format>) -> bool {
    format matches Some(format) && format.debezium_json
}

/// The columns of a Debezium envelope: the row before and after the change, and
/// the kind of change.
pub open spec fn debezium_columns(fields: Seq<FieldView>) -> Seq<SchemaColumnView> {
    let row = DataTypeView::Struct(fields);
    seq![
        SchemaColumnView { field: FieldView::plain("before"@, row, true), metadata_key: None },
        SchemaColumnView { field: FieldView::plain("after"@, row, true), metadata_key: None },
        SchemaColumnView {
            field: FieldView::plain("op"@, DataTypeView::Scalar(ScalarType::Utf8), false),
            metadata_key: None,
        },
    ]
}

/// The columns of a message: those of an envelope around the row where the
/// format has envelopes, else those that are not computed.
pub open spec fn message_columns(fields: Seq<FieldSpecView>, format: Option<Format>) -> Seq<
    SchemaColumnView,
> {
    if is_debezium(format) {
        debezium_columns(fields_of(fields))
    } else {
        plain_columns(stored(fields))
    }
}

/// The columns with the keys of the metadata that they hold.
pub open spec fn plain_columns(fields: Seq<FieldSpecView>) -> Seq<SchemaColumnView> {
    fields.map_values(
        |f: FieldSpecView| SchemaColumnView { field: f.field(), metadata_key: f.metadata_key() },
    )
}

impl SchemaColumn {
    /// What the column says.
    pub open spec fn view(&self) -> SchemaColumnView {
        SchemaColumnView {
            field: self.field.view(),
            metadata_key: spelled_option(self.metadata_key),
        }
    }
}

/// What a list of columns says, column by column.
pub open spec fn column_views(columns: Seq<SchemaColumn>) -> Seq<SchemaColumnView> {
    Seq::new(columns.len(), |i: int| columns[i].view())
}

/// The error where a temporary table is not one for lookups.
pub open spec fn lookup_type_error(kind: Seq<char>) -> ErrorView {
    ErrorView::Plan(
        "Cannot have a temporary table with type '"@ + kind
            + "'; temporary tables must be type 'lookup'"@,
    )
}

/// Whether the options give the table another type than the one for lookups.
pub open spec fn has_other_type(options: Map<Seq<char>, Seq<char>>) -> bool {
    option_value(options, "type"@) matches Some(kind) && kind != "lookup"@
}

/// What keeps the columns of a message from being described once the framing
/// has been parsed.
pub open spec fn framing_error(
    framing: Result<Option<Framing>, String>,
    temporary: bool,
    fields: Seq<FieldSpecView>,
    format: Option<Format>,
    options: Map<Seq<char>, Seq<char>>,
) -> Option<ErrorView> {
    if let Err(text) = framing {
        Some(ErrorView::Plan("invalid framing: '"@ + text@ + "'"@))
    } else if temporary && has_other_type(options) {
        Some(lookup_type_error(options["type"@]))
    } else if is_debezium(format) && any_virtual(fields) {
        Some(ErrorView::Plan("can't use virtual fields with debezium format"@))
    } else {
        None
    }
}

/// The columns of a Debezium envelope around the row.
fn envelope(fields: &Vec<FieldSpec>) -> (columns: Vec<SchemaColumn>)
    ensures
        column_views(columns@) == debezium_columns(fields_of(spec_views(fields@))),
{
    let row = DataType::struct_of(copy_columns(fields));
    let before = Field::new("before".to_owned(), row.clone(), true);
    let after = Field::new("after".to_owned(), row, true);
    let op = Field::new("op".to_owned(), DataType::Scalar(ScalarType::Utf8), false);
    let columns = vec![
        SchemaColumn { field: before, metadata_key: None },
        SchemaColumn { field: after, metadata_key: None },
        SchemaColumn { field: op, metadata_key: None },
    ];
    proof {
        assert(column_views(columns@) =~= debezium_columns(fields_of(spec_views(fields@))));
    }
    columns
}

/// The columns that are not computed, with the keys of the metadata that they
/// hold.
fn stored_columns(fields: &Vec<FieldSpec>) -> (columns: Vec<SchemaColumn>)
    ensures
        column_views(columns@) == plain_columns(stored(spec_views(fields@))),
{
    let ghost views = spec_views(fields@);
    let mut columns: Vec<SchemaColumn> = Vec::new();
    proof {
        reveal(Seq::filter);
        assert(column_views(columns@) =~= plain_columns(stored(views.take(0))));
    }
    for i in 0..fields.len()
        invariant
            views == spec_views(fields@),
            column_views(columns@) == plain_columns(stored(views.take(i as int))),
    {
        let ghost before = columns@;
        proof {
            assert(views.take(i + 1) =~= views.take(i as int).push(views[i as int]));
            lemma_stored_push(views.take(i as int), views[i as int]);
        }
        if !fields[i].is_virtual() {
            let metadata_key = match fields[i].metadata_key() {
                Some(key) => Some(key.to_owned()),
                None => None,
            };
            columns.push(SchemaColumn { field: fields[i].field().clone(), metadata_key });
            proof {
                assert(column_views(columns@) =~= column_views(before).push(
                    columns@.last().view(),
                ));
                assert(plain_columns(stored(views.take(i + 1))) =~= plain_columns(
                    stored(views.take(i as int)),
                ).push(columns@.last().view()));
            }
        }
    }
    proof {
        assert(views.take(fields@.len() as int) =~= views);
    }
    columns
}

impl NeedFraming {
    /// Goes on with the parsed framing and the options that are left. A
    /// temporary table gets the type for lookups.
    pub fn resume(self, framing: Result<Option<Framing>, String>, options: StringMap) -> (stage:
        Result<NeedSourceFields, PlanError>)
        ensures
            ({
                let error = framing_error(
                    framing,
                    self.request.temporary,
                    spec_views(self.request.fields@),
                    self.format,
                    options@,
                );
                match stage {
                    Ok(stage) => {
                        &&& error is None
                        &&& framing == Ok::<Option<Framing>, String>(stage.framing)
                        &&& stage.request == self.request
                        &&& stage.format == self.format
                        &&& column_views(stage.columns@) == message_columns(
                            spec_views(self.request.fields@),
                            self.format,
                        )
                        &&& self.request.temporary ==> stage.options@ == options@.insert(
                            "type"@,
                            "lookup"@,
                        ) && stage.options.key_list() == if options@.contains_key("type"@) {
                            options.key_list()
                        } else {
                            options.key_list().push("type"@)
                        }
                        &&& !self.request.temporary ==> stage.options == options
                    },
                    Err(e) => error == Some(e.view()),
                }
            }),
    {
        let framing = match framing {
            Ok(framing) => framing,
            Err(text) => {
                return Err(PlanError::plan_around("invalid framing: '", text.as_str(), "'"));
            },
        };
        let mut options = options;
        if self.request.temporary {
            match options.insert("type".to_owned(), "lookup".to_owned()) {
                Some(kind) => {
                    if !is_text(&kind, "lookup") {
                        return Err(
                            PlanError::plan_around(
                                "Cannot have a temporary table with type '",
                                kind.as_str(),
                                "'; temporary tables must be type 'lookup'",
                            ),
                        );
                    }
                },
                None => {},
            }
        }
        let debezium = match &self.format {
            Some(format) => format.debezium_json,
            None => false,
        };
        let columns = if debezium {
            if has_virtual(&self.request.fields) {
                return Err(PlanError::plan("can't use virtual fields with debezium format"));
            }
            envelope(&self.request.fields)
        } else {
            stored_columns(&self.request.fields)
        };
        Ok(
            NeedSourceFields {
                request: self.request,
                options,
                format: self.format,
                framing,
                columns,
            },
        )
    }
}

/// The error where a column has a type that the connector crates cannot
/// describe.
pub open spec fn column_type_error(name: Seq<char>, data_type: Seq<char>) -> ErrorView {
    ErrorView::Plan(
        "field '"@ + name + "' has a type '"@ + data_type
            + "' that cannot be used in a connection table"@,
    )
}

/// Whether the column at `i` is the first that could not be described.
pub open spec fn first_failure(converted: Seq<Result<SourceField, String>>, i: int) -> bool {
    &&& 0 <= i < converted.len()
    &&& converted[i] is Err
    &&& forall|j: int| 0 <= j < i ==> (#[trigger] converted[j]) is Ok
}

/// The description of a column: a column for metadata has its own key.
pub open spec fn is_description(
    described: SourceField,
    column: SchemaColumnView,
    converted: Result<SourceField, String>,
) -> bool {
    &&& converted matches Ok(field) && described.definition == field.definition
    &&& spelled_option(described.metadata_key) == if column.metadata_key is Some {
        column.metadata_key
    } else {
        spelled_option(converted->Ok_0.metadata_key)
    }
}

impl NeedSourceFields {
    /// Goes on with the descriptions of the columns. Where a column cannot be
    /// described, its place holds the text of its type.
    pub fn resume(self, converted: Vec<Result<SourceField, String>>) -> (stage: Result<
        NeedBadData,
        PlanError,
    >)
        requires
            converted@.len() == self.columns@.len(),
        ensures
            match stage {
                Ok(stage) => {
                    &&& forall|i: int| 0 <= i < converted@.len() ==> (#[trigger] converted@[i]) is Ok
                    &&& stage.schema_fields@.len() == converted@.len()
                    &&& forall|i: int|
                        0 <= i < converted@.len() ==> is_description(
                            #[trigger] stage.schema_fields@[i],
                            self.columns@[i].view(),
                            converted@[i],
                        )
                    &&& stage.request == self.request
                    &&& stage.options == self.options
                    &&& stage.format == self.format
                    &&& stage.framing == self.framing
                },
                Err(e) => exists|i: int|
                    #[trigger] first_failure(converted@, i) && e.view() == column_type_error(
                        self.columns@[i].view().field.name,
                        converted@[i]->Err_0@,
                    ),
            },
    {
        let mut schema_fields: Vec<SourceField> = Vec::new();
        let columns = self.columns;
        for i in 0..columns.len()
            invariant
                converted@.len() == columns@.len(),
                columns == self.columns,
                schema_fields@.len() == i,
                forall|j: int| 0 <= j < i ==> (#[trigger] converted@[j]) is Ok,
                forall|j: int|
                    0 <= j < i ==> is_description(
                        #[trigger] schema_fields@[j],
                        columns@[j].view(),
                        converted@[j],
                    ),
        {
            match &converted[i] {
                Ok(field) => {
                    let metadata_key = match &columns[i].metadata_key {
                        Some(key) => Some(key.clone()),
                        None => match &field.metadata_key {
                            Some(key) => Some(key.clone()),
                            None => None,
                        },
                    };
                    schema_fields.push(
                        SourceField { definition: field.definition.clone(), metadata_key },
                    );
                },
                Err(data_type) => {
                    proof {
                        assert(first_failure(converted@, i as int));
                    }
                    let head = crate::text::concat3(
                        "field '",
                        columns[i].field.name.as_str(),
                        "' has a type '",
                    );
                    return Err(
                        PlanError::plan_around(
                            head.as_str(),
                            data_type.as_str(),
                            "' that cannot be used in a connection table",
                        ),
                    );
                },
            }
        }
        Ok(
            NeedBadData {
                request: self.request,
                options: self.options,
                format: self.format,
                framing: self.framing,
                schema_fields,
            },
        )
    }
}

impl NeedBadData {
    /// Goes on with the parsed treatment of bad data and the options that are
    /// left. The schema is to be inferred where the statement has no columns.
    pub fn resume(self, bad_data: Result<Option<BadData>, String>, options: StringMap) -> (stage:
        Result<NeedSchema, PlanError>)
        ensures
            match stage {
                Ok(stage) => {
                    &&& bad_data == Ok::<Option<BadData>, String>(stage.bad_data)
                    &&& stage.request == self.request
                    &&& stage.options == options
                    &&& stage.format == self.format
                    &&& stage.framing == self.framing
                    &&& stage.struct_name is None
                    &&& stage.schema_fields == self.schema_fields
                    &&& stage.definition is None
                    &&& stage.inferred == Some(self.request.fields@.len() == 0)
                },
                Err(e) => bad_data matches Err(text) && e.view() == ErrorView::Plan(
                    "Invalid bad_data: '"@ + text@ + "'"@,
                ),
            },
    {
        match bad_data {
            Ok(bad_data) => {
                let inferred = self.request.fields.len() == 0;
                Ok(
                    NeedSchema {
                        request: self.request,
                        options,
                        format: self.format,
                        bad_data,
                        framing: self.framing,
                        struct_name: None,
                        schema_fields: self.schema_fields,
                        definition: None,
                        inferred: Some(inferred),
                    },
                )
            },
            Err(text) => Err(PlanError::plan_around("Invalid bad_data: '", text.as_str(), "'")),
        }
    }
}

impl NeedSchema {
    /// Goes on with the schema.
    pub fn resume(self, schema: Result<ConnectionSchema, String>) -> (stage: Result<
        NeedConnection,
        PlanError,
    >)
        ensures
            match stage {
                Ok(stage) => {
                    &&& schema == Ok::<ConnectionSchema, String>(stage.schema)
                    &&& stage.request == self.request
                    &&& stage.options == self.options
                },
                Err(e) => schema matches Err(text) && e.view() == ErrorView::Plan(
                    "could not create connection schema: "@ + text@,
                ),
            },
    {
        match schema {
            Ok(schema) => Ok(
                NeedConnection { request: self.request, options: self.options, schema },
            ),
            Err(text) => Err(
                PlanError::plan_with("could not create connection schema: ", text.as_str()),
            ),
        }
    }
}

impl NeedConnection {
    /// Ends with the connection and the options that are left. There is no
    /// result where the days of the lookup cache's interval are a negative
    /// number, which no span of time can be made of.
    pub fn resume(self, connection: Result<Connection, String>, options: StringMap) -> (table:
        Option<Result<ConnectorTable, PlanError>>)
        ensures
            match connection {
                Ok(connection) => {
                    let out_of_range = ttl_out_of_range(
                        options@,
                        self.request.default_idle_time,
                        ttl_interval(options@),
                    );
                    let settled = settled_table(
                        connection,
                        spec_views(self.request.fields@),
                        spelled(self.request.primary_keys@),
                        options,
                        self.request.default_idle_time,
                        ttl_interval(options@),
                    );
                    match table {
                        Some(Ok(table)) => !out_of_range && settled == Ok::<
                            ConnectorTableView,
                            ErrorView,
                        >(table.view()),
                        Some(Err(e)) => !out_of_range && settled == Err::<
                            ConnectorTableView,
                            ErrorView,
                        >(e.view()),
                        None => out_of_range,
                    }
                },
                Err(text) => table matches Some(Err(e)) && e.view() == ErrorView::Plan(text@),
            },
    {
        match connection {
            Ok(connection) => ConnectorTable::try_from_connection(
                connection,
                self.request.fields,
                self.request.primary_keys,
                options,
                self.request.default_idle_time,
            ),
            Err(text) => Some(Err(PlanError::Plan(text))),
        }
    }
}

} // verus!
