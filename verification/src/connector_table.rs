//! Tables that a connector reads or writes.
use datafusion::logical_expr::Expr;
use vstd::prelude::*;

use crate::error::{ErrorView, PlanError};
use crate::outside::{column_named, read_column};
use crate::schema::{
    DFField, DFFieldView, Field, FieldView, copy_fields, copy_output, field_views, output_views,
};
use crate::text::{copy_texts, spelled, spelled_option};
use crate::time_span::TimeSpan;

verus! {

/// What a connection is used for.
#[derive(Debug, Clone, Copy, PartialEq, Eq, Structural)]
pub enum ConnectionType {
    Source,
    Sink,
    Lookup,
}

/// How the messages of a connection are encoded.
#[derive(Debug, PartialEq, Eq)]
pub struct Format {
    /// Whether this is JSON with Debezium envelopes.
    pub debezium_json: bool,
    /// Whether the messages are updates of earlier ones.
    pub updating: bool,
    /// The whole definition as the connector crates write it.
    pub definition: String,
}

impl Clone for Format {
    fn clone(&self) -> (copy: Format)
        ensures
            copy == *self,
    {
        Format {
            debezium_json: self.debezium_json,
            updating: self.updating,
            definition: self.definition.clone(),
        }
    }
}

/// A column of a table.
#[derive(Debug, PartialEq, Eq)]
pub enum FieldSpec {
    /// A column that is part of the message.
    Struct(Field),
    /// A column that holds metadata of the message.
    Metadata { field: Field, key: String },
    /// A column that is computed from the others.
    Virtual { field: Field, expression: Expr },
}

/// What a [`FieldSpec`] says.
pub enum FieldSpecView {
    Struct(FieldView),
    Metadata { field: FieldView, key: Seq<char> },
    Virtual { field: FieldView, expression: Expr },
}

impl FieldSpecView {
    /// The column itself.
    pub open spec fn field(self) -> FieldView {
        match self {
            FieldSpecView::Struct(field) => field,
            FieldSpecView::Metadata { field, .. } => field,
            FieldSpecView::Virtual { field, .. } => field,
        }
    }

    /// Whether the column is a timestamp with the name.
    pub open spec fn is_time_field(self, name: Seq<char>) -> bool {
        self.field().name == name && self.field().data_type.is_timestamp()
    }

    /// The key of the metadata that the column holds.
    pub open spec fn metadata_key(self) -> Option<Seq<char>> {
        match self {
            FieldSpecView::Metadata { key, .. } => Some(key),
            _ => None,
        }
    }
}

/// What a list of columns says, column by column.
pub open spec fn spec_views(fields: Seq<FieldSpec>) -> Seq<FieldSpecView> {
    Seq::new(fields.len(), |i: int| fields[i].view())
}

/// Whether one of the columns is computed.
pub open spec fn any_virtual(fields: Seq<FieldSpecView>) -> bool {
    exists|i: int| 0 <= i < fields.len() && (#[trigger] fields[i]) is Virtual
}

/// The columns that are not computed, in order.
pub open spec fn stored(fields: Seq<FieldSpecView>) -> Seq<FieldSpecView> {
    fields.filter(|f: FieldSpecView| !(f is Virtual))
}

/// The columns themselves.
pub open spec fn fields_of(fields: Seq<FieldSpecView>) -> Seq<FieldView> {
    fields.map_values(|f: FieldSpecView| f.field())
}

/// Whether there is a timestamp column with the name.
pub open spec fn has_time_field(fields: Seq<FieldSpecView>, name: Seq<char>) -> bool {
    exists|i: int| 0 <= i < fields.len() && (#[trigger] fields[i]).is_time_field(name)
}

impl FieldSpec {
    /// What the column says.
    pub open spec fn view(&self) -> FieldSpecView {
        match self {
            FieldSpec::Struct(field) => FieldSpecView::Struct(field.view()),
            FieldSpec::Metadata { field, key } => FieldSpecView::Metadata {
                field: field.view(),
                key: key@,
            },
            FieldSpec::Virtual { field, expression } => FieldSpecView::Virtual {
                field: field.view(),
                expression: *expression,
            },
        }
    }

    /// Whether the column is computed from the others.
    pub fn is_virtual(&self) -> (yes: bool)
        ensures
            yes == self.view() is Virtual,
    {
        match self {
            FieldSpec::Struct(_) | FieldSpec::Metadata { .. } => false,
            FieldSpec::Virtual { .. } => true,
        }
    }

    /// The column itself.
    pub fn field(&self) -> (field: &Field)
        ensures
            field.view() == self.view().field(),
            match *self {
                FieldSpec::Struct(f) => *field == f,
                FieldSpec::Metadata { field: f, .. } => *field == f,
                FieldSpec::Virtual { field: f, .. } => *field == f,
            },
    {
        match self {
            FieldSpec::Struct(field) => field,
            FieldSpec::Metadata { field, .. } => field,
            FieldSpec::Virtual { field, .. } => field,
        }
    }

    /// The key of the metadata that the column holds.
    pub fn metadata_key(&self) -> (key: Option<&str>)
        ensures
            match key {
                Some(key) => self.view().metadata_key() == Some(key@),
                None => self.view().metadata_key() is None,
            },
    {
        match self {
            FieldSpec::Metadata { key, .. } => Some(key.as_str()),
            _ => None,
        }
    }
}

impl Clone for FieldSpec {
    fn clone(&self) -> (copy: FieldSpec)
        ensures
            copy.view() == self.view(),
    {
        match self {
            FieldSpec::Struct(field) => FieldSpec::Struct(field.clone()),
            FieldSpec::Metadata { field, key } => FieldSpec::Metadata {
                field: field.clone(),
                key: key.clone(),
            },
            FieldSpec::Virtual { field, expression } => FieldSpec::Virtual {
                field: field.clone(),
                expression: expression.clone(),
            },
        }
    }
}

impl From<Field> for FieldSpec {
    fn from(value: Field) -> (column: FieldSpec) {
        FieldSpec::Struct(value)
    }
}

impl vstd::std_specs::convert::FromSpecImpl<Field> for FieldSpec {
    open spec fn obeys_from_spec() -> bool {
        true
    }

    open spec fn from_spec(value: Field) -> FieldSpec {
        FieldSpec::Struct(value)
    }
}

/// Copies a list of columns.
pub fn copy_specs(fields: &Vec<FieldSpec>) -> (copies: Vec<FieldSpec>)
    ensures
        spec_views(copies@) == spec_views(fields@),
        copies@.len() == fields@.len(),
{
    let mut copies: Vec<FieldSpec> = Vec::new();
    for i in 0..fields.len()
        invariant
            copies@.len() == i,
            forall|j: int| 0 <= j < i ==> (#[trigger] copies@[j]).view() == fields@[j].view(),
    {
        copies.push(fields[i].clone());
    }
    proof {
        assert(spec_views(copies@) =~= spec_views(fields@));
    }
    copies
}

/// Whether one of the columns is computed.
pub fn has_virtual(fields: &Vec<FieldSpec>) -> (yes: bool)
    ensures
        yes == any_virtual(spec_views(fields@)),
{
    for i in 0..fields.len()
        invariant
            forall|j: int| 0 <= j < i ==> !((#[trigger] fields@[j]).view() is Virtual),
    {
        if fields[i].is_virtual() {
            proof {
                assert(spec_views(fields@)[i as int] is Virtual);
            }
            return true;
        }
    }
    proof {
        assert forall|i: int| 0 <= i < spec_views(fields@).len() implies !((#[trigger] spec_views(
            fields@,
        )[i]) is Virtual) by {
            assert(spec_views(fields@)[i] == fields@[i].view());
        }
    }
    false
}

/// Copies the columns themselves.
pub fn copy_columns(fields: &Vec<FieldSpec>) -> (copies: Vec<Field>)
    ensures
        field_views(copies@) == fields_of(spec_views(fields@)),
{
    let mut copies: Vec<Field> = Vec::new();
    for i in 0..fields.len()
        invariant
            copies@.len() == i,
            forall|j: int|
                0 <= j < i ==> (#[trigger] copies@[j]).view() == fields@[j].view().field(),
    {
        copies.push(fields[i].field().clone());
    }
    proof {
        assert(field_views(copies@) =~= fields_of(spec_views(fields@)));
    }
    copies
}

/// What is kept of one element more.
pub proof fn lemma_stored_push(fields: Seq<FieldSpecView>, last: FieldSpecView)
    ensures
        stored(fields.push(last)) == if last is Virtual {
            stored(fields)
        } else {
            stored(fields).push(last)
        },
{
    reveal(Seq::filter);
    assert(fields.push(last).drop_last() =~= fields);
}

/// Copies the columns that are not computed.
pub fn stored_fields(fields: &Vec<FieldSpec>) -> (copies: Vec<Field>)
    ensures
        field_views(copies@) == fields_of(stored(spec_views(fields@))),
{
    let ghost views = spec_views(fields@);
    let mut copies: Vec<Field> = Vec::new();
    proof {
        reveal(Seq::filter);
        assert(field_views(copies@) =~= fields_of(stored(views.take(0))));
    }
    for i in 0..fields.len()
        invariant
            views == spec_views(fields@),
            field_views(copies@) == fields_of(stored(views.take(i as int))),
    {
        let ghost before = copies@;
        proof {
            assert(views.take(i + 1) =~= views.take(i as int).push(views[i as int]));
            lemma_stored_push(views.take(i as int), views[i as int]);
        }
        if !fields[i].is_virtual() {
            copies.push(fields[i].field().clone());
            proof {
                assert(field_views(copies@) =~= field_views(before).push(copies@.last().view()));
                assert(fields_of(stored(views.take(i + 1))) =~= fields_of(
                    stored(views.take(i as int)),
                ).push(views[i as int].field()));
            }
        }
    }
    proof {
        assert(views.take(fields@.len() as int) =~= views);
    }
    copies
}

/// A table that a connector reads or writes.
#[derive(Debug, PartialEq, Eq)]
pub struct ConnectorTable {
    pub id: Option<i64>,
    pub connector: String,
    pub name: String,
    pub connection_type: ConnectionType,
    pub fields: Vec<FieldSpec>,
    pub config: String,
    pub description: String,
    pub format: Option<Format>,
    pub event_time_field: Option<String>,
    pub watermark_field: Option<String>,
    pub idle_time: Option<TimeSpan>,
    pub primary_keys: Vec<String>,
    pub inferred_fields: Option<Vec<DFField>>,
    /// For lookup tables: how much the cache may hold.
    pub lookup_cache_max_bytes: Option<u64>,
    /// For lookup tables: how long the cache keeps an entry.
    pub lookup_cache_ttl: Option<TimeSpan>,
}

/// What a [`ConnectorTable`] says.
pub struct ConnectorTableView {
    pub id: Option<i64>,
    pub connector: Seq<char>,
    pub name: Seq<char>,
    pub connection_type: ConnectionType,
    pub fields: Seq<FieldSpecView>,
    pub config: Seq<char>,
    pub description: Seq<char>,
    pub format: Option<Format>,
    pub event_time_field: Option<Seq<char>>,
    pub watermark_field: Option<Seq<char>>,
    pub idle_time: Option<TimeSpan>,
    pub primary_keys: Seq<Seq<char>>,
    pub inferred_fields: Option<Seq<DFFieldView>>,
    pub lookup_cache_max_bytes: Option<u64>,
    pub lookup_cache_ttl: Option<TimeSpan>,
}

/// A connection as its connector has set it up.
#[derive(Debug, PartialEq, Eq)]
pub struct Connection {
    pub id: Option<i64>,
    pub connector: String,
    pub name: String,
    pub connection_type: ConnectionType,
    /// The fields of the connection's schema.
    pub fields: Vec<Field>,
    /// The format of the connection's schema.
    pub format: Option<Format>,
    pub config: String,
    pub description: String,
}

/// The fields of a message.
#[derive(Debug, PartialEq, Eq)]
pub struct Schema {
    pub fields: Vec<Field>,
}

/// What an operator needs to know of its connector.
#[derive(Debug, PartialEq, Eq)]
pub struct ConnectorOp {
    pub connector: String,
    pub config: String,
    pub description: String,
}

/// What a [`ConnectorOp`] says.
pub struct ConnectorOpView {
    pub connector: Seq<char>,
    pub config: Seq<char>,
    pub description: Seq<char>,
}

/// How the rows of a source relate to earlier ones.
#[derive(Debug, Clone, Copy, PartialEq, Eq, Structural)]
pub enum ProcessingMode {
    Append,
    Update,
}

/// A source of rows.
#[derive(Debug, PartialEq, Eq)]
pub struct SqlSource {
    pub id: Option<i64>,
    pub struct_def: Vec<Field>,
    pub config: ConnectorOp,
    pub processing_mode: ProcessingMode,
    pub idle_time: Option<TimeSpan>,
}

/// A source of rows with the columns that time is taken from.
#[derive(Debug, PartialEq, Eq)]
pub struct SourceOperator {
    pub name: String,
    pub source: SqlSource,
    pub timestamp_override: Option<Expr>,
    pub watermark_column: Option<Expr>,
}

/// What a [`SourceOperator`] says.
pub struct SourceOperatorView {
    pub name: Seq<char>,
    pub id: Option<i64>,
    pub struct_def: Seq<FieldView>,
    pub config: ConnectorOpView,
    pub processing_mode: ProcessingMode,
    pub idle_time: Option<TimeSpan>,
    pub timestamp_override: Option<Expr>,
    pub watermark_column: Option<Expr>,
}

impl ConnectorOp {
    /// What the operator says.
    pub open spec fn view(&self) -> ConnectorOpView {
        ConnectorOpView {
            connector: self.connector@,
            config: self.config@,
            description: self.description@,
        }
    }
}

/// The expression that reads the column with the name.
pub open spec fn column_expr(name: Option<Seq<char>>) -> Option<Expr> {
    match name {
        Some(name) => Some(column_named(name)),
        None => None,
    }
}

impl SourceOperator {
    /// What the operator says.
    pub open spec fn view(&self) -> SourceOperatorView {
        SourceOperatorView {
            name: self.name@,
            id: self.source.id,
            struct_def: field_views(self.source.struct_def@),
            config: self.source.config.view(),
            processing_mode: self.source.processing_mode,
            idle_time: self.source.idle_time,
            timestamp_override: self.timestamp_override,
            watermark_column: self.watermark_column,
        }
    }
}

impl Clone for ConnectorOp {
    fn clone(&self) -> (copy: ConnectorOp)
        ensures
            copy.view() == self.view(),
    {
        ConnectorOp {
            connector: self.connector.clone(),
            config: self.config.clone(),
            description: self.description.clone(),
        }
    }
}

fn copy_expr(expr: &Option<Expr>) -> (copy: Option<Expr>)
    ensures
        copy == *expr,
{
    match expr {
        Some(expr) => Some(expr.clone()),
        None => None,
    }
}

fn copy_text(text: &Option<String>) -> (copy: Option<String>)
    ensures
        spelled_option(copy) == spelled_option(*text),
{
    match text {
        Some(text) => Some(text.clone()),
        None => None,
    }
}

impl Clone for SourceOperator {
    fn clone(&self) -> (copy: SourceOperator)
        ensures
            copy.view() == self.view(),
    {
        SourceOperator {
            name: self.name.clone(),
            source: SqlSource {
                id: self.source.id,
                struct_def: copy_fields(&self.source.struct_def),
                config: self.source.config.clone(),
                processing_mode: self.source.processing_mode,
                idle_time: self.source.idle_time,
            },
            timestamp_override: copy_expr(&self.timestamp_override),
            watermark_column: copy_expr(&self.watermark_column),
        }
    }
}

/// The error where no timestamp column has the name.
pub open spec fn no_time_field_error(name: Seq<char>) -> ErrorView {
    ErrorView::Plan("field "@ + name + " not found or not a timestamp"@)
}

impl ConnectorTableView {
    /// Whether the rows of the table are updates of earlier ones.
    pub open spec fn updating(self) -> bool {
        self.format matches Some(format) && format.updating
    }

    /// How the rows relate to earlier ones.
    pub open spec fn processing_mode(self) -> ProcessingMode {
        if self.updating() {
            ProcessingMode::Update
        } else {
            ProcessingMode::Append
        }
    }

    /// What an operator needs to know of the connector.
    pub open spec fn connector_op(self) -> ConnectorOpView {
        ConnectorOpView {
            connector: self.connector,
            config: self.config,
            description: self.description,
        }
    }

    /// The fields of a message.
    pub open spec fn physical_fields(self) -> Seq<FieldView> {
        fields_of(stored(self.fields))
    }

    /// The name of the column that event time is taken from.
    pub open spec fn timestamp_override(self) -> Result<Option<Seq<char>>, ErrorView> {
        match self.event_time_field {
            Some(name) => if self.updating() {
                Err(ErrorView::Plan("can't use event_time_field with update mode."@))
            } else if has_time_field(self.fields, name) {
                Ok(Some(name))
            } else {
                Err(no_time_field_error(name))
            },
            None => Ok(None),
        }
    }

    /// The name of the column that the watermark is taken from.
    pub open spec fn watermark_column(self) -> Result<Option<Seq<char>>, ErrorView> {
        match self.watermark_field {
            Some(name) => if has_time_field(self.fields, name) {
                Ok(Some(name))
            } else {
                Err(no_time_field_error(name))
            },
            None => Ok(None),
        }
    }

    /// The source that reads the table. Only a source connection can be read,
    /// and computed columns cannot be read in update mode.
    pub open spec fn sql_source(self) -> Result<SourceOperatorView, ErrorView> {
        if self.connection_type != ConnectionType::Source {
            Err(ErrorView::Plan("cannot read from sink"@))
        } else if self.updating() && any_virtual(self.fields) {
            Err(
                ErrorView::Plan(
                    "can't read from a source with virtual fields and update mode."@,
                ),
            )
        } else if let Err(e) = self.timestamp_override() {
            Err(e)
        } else if let Err(e) = self.watermark_column() {
            Err(e)
        } else {
            Ok(
                SourceOperatorView {
                    name: self.name,
                    id: self.id,
                    struct_def: self.physical_fields(),
                    config: self.connector_op(),
                    processing_mode: self.processing_mode(),
                    idle_time: self.idle_time,
                    timestamp_override: column_expr(self.timestamp_override()->Ok_0),
                    watermark_column: column_expr(self.watermark_column()->Ok_0),
                },
            )
        }
    }
}

impl ConnectorTable {
    /// What the table says.
    pub open spec fn view(&self) -> ConnectorTableView {
        ConnectorTableView {
            id: self.id,
            connector: self.connector@,
            name: self.name@,
            connection_type: self.connection_type,
            fields: spec_views(self.fields@),
            config: self.config@,
            description: self.description@,
            format: self.format,
            event_time_field: spelled_option(self.event_time_field),
            watermark_field: spelled_option(self.watermark_field),
            idle_time: self.idle_time,
            primary_keys: spelled(self.primary_keys@),
            inferred_fields: match self.inferred_fields {
                Some(fields) => Some(output_views(fields@)),
                None => None,
            },
            lookup_cache_max_bytes: self.lookup_cache_max_bytes,
            lookup_cache_ttl: self.lookup_cache_ttl,
        }
    }

    /// Whether one of the columns is computed.
    pub fn has_virtual_fields(&self) -> (yes: bool)
        ensures
            yes == any_virtual(self.view().fields),
    {
        has_virtual(&self.fields)
    }

    /// Whether the rows of the table are updates of earlier ones.
    pub fn is_updating(&self) -> (yes: bool)
        ensures
            yes == self.view().updating(),
    {
        match &self.format {
            Some(format) => format.updating,
            None => false,
        }
    }

    /// The first timestamp column with the name.
    pub fn get_time_field(&self, field_name: &String) -> (found: Result<&FieldSpec, PlanError>)
        ensures
            match found {
                Ok(field) => exists|i: int|
                    {
                        &&& 0 <= i < self.fields@.len()
                        &&& *field == #[trigger] self.fields@[i]
                        &&& field.view().is_time_field(field_name@)
                        &&& forall|j: int|
                            0 <= j < i ==> !(#[trigger] self.fields@[j]).view().is_time_field(
                                field_name@,
                            )
                    },
                Err(e) => {
                    &&& !has_time_field(self.view().fields, field_name@)
                    &&& e.view() == no_time_field_error(field_name@)
                },
            },
    {
        for i in 0..self.fields.len()
            invariant
                forall|j: int|
                    0 <= j < i ==> !(#[trigger] self.fields@[j]).view().is_time_field(field_name@),
        {
            let field = self.fields[i].field();
            if field.name == *field_name && field.data_type.is_timestamp() {
                return Ok(&self.fields[i]);
            }
        }
        proof {
            assert forall|i: int| 0 <= i < self.view().fields.len() implies !(
            #[trigger] self.view().fields[i]).is_time_field(field_name@) by {
                assert(self.view().fields[i] == self.fields@[i].view());
            }
        }
        Err(PlanError::plan_around("field ", field_name.as_str(), " not found or not a timestamp"))
    }

    fn time_column(&self, field_name: &String) -> (column: Result<Option<Expr>, PlanError>)
        ensures
            match column {
                Ok(column) => {
                    &&& has_time_field(self.view().fields, field_name@)
                    &&& column == column_expr(Some(field_name@))
                },
                Err(e) => {
                    &&& !has_time_field(self.view().fields, field_name@)
                    &&& e.view() == no_time_field_error(field_name@)
                },
            },
    {
        match self.get_time_field(field_name) {
            Ok(field) => {
                proof {
                    let i = choose|i: int|
                        0 <= i < self.fields@.len() && *field == #[trigger] self.fields@[i]
                            && field.view().is_time_field(field_name@);
                    assert(self.view().fields[i] == self.fields@[i].view());
                }
                Ok(Some(read_column(&field.field().name)))
            },
            Err(e) => Err(e),
        }
    }

    /// The column that event time is taken from.
    pub fn timestamp_override(&self) -> (column: Result<Option<Expr>, PlanError>)
        ensures
            match column {
                Ok(column) => self.view().timestamp_override() is Ok && column == column_expr(
                    self.view().timestamp_override()->Ok_0,
                ),
                Err(e) => self.view().timestamp_override() == Err::<Option<Seq<char>>, ErrorView>(
                    e.view(),
                ),
            },
    {
        match &self.event_time_field {
            Some(field_name) => {
                if self.is_updating() {
                    return Err(PlanError::plan("can't use event_time_field with update mode."));
                }
                self.time_column(field_name)
            },
            None => Ok(None),
        }
    }

    /// The column that the watermark is taken from.
    pub fn watermark_column(&self) -> (column: Result<Option<Expr>, PlanError>)
        ensures
            match column {
                Ok(column) => self.view().watermark_column() is Ok && column == column_expr(
                    self.view().watermark_column()->Ok_0,
                ),
                Err(e) => self.view().watermark_column() == Err::<Option<Seq<char>>, ErrorView>(
                    e.view(),
                ),
            },
    {
        match &self.watermark_field {
            Some(field_name) => self.time_column(field_name),
            None => Ok(None),
        }
    }

    /// The schema of a message: the columns that are not computed.
    pub fn physical_schema(&self) -> (schema: Schema)
        ensures
            field_views(schema.fields@) == self.view().physical_fields(),
    {
        Schema { fields: stored_fields(&self.fields) }
    }

    /// What an operator needs to know of the connector.
    pub fn connector_op(&self) -> (op: ConnectorOp)
        ensures
            op.view() == self.view().connector_op(),
    {
        ConnectorOp {
            connector: self.connector.clone(),
            config: self.config.clone(),
            description: self.description.clone(),
        }
    }

    /// How the rows relate to earlier ones.
    pub fn processing_mode(&self) -> (mode: ProcessingMode)
        ensures
            mode == self.view().processing_mode(),
    {
        if self.is_updating() {
            ProcessingMode::Update
        } else {
            ProcessingMode::Append
        }
    }

    /// The source that reads the table.
    pub fn as_sql_source(&self) -> (source: Result<SourceOperator, PlanError>)
        ensures
            match source {
                Ok(source) => self.view().sql_source() == Ok::<SourceOperatorView, ErrorView>(
                    source.view(),
                ),
                Err(e) => self.view().sql_source() == Err::<SourceOperatorView, ErrorView>(e.view()),
            },
    {
        match self.connection_type {
            ConnectionType::Source => {},
            ConnectionType::Sink | ConnectionType::Lookup => {
                return Err(PlanError::plan("cannot read from sink"));
            },
        }
        if self.is_updating() && self.has_virtual_fields() {
            return Err(
                PlanError::plan("can't read from a source with virtual fields and update mode."),
            );
        }
        let timestamp_override = match self.timestamp_override() {
            Ok(column) => column,
            Err(e) => {
                return Err(e);
            },
        };
        let watermark_column = match self.watermark_column() {
            Ok(column) => column,
            Err(e) => {
                return Err(e);
            },
        };
        let source = SqlSource {
            id: self.id,
            struct_def: stored_fields(&self.fields),
            config: self.connector_op(),
            processing_mode: self.processing_mode(),
            idle_time: self.idle_time,
        };
        Ok(SourceOperator { name: self.name.clone(), source, timestamp_override, watermark_column })
    }
}

impl Clone for ConnectorTable {
    fn clone(&self) -> (copy: ConnectorTable)
        ensures
            copy.view() == self.view(),
    {
        let format = match &self.format {
            Some(format) => Some(format.clone()),
            None => None,
        };
        let inferred_fields = match &self.inferred_fields {
            Some(fields) => Some(copy_output(fields)),
            None => None,
        };
        ConnectorTable {
            id: self.id,
            connector: self.connector.clone(),
            name: self.name.clone(),
            connection_type: self.connection_type,
            fields: copy_specs(&self.fields),
            config: self.config.clone(),
            description: self.description.clone(),
            format,
            event_time_field: copy_text(&self.event_time_field),
            watermark_field: copy_text(&self.watermark_field),
            idle_time: self.idle_time,
            primary_keys: copy_texts(&self.primary_keys),
            inferred_fields,
            lookup_cache_max_bytes: self.lookup_cache_max_bytes,
            lookup_cache_ttl: self.lookup_cache_ttl,
        }
    }
}

/// What the fields of a connection are as columns of a table.
pub open spec fn struct_columns(fields: Seq<FieldView>) -> Seq<FieldSpecView> {
    fields.map_values(|f: FieldView| FieldSpecView::Struct(f))
}

impl Connection {
    /// The table that the connection is before its options are applied.
    pub open spec fn table(self, default_idle_time: Option<TimeSpan>) -> ConnectorTableView {
        ConnectorTableView {
            id: self.id,
            connector: self.connector@,
            name: self.name@,
            connection_type: self.connection_type,
            fields: struct_columns(field_views(self.fields@)),
            config: self.config@,
            description: self.description@,
            format: self.format,
            event_time_field: None,
            watermark_field: None,
            idle_time: default_idle_time,
            primary_keys: Seq::empty(),
            inferred_fields: None,
            lookup_cache_max_bytes: None,
            lookup_cache_ttl: None,
        }
    }
}

impl ConnectorTable {
    /// The table that a connection is before its options are applied.
    pub fn from(value: Connection, default_idle_time: Option<TimeSpan>) -> (table: ConnectorTable)
        ensures
            table.view() == value.table(default_idle_time),
    {
        let mut fields: Vec<FieldSpec> = Vec::new();
        for i in 0..value.fields.len()
            invariant
                fields@.len() == i,
                forall|j: int|
                    0 <= j < i ==> (#[trigger] fields@[j]).view() == FieldSpecView::Struct(
                        value.fields@[j].view(),
                    ),
        {
            fields.push(FieldSpec::Struct(value.fields[i].clone()));
        }
        proof {
            assert(spec_views(fields@) =~= struct_columns(field_views(value.fields@)));
        }
        let table = ConnectorTable {
            id: value.id,
            connector: value.connector,
            name: value.name,
            connection_type: value.connection_type,
            fields,
            config: value.config,
            description: value.description,
            format: value.format,
            event_time_field: None,
            watermark_field: None,
            idle_time: default_idle_time,
            primary_keys: Vec::new(),
            inferred_fields: None,
            lookup_cache_max_bytes: None,
            lookup_cache_ttl: None,
        };
        proof {
            assert(table.view().primary_keys =~= Seq::<Seq<char>>::empty());
        }
        table
    }
}

} // verus!
