use datafusion::common::Column;
use datafusion::logical_expr::Expr;
use datafusion::prelude::{col, lit};
use planner_tables::connector_table::{
    ConnectionType, ConnectorOp, ConnectorTable, FieldSpec, Format, ProcessingMode,
    SourceOperator,
};
use planner_tables::error::PlanError;
use planner_tables::schema::{DataType, Field, ScalarType, TimeUnit};
use planner_tables::time_span::TimeSpan;

fn number(name: &str) -> Field {
    Field::new(name.to_string(), DataType::Scalar(ScalarType::Int64), true)
}

fn time(name: &str, zone: Option<&str>) -> Field {
    let zone = zone.map(|z| z.to_string());
    Field::new(name.to_string(), DataType::Timestamp(TimeUnit::Nanosecond, zone), false)
}

fn column(name: &str) -> Expr {
    Expr::Column(Column { relation: None, name: name.to_string() })
}

fn computed(field: Field) -> FieldSpec {
    FieldSpec::Virtual { field, expression: col("id") + lit(1) }
}

fn metadata(field: Field, key: &str) -> FieldSpec {
    FieldSpec::Metadata { field, key: key.to_string() }
}

fn table(fields: Vec<FieldSpec>, updating: bool) -> ConnectorTable {
    ConnectorTable {
        id: Some(3),
        connector: "kafka".to_string(),
        name: "events".to_string(),
        connection_type: ConnectionType::Source,
        fields,
        config: "cfg".to_string(),
        description: "desc".to_string(),
        format: Some(Format {
            debezium_json: updating,
            updating,
            definition: "json".to_string(),
        }),
        event_time_field: None,
        watermark_field: None,
        idle_time: Some(TimeSpan { secs: 5, nanos: 0 }),
        primary_keys: vec![],
        inferred_fields: None,
        lookup_cache_max_bytes: None,
        lookup_cache_ttl: None,
    }
}

fn source(table: &ConnectorTable) -> SourceOperator {
    match table.as_sql_source() {
        Ok(source) => source,
        Err(e) => panic!("no source: {:?}", e),
    }
}

fn refusal(table: &ConnectorTable) -> String {
    match table.as_sql_source() {
        Err(PlanError::Plan(message)) => message,
        other => panic!("not refused: {:?}", other),
    }
}

#[test]
fn columns_and_their_kinds() {
    let stored = FieldSpec::from(number("id"));
    assert!(!stored.is_virtual());
    assert_eq!(stored.field(), &number("id"));
    assert_eq!(stored.metadata_key(), None);
    let held = metadata(number("offset"), "offset_id");
    assert!(!held.is_virtual());
    assert_eq!(held.field(), &number("offset"));
    assert_eq!(held.metadata_key(), Some("offset_id"));
    let made = computed(number("next"));
    assert!(made.is_virtual());
    assert_eq!(made.field(), &number("next"));
    assert_eq!(made.metadata_key(), None);
    assert_eq!(made.clone(), made);
}

#[test]
fn a_source_reads_the_stored_columns() {
    let table = table(
        vec![
            FieldSpec::Struct(number("id")),
            computed(number("next")),
            metadata(number("offset"), "offset_id"),
        ],
        false,
    );
    let read = source(&table);
    assert_eq!(read.name, "events");
    assert_eq!(read.source.id, Some(3));
    assert_eq!(read.source.struct_def, vec![number("id"), number("offset")]);
    assert_eq!(table.physical_schema().fields, read.source.struct_def);
    assert_eq!(
        read.source.config,
        ConnectorOp {
            connector: "kafka".to_string(),
            config: "cfg".to_string(),
            description: "desc".to_string(),
        }
    );
    assert_eq!(read.source.processing_mode, ProcessingMode::Append);
    assert_eq!(read.source.idle_time, Some(TimeSpan { secs: 5, nanos: 0 }));
    assert_eq!(read.timestamp_override, None);
    assert_eq!(read.watermark_column, None);
}

#[test]
fn only_sources_are_read() {
    let mut table = table(vec![FieldSpec::Struct(number("id"))], false);
    table.connection_type = ConnectionType::Sink;
    assert_eq!(refusal(&table), "cannot read from sink");
    table.connection_type = ConnectionType::Lookup;
    assert_eq!(refusal(&table), "cannot read from sink");
}

#[test]
fn computed_columns_are_not_read_in_update_mode() {
    let made = vec![FieldSpec::Struct(number("id")), computed(number("next"))];
    let updates = table(made.clone(), true);
    assert!(updates.has_virtual_fields());
    assert!(updates.is_updating());
    assert_eq!(updates.processing_mode(), ProcessingMode::Update);
    assert_eq!(
        refusal(&updates),
        "can't read from a source with virtual fields and update mode."
    );
    source(&table(made, false));
    let read = source(&table(vec![FieldSpec::Struct(number("id"))], true));
    assert_eq!(read.source.processing_mode, ProcessingMode::Update);
}

#[test]
fn a_table_without_a_format_appends() {
    let mut table = table(vec![FieldSpec::Struct(number("id"))], true);
    table.format = None;
    assert!(!table.is_updating());
    assert_eq!(table.processing_mode(), ProcessingMode::Append);
}

#[test]
fn event_time_is_a_timestamp_column() {
    let mut table = table(
        vec![
            FieldSpec::Struct(number("seen")),
            FieldSpec::Struct(time("seen", None)),
            computed(time("made", Some("UTC"))),
        ],
        false,
    );
    table.event_time_field = Some("seen".to_string());
    table.watermark_field = Some("made".to_string());
    let read = source(&table);
    assert_eq!(read.timestamp_override, Some(column("seen")));
    assert_eq!(read.watermark_column, Some(column("made")));
    let found = table.get_time_field(&"seen".to_string());
    assert_eq!(found.ok(), Some(&FieldSpec::Struct(time("seen", None))));
}

#[test]
fn a_time_column_that_is_missing_is_named() {
    let mut table = table(vec![FieldSpec::Struct(number("id"))], false);
    table.event_time_field = Some("id".to_string());
    assert_eq!(refusal(&table), "field id not found or not a timestamp");
    table.event_time_field = None;
    table.watermark_field = Some("mark".to_string());
    assert_eq!(refusal(&table), "field mark not found or not a timestamp");
    table.event_time_field = Some("seen".to_string());
    assert_eq!(refusal(&table), "field seen not found or not a timestamp");
}

#[test]
fn updates_have_no_event_time() {
    let mut table = table(vec![FieldSpec::Struct(time("seen", None))], true);
    table.event_time_field = Some("seen".to_string());
    assert_eq!(refusal(&table), "can't use event_time_field with update mode.");
    table.event_time_field = None;
    table.watermark_field = Some("seen".to_string());
    assert_eq!(source(&table).watermark_column, Some(column("seen")));
}

#[test]
fn copies_say_the_same() {
    let mut table = table(
        vec![FieldSpec::Struct(time("seen", None)), computed(number("next"))],
        false,
    );
    table.event_time_field = Some("seen".to_string());
    table.primary_keys = vec!["id".to_string()];
    assert_eq!(table.clone(), table);
    let read = source(&table);
    assert_eq!(read.clone(), read);
}
