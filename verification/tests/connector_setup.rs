use datafusion::prelude::{col, lit};
use planner_tables::connector_table::{
    Connection, ConnectionType, ConnectorTable, FieldSpec, Format,
};
use planner_tables::error::PlanError;
use planner_tables::from_options::{
    BadData, ConnectionSchema, Framing, NeedBadData, NeedConnection, NeedConnector, NeedFormat,
    NeedFraming, NeedSchema, NeedSourceFields, SchemaColumn, SourceField,
};
use planner_tables::schema::{DataType, Field, ScalarType, TimeUnit};
use planner_tables::string_map::StringMap;
use planner_tables::time_span::TimeSpan;

fn number(name: &str) -> Field {
    Field::new(name.to_string(), DataType::Scalar(ScalarType::Int64), true)
}

fn time(name: &str, unit: TimeUnit, zone: Option<&str>) -> Field {
    let zone = zone.map(|z| z.to_string());
    Field::new(name.to_string(), DataType::Timestamp(unit, zone), true)
}

fn options(entries: &[(&str, &str)]) -> StringMap {
    let mut map = StringMap::new();
    for (key, value) in entries {
        map.insert(key.to_string(), value.to_string());
    }
    map
}

fn begin(connector: &str, temporary: bool, fields: Vec<FieldSpec>) -> NeedConnector {
    ConnectorTable::from_options(
        "orders".to_string(),
        connector.to_string(),
        temporary,
        fields,
        vec!["id".to_string()],
        options(&[("format", "json"), ("topic", "orders")]),
        Some("local".to_string()),
        Some(TimeSpan { secs: 300, nanos: 0 }),
    )
}

fn columns() -> Vec<FieldSpec> {
    vec![
        FieldSpec::Struct(number("id")),
        FieldSpec::Metadata { field: number("offset"), key: "offset_id".to_string() },
        FieldSpec::Virtual { field: number("next"), expression: col("id") + lit(1) },
    ]
}

fn json(debezium_json: bool) -> Format {
    Format { debezium_json, updating: debezium_json, definition: "json".to_string() }
}

fn need_format(stage: NeedConnector) -> NeedFormat {
    match stage.resume(true) {
        Ok(stage) => stage,
        Err(e) => panic!("refused: {:?}", e),
    }
}

fn need_framing(stage: NeedConnector, format: Option<Format>) -> NeedFraming {
    match need_format(stage).resume(Ok(format), options(&[("topic", "orders")])) {
        Ok(stage) => stage,
        Err(e) => panic!("refused: {:?}", e),
    }
}

fn need_source_fields(stage: NeedFraming, left: StringMap) -> NeedSourceFields {
    match stage.resume(Ok(None), left) {
        Ok(stage) => stage,
        Err(e) => panic!("refused: {:?}", e),
    }
}

fn described(stage: NeedSourceFields) -> NeedBadData {
    let converted = stage
        .columns
        .iter()
        .map(|c| Ok(SourceField { definition: c.field.name.clone(), metadata_key: None }))
        .collect();
    match stage.resume(converted) {
        Ok(stage) => stage,
        Err(e) => panic!("refused: {:?}", e),
    }
}

fn need_connection(fields: Vec<FieldSpec>) -> NeedConnection {
    let stage = need_framing(begin("kafka", false, fields), Some(json(false)));
    let stage = described(need_source_fields(stage, options(&[])));
    let stage: NeedSchema = match stage.resume(Ok(None), options(&[])) {
        Ok(stage) => stage,
        Err(e) => panic!("refused: {:?}", e),
    };
    match stage.resume(Ok(ConnectionSchema { definition: "schema".to_string() })) {
        Ok(stage) => stage,
        Err(e) => panic!("refused: {:?}", e),
    }
}

fn connection() -> Connection {
    Connection {
        id: Some(1),
        connector: "kafka".to_string(),
        name: "orders".to_string(),
        connection_type: ConnectionType::Source,
        fields: vec![number("of_connection")],
        format: Some(json(false)),
        config: "cfg".to_string(),
        description: "desc".to_string(),
    }
}

fn plan_text(e: PlanError) -> String {
    match e {
        PlanError::Plan(message) => message,
        other => panic!("another error: {:?}", other),
    }
}

#[test]
fn a_request_holds_what_was_asked() {
    let stage = begin("kafka", true, columns());
    assert_eq!(stage.request.name, "orders");
    assert_eq!(stage.request.connector, "kafka");
    assert!(stage.request.temporary);
    assert_eq!(stage.request.fields, columns());
    assert_eq!(stage.request.primary_keys, vec!["id".to_string()]);
    assert_eq!(stage.request.profile, Some("local".to_string()));
    assert_eq!(stage.request.default_idle_time, Some(TimeSpan { secs: 300, nanos: 0 }));
    assert_eq!(stage.options.keys(), vec!["format".to_string(), "topic".to_string()]);
}

#[test]
fn delta_stores_timestamps_in_microseconds() {
    let fields = vec![
        FieldSpec::Struct(time("nanos", TimeUnit::Nanosecond, None)),
        FieldSpec::Struct(time("micros", TimeUnit::Microsecond, None)),
        FieldSpec::Struct(time("zoned", TimeUnit::Nanosecond, Some("UTC"))),
        FieldSpec::Struct(number("id")),
    ];
    let stored = begin("delta", false, fields.clone()).request.fields;
    assert_eq!(
        stored,
        vec![
            FieldSpec::Struct(time("nanos", TimeUnit::Microsecond, None)),
            FieldSpec::Struct(time("micros", TimeUnit::Microsecond, None)),
            FieldSpec::Struct(time("zoned", TimeUnit::Nanosecond, Some("UTC"))),
            FieldSpec::Struct(number("id")),
        ]
    );
    assert_eq!(begin("delta", false, stored.clone()).request.fields, stored);
    assert_eq!(begin("kafka", false, fields.clone()).request.fields, fields);
}

#[test]
fn a_connector_has_to_be_found() {
    match begin("kafak", false, vec![]).resume(false) {
        Err(e) => assert_eq!(plan_text(e), "Unknown connector 'kafak'"),
        Ok(stage) => panic!("accepted: {:?}", stage),
    }
}

#[test]
fn a_format_has_to_be_parsed() {
    let stage = need_format(begin("kafka", false, vec![]));
    match stage.resume(Err("unknown format 'xml'".to_string()), options(&[])) {
        Err(e) => assert_eq!(plan_text(e), "invalid format: 'unknown format 'xml''"),
        Ok(stage) => panic!("accepted: {:?}", stage),
    }
}

#[test]
fn a_framing_has_to_be_parsed() {
    let stage = need_framing(begin("kafka", true, columns()), Some(json(true)));
    match stage.resume(Err("bad".to_string()), options(&[("type", "source")])) {
        Err(e) => assert_eq!(plan_text(e), "invalid framing: 'bad'"),
        Ok(stage) => panic!("accepted: {:?}", stage),
    }
}

#[test]
fn a_temporary_table_is_for_lookups() {
    let stage = need_framing(begin("redis", true, vec![]), None);
    let stage = need_source_fields(stage, options(&[("topic", "a")]));
    assert_eq!(stage.options.get("type").map(|s| s.as_str()), Some("lookup"));
    assert_eq!(stage.options.keys(), vec!["topic".to_string(), "type".to_string()]);
    let stage = need_framing(begin("redis", true, vec![]), None);
    let stage = need_source_fields(stage, options(&[("type", "lookup")]));
    assert_eq!(stage.options.keys(), vec!["type".to_string()]);
    let stage = need_framing(begin("redis", true, vec![]), None);
    match stage.resume(Ok(None), options(&[("type", "source")])) {
        Err(e) => assert_eq!(
            plan_text(e),
            "Cannot have a temporary table with type 'source'; temporary tables must be type 'lookup'"
        ),
        Ok(stage) => panic!("accepted: {:?}", stage),
    }
    let stage = need_framing(begin("redis", false, vec![]), None);
    let stage = need_source_fields(stage, options(&[("type", "source")]));
    assert_eq!(stage.options.get("type").map(|s| s.as_str()), Some("source"));
}

#[test]
fn a_message_has_the_stored_columns() {
    let stage = need_framing(begin("kafka", false, columns()), Some(json(false)));
    let stage = need_source_fields(stage, options(&[]));
    assert_eq!(
        stage.columns,
        vec![
            SchemaColumn { field: number("id"), metadata_key: None },
            SchemaColumn { field: number("offset"), metadata_key: Some("offset_id".to_string()) },
        ]
    );
}

#[test]
fn a_debezium_message_is_an_envelope() {
    let fields = vec![
        FieldSpec::Struct(number("id")),
        FieldSpec::Metadata { field: number("offset"), key: "offset_id".to_string() },
    ];
    let stage = need_framing(begin("kafka", false, fields), Some(json(true)));
    let stage = need_source_fields(stage, options(&[]));
    let row = DataType::Struct(vec![number("id"), number("offset")]);
    let envelope = |name: &str, data_type: DataType, nullable: bool| SchemaColumn {
        field: Field::new(name.to_string(), data_type, nullable),
        metadata_key: None,
    };
    assert_eq!(
        stage.columns,
        vec![
            envelope("before", row.clone(), true),
            envelope("after", row, true),
            envelope("op", DataType::Scalar(ScalarType::Utf8), false),
        ]
    );
    assert_eq!(stage.request.fields.len(), 2);
}

#[test]
fn an_envelope_has_no_computed_columns() {
    let stage = need_framing(begin("kafka", false, columns()), Some(json(true)));
    match stage.resume(Ok(None), options(&[])) {
        Err(e) => assert_eq!(plan_text(e), "can't use virtual fields with debezium format"),
        Ok(stage) => panic!("accepted: {:?}", stage),
    }
}

#[test]
fn a_column_for_metadata_keeps_its_key() {
    let stage = need_framing(begin("kafka", false, columns()), None);
    let stage = need_source_fields(stage, options(&[]));
    let converted = vec![
        Ok(SourceField { definition: "id".to_string(), metadata_key: Some("own".to_string()) }),
        Ok(SourceField { definition: "offset".to_string(), metadata_key: Some("x".to_string()) }),
    ];
    match stage.resume(converted) {
        Ok(stage) => assert_eq!(
            stage.schema_fields,
            vec![
                SourceField { definition: "id".to_string(), metadata_key: Some("own".to_string()) },
                SourceField {
                    definition: "offset".to_string(),
                    metadata_key: Some("offset_id".to_string()),
                },
            ]
        ),
        Err(e) => panic!("refused: {:?}", e),
    }
}

#[test]
fn the_first_column_that_cannot_be_described_is_named() {
    let stage = need_framing(begin("kafka", false, columns()), None);
    let stage = need_source_fields(stage, options(&[]));
    let converted = vec![Err("Int64".to_string()), Err("Date32".to_string())];
    match stage.resume(converted) {
        Err(e) => assert_eq!(
            plan_text(e),
            "field 'id' has a type 'Int64' that cannot be used in a connection table"
        ),
        Ok(stage) => panic!("accepted: {:?}", stage),
    }
}

#[test]
fn the_treatment_of_bad_data_has_to_be_parsed() {
    let bad = |fields| {
        let stage = need_framing(begin("kafka", false, fields), None);
        described(need_source_fields(stage, options(&[])))
    };
    match bad(vec![]).resume(Err("what".to_string()), options(&[])) {
        Err(e) => assert_eq!(plan_text(e), "Invalid bad_data: 'what'"),
        Ok(stage) => panic!("accepted: {:?}", stage),
    }
    let drop = BadData { definition: "drop".to_string() };
    match bad(vec![]).resume(Ok(Some(drop)), options(&[("topic", "a")])) {
        Ok(stage) => {
            assert_eq!(stage.bad_data, Some(BadData { definition: "drop".to_string() }));
            assert_eq!(stage.inferred, Some(true));
            assert_eq!(stage.struct_name, None);
            assert_eq!(stage.definition, None);
            assert_eq!(stage.options.keys(), vec!["topic".to_string()]);
        }
        Err(e) => panic!("refused: {:?}", e),
    }
    match bad(columns()).resume(Ok(None), options(&[])) {
        Ok(stage) => {
            assert_eq!(stage.inferred, Some(false));
            assert_eq!(stage.schema_fields.len(), 2);
        }
        Err(e) => panic!("refused: {:?}", e),
    }
}

#[test]
fn framing_is_handed_on() {
    let stage = need_framing(begin("kafka", false, vec![]), Some(json(false)));
    let newline = Framing { definition: "newline".to_string() };
    match stage.resume(Ok(Some(newline)), options(&[])) {
        Ok(stage) => {
            let stage = described(stage);
            assert_eq!(stage.framing, Some(Framing { definition: "newline".to_string() }));
            assert_eq!(stage.format, Some(json(false)));
        }
        Err(e) => panic!("refused: {:?}", e),
    }
}

#[test]
fn a_schema_has_to_be_built() {
    let stage = need_framing(begin("kafka", false, vec![]), None);
    let stage = described(need_source_fields(stage, options(&[])));
    let stage = stage.resume(Ok(None), options(&[])).map(|stage| {
        stage.resume(Err("no format".to_string()))
    });
    match stage {
        Ok(Err(e)) => {
            assert_eq!(plan_text(e), "could not create connection schema: no format")
        }
        other => panic!("another result: {:?}", other),
    }
}

#[test]
fn a_connection_has_to_be_set_up() {
    match need_connection(columns()).resume(Err("no topic".to_string()), options(&[])) {
        Some(Err(e)) => assert_eq!(plan_text(e), "no topic"),
        other => panic!("another result: {:?}", other),
    }
}

#[test]
fn a_connection_becomes_a_table() {
    let left = options(&[("event_time_field", "seen"), ("lookup.cache.ttl", "2 days")]);
    match need_connection(columns()).resume(Ok(connection()), left) {
        Some(Ok(table)) => {
            assert_eq!(table.id, Some(1));
            assert_eq!(table.fields, columns());
            assert_eq!(table.primary_keys, vec!["id".to_string()]);
            assert_eq!(table.event_time_field, Some("seen".to_string()));
            assert_eq!(table.lookup_cache_ttl, Some(TimeSpan { secs: 172800, nanos: 0 }));
            assert_eq!(table.idle_time, None);
        }
        other => panic!("no table: {:?}", other),
    }
    match need_connection(vec![]).resume(Ok(connection()), options(&[])) {
        Some(Ok(table)) => {
            assert_eq!(table.fields, vec![FieldSpec::Struct(number("of_connection"))])
        }
        other => panic!("no table: {:?}", other),
    }
}

#[test]
fn a_connection_with_options_left_is_refused() {
    match need_connection(columns()).resume(Ok(connection()), options(&[("topic", "a")])) {
        Some(Err(e)) => {
            assert_eq!(plan_text(e), "unknown options provided in WITH clause: 'topic'")
        }
        other => panic!("another result: {:?}", other),
    }
    let left = options(&[("lookup.cache.ttl", "-2 days")]);
    assert!(need_connection(columns()).resume(Ok(connection()), left).is_none());
}
