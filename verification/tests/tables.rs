use std::sync::Arc;

use datafusion::common::DFSchema;
use datafusion::logical_expr::{EmptyRelation, LogicalPlan};
use planner_tables::connector_table::{ConnectionType, ConnectorOp, ConnectorTable, FieldSpec};
use planner_tables::error::PlanError;
use planner_tables::schema::{
    DFField, DataType, Field, ListKind, ScalarType, TableReference, TimeUnit, UnionMode,
};
use planner_tables::table::{has_same_output, QueryPlan, Table};

fn number(name: &str) -> Field {
    Field::new(name.to_string(), DataType::Scalar(ScalarType::Int64), true)
}

fn output(name: &str, relation: Option<&str>, data_type: DataType, nullable: bool) -> DFField {
    DFField {
        qualifier: relation.map(|r| TableReference::Bare { table: r.to_string() }),
        field: Field::new(name.to_string(), data_type, nullable),
    }
}

fn int64() -> DataType {
    DataType::Scalar(ScalarType::Int64)
}

fn text() -> DataType {
    DataType::Scalar(ScalarType::Utf8)
}

fn plan(fields: Vec<Field>) -> QueryPlan {
    let empty = EmptyRelation { produce_one_row: false, schema: Arc::new(DFSchema::empty()) };
    QueryPlan { plan: LogicalPlan::EmptyRelation(empty), fields }
}

fn connector_table(fields: Vec<FieldSpec>) -> ConnectorTable {
    ConnectorTable {
        id: None,
        connector: "kafka".to_string(),
        name: "sink".to_string(),
        connection_type: ConnectionType::Sink,
        fields,
        config: "cfg".to_string(),
        description: "desc".to_string(),
        format: None,
        event_time_field: None,
        watermark_field: None,
        idle_time: None,
        primary_keys: vec![],
        inferred_fields: None,
        lookup_cache_max_bytes: None,
        lookup_cache_ttl: None,
    }
}

fn default_sink() -> ConnectorOp {
    ConnectorOp {
        connector: "preview".to_string(),
        config: String::new(),
        description: "PreviewSink".to_string(),
    }
}

fn plan_text(e: PlanError) -> String {
    match e {
        PlanError::Plan(message) => message,
        other => panic!("another error: {:?}", other),
    }
}

#[test]
fn tables_have_names() {
    let memory = Table::MemoryTable { name: "m".to_string(), fields: vec![], logical_plan: None };
    assert_eq!(memory.name(), "m");
    let query = Table::TableFromQuery { name: "v".to_string(), logical_plan: plan(vec![]) };
    assert_eq!(query.name(), "v");
    assert_eq!(Table::ConnectorTable(connector_table(vec![])).name(), "sink");
    assert_eq!(Table::LookupTable(connector_table(vec![])).name(), "sink");
    assert_eq!(Table::PreviewSink { logical_plan: plan(vec![]) }.name(), "preview");
}

#[test]
fn tables_have_rows() {
    let memory = Table::MemoryTable {
        name: "m".to_string(),
        fields: vec![number("a")],
        logical_plan: None,
    };
    assert_eq!(memory.get_fields(), vec![number("a")]);
    let query =
        Table::TableFromQuery { name: "v".to_string(), logical_plan: plan(vec![number("b")]) };
    assert_eq!(query.get_fields(), vec![number("b")]);
    let preview = Table::PreviewSink { logical_plan: plan(vec![number("c")]) };
    assert_eq!(preview.get_fields(), vec![number("c")]);
    let declared = connector_table(vec![FieldSpec::Struct(number("d"))]);
    assert_eq!(Table::ConnectorTable(declared.clone()).get_fields(), vec![number("d")]);
    assert_eq!(Table::LookupTable(declared).get_fields(), vec![number("d")]);
}

#[test]
fn inferred_fields_are_the_rows_of_a_table() {
    let mut table = Table::ConnectorTable(connector_table(vec![]));
    assert!(table.get_fields().is_empty());
    let fields = vec![output("a", Some("t"), int64(), true), output("b", None, text(), false)];
    assert!(table.set_inferred_fields(fields).is_ok());
    let expected = vec![number("a"), Field::new("b".to_string(), text(), false)];
    assert_eq!(table.get_fields(), expected);
    assert_eq!(table.name(), "sink");
}

#[test]
fn inserts_share_a_schema() {
    let mut table = Table::ConnectorTable(connector_table(vec![]));
    assert!(table.set_inferred_fields(vec![output("a", None, int64(), true)]).is_ok());
    assert!(table.set_inferred_fields(vec![output("a", Some("t"), int64(), false)]).is_ok());
    let before = table.get_fields();
    assert!(!before[0].nullable);
    let message = "all inserts into a table must share the same schema";
    for other in [
        vec![output("b", None, int64(), true)],
        vec![output("a", None, text(), true)],
        vec![output("a", None, int64(), true), output("b", None, int64(), true)],
        vec![],
    ] {
        match table.set_inferred_fields(other) {
            Err(e) => assert_eq!(plan_text(e), message),
            Ok(()) => panic!("accepted"),
        }
        assert_eq!(table.get_fields(), before);
    }
}

#[test]
fn the_same_insert_is_accepted_again() {
    let mut table = Table::ConnectorTable(connector_table(vec![]));
    assert!(table.set_inferred_fields(vec![output("a", None, int64(), true)]).is_ok());
    let once = table.clone();
    assert!(table.set_inferred_fields(vec![output("a", None, int64(), true)]).is_ok());
    assert_eq!(table, once);
}

#[test]
fn declared_columns_are_not_changed_by_inserts() {
    let declared = connector_table(vec![FieldSpec::Struct(number("d"))]);
    let lookup = connector_table(vec![]);
    let memory = Table::MemoryTable { name: "m".to_string(), fields: vec![], logical_plan: None };
    for mut table in [Table::ConnectorTable(declared), Table::LookupTable(lookup), memory] {
        let before = table.clone();
        assert!(table.set_inferred_fields(vec![output("a", None, int64(), true)]).is_ok());
        assert_eq!(table, before);
    }
}

#[test]
fn outputs_are_compared_by_name_and_type() {
    let a = vec![output("a", Some("t"), int64(), true)];
    let b = vec![output("a", None, int64(), false)];
    assert!(has_same_output(&a, &a));
    assert!(has_same_output(&a, &b));
    assert!(has_same_output(&b, &a));
    assert!(!has_same_output(&a, &vec![]));
    assert!(has_same_output(&vec![], &vec![]));
}

#[test]
fn what_is_written_needs_a_connector() {
    let expected = ConnectorOp {
        connector: "kafka".to_string(),
        config: "cfg".to_string(),
        description: "desc".to_string(),
    };
    let sink = Table::ConnectorTable(connector_table(vec![]));
    assert_eq!(sink.connector_op(default_sink()).ok(), Some(expected.clone()));
    let lookup = Table::LookupTable(connector_table(vec![]));
    assert_eq!(lookup.connector_op(default_sink()).ok(), Some(expected));
    let preview = Table::PreviewSink { logical_plan: plan(vec![]) };
    assert_eq!(preview.connector_op(default_sink()).ok(), Some(default_sink()));
    let memory = Table::MemoryTable { name: "m".to_string(), fields: vec![], logical_plan: None };
    match memory.connector_op(default_sink()) {
        Err(e) => assert_eq!(plan_text(e), "can't write to a memory table"),
        Ok(op) => panic!("written: {:?}", op),
    }
}

#[test]
fn types_are_compared_throughout() {
    let time = |unit, zone: Option<&str>| DataType::Timestamp(unit, zone.map(|z| z.to_string()));
    assert!(time(TimeUnit::Second, None).same_type(&time(TimeUnit::Second, None)));
    assert!(!time(TimeUnit::Second, None).same_type(&time(TimeUnit::Second, Some("UTC"))));
    assert!(!time(TimeUnit::Second, None).same_type(&time(TimeUnit::Nanosecond, None)));
    assert!(time(TimeUnit::Second, Some("UTC")).is_timestamp());
    assert!(!int64().is_timestamp());
    let row = |name: &str| DataType::struct_of(vec![number(name)]);
    assert!(row("a").same_type(&row("a")));
    assert!(!row("a").same_type(&row("b")));
    let list = |item: Field| DataType::List(ListKind::List, Box::new(item));
    assert!(list(number("a")).same_type(&list(number("a"))));
    assert!(!list(number("a")).same_type(&row("a")));
    let union = |tags: Vec<i8>| DataType::Union(UnionMode::Dense, tags, vec![number("a")]);
    assert!(union(vec![0]).same_type(&union(vec![0])));
    assert!(!union(vec![0]).same_type(&union(vec![1])));
    for data_type in [row("a"), list(number("a")), union(vec![0]), time(TimeUnit::Second, None)] {
        assert_eq!(data_type.clone(), data_type);
    }
    let mut tagged = number("a");
    tagged.metadata.insert("k".to_string(), "v".to_string());
    assert!(!tagged.same_field(&number("a")));
    assert!(tagged.same_field(&tagged.clone()));
}

fn dictionary(name: &str, dict_id: i64, dict_is_ordered: bool) -> Field {
    let keys = Box::new(DataType::Scalar(ScalarType::Int32));
    let mut field =
        Field::new(name.to_string(), DataType::Dictionary(keys, Box::new(text())), true);
    assert_eq!((field.dict_id, field.dict_is_ordered), (0, false));
    field.dict_id = dict_id;
    field.dict_is_ordered = dict_is_ordered;
    field
}

#[test]
fn fields_keep_their_dictionaries() {
    let memory = Table::MemoryTable {
        name: "m".to_string(),
        fields: vec![dictionary("a", 7, true)],
        logical_plan: None,
    };
    let fields = memory.get_fields();
    assert_eq!((fields[0].dict_id, fields[0].dict_is_ordered), (7, true));
    let declared = connector_table(vec![FieldSpec::Struct(dictionary("a", 8, true))]);
    let physical = declared.physical_schema().fields;
    assert_eq!((physical[0].dict_id, physical[0].dict_is_ordered), (8, true));
}

#[test]
fn dictionaries_are_not_compared() {
    assert_eq!(dictionary("a", 7, true), dictionary("a", 8, false));
    assert_ne!(dictionary("a", 7, true), dictionary("b", 7, true));
    let row = |dict_id| DataType::struct_of(vec![dictionary("a", dict_id, false)]);
    assert!(row(7).same_type(&row(8)));
    assert_eq!(row(7), row(8));
    let mut table = Table::ConnectorTable(connector_table(vec![]));
    assert!(table.set_inferred_fields(vec![output("r", None, row(7), true)]).is_ok());
    assert!(table.set_inferred_fields(vec![output("r", None, row(8), true)]).is_ok());
    match &table.get_fields()[0].data_type {
        DataType::Struct(fields) => assert_eq!(fields[0].dict_id, 8),
        other => panic!("another type: {:?}", other),
    }
}
