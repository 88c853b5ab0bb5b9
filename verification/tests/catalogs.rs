use datafusion::common::DataFusionError;
use planner_tables::connector_table::{Connection, ConnectionType, ConnectorTable};
use planner_tables::error::PlanError;
use planner_tables::schema::{DFField, DataType, Field, ScalarType};
use planner_tables::schema_draft::{plan_generating_expr, GeneratingQuery};
use planner_tables::table::Table;
use planner_tables::table_catalog::{infer_sink_schema, TableCatalog};

fn number(name: &str) -> Field {
    Field::new(name.to_string(), DataType::Scalar(ScalarType::Int64), true)
}

fn memory(name: &str, field: &str) -> Table {
    Table::MemoryTable {
        name: name.to_string(),
        fields: vec![number(field)],
        logical_plan: None,
    }
}

fn sink(name: &str) -> Table {
    let connection = Connection {
        id: None,
        connector: "kafka".to_string(),
        name: name.to_string(),
        connection_type: ConnectionType::Sink,
        fields: vec![],
        format: None,
        config: String::new(),
        description: String::new(),
    };
    Table::ConnectorTable(ConnectorTable::from(connection, None))
}

fn output(name: &str) -> DFField {
    DFField { qualifier: None, field: number(name) }
}

fn table(catalog: &TableCatalog, key: &str) -> Option<Table> {
    catalog.get_table(&key.to_string()).cloned()
}

fn query() -> GeneratingQuery {
    plan_generating_expr(&"a + 1".to_string(), &"t".to_string(), &vec![number("a")])
}

#[test]
fn tables_are_found_under_their_keys() {
    let mut catalog = TableCatalog::new();
    assert_eq!(table(&catalog, "t"), None);
    catalog.insert_table("t".to_string(), memory("t", "a"));
    catalog.insert_table("u".to_string(), memory("u", "b"));
    assert_eq!(table(&catalog, "t"), Some(memory("t", "a")));
    catalog.insert_table("t".to_string(), memory("t", "c"));
    assert_eq!(table(&catalog, "t"), Some(memory("t", "c")));
    assert_eq!(table(&catalog, "u"), Some(memory("u", "b")));
    let copy = catalog.clone();
    assert_eq!(table(&copy, "t"), Some(memory("t", "c")));
    assert_eq!(table(&copy, "u"), Some(memory("u", "b")));
    assert_eq!(table(&copy, "v"), None);
}

#[test]
fn the_table_of_a_query_shadows_another() {
    let mut without = TableCatalog::new();
    without.insert_table("u".to_string(), memory("u", "b"));
    let mut with = without.clone();
    with.insert_table("t".to_string(), memory("t", "older"));
    for catalog in [&without, &with] {
        let bound = query().within("t".to_string(), catalog);
        assert_eq!(table(&bound, "t"), Some(memory("t", "a")));
        assert_eq!(table(&bound, "u"), Some(memory("u", "b")));
    }
    assert_eq!(table(&without, "t"), None);
    assert_eq!(table(&with, "t"), Some(memory("t", "older")));
}

#[test]
fn an_insert_changes_only_its_table() {
    let mut catalog = TableCatalog::new();
    catalog.insert_table("s".to_string(), sink("s"));
    catalog.insert_table("r".to_string(), sink("r"));
    let (key, name) = ("s".to_string(), "S".to_string());
    assert!(infer_sink_schema(&mut catalog, &key, &name, Ok(vec![output("a")])).is_ok());
    assert_eq!(table(&catalog, "s").map(|t| t.get_fields()), Some(vec![number("a")]));
    assert_eq!(table(&catalog, "r"), Some(sink("r")));
    match infer_sink_schema(&mut catalog, &key, &name, Ok(vec![output("b")])) {
        Err(PlanError::Plan(message)) => {
            assert_eq!(message, "all inserts into a table must share the same schema")
        }
        other => panic!("another result: {:?}", other),
    }
    assert_eq!(table(&catalog, "s").map(|t| t.get_fields()), Some(vec![number("a")]));
}

#[test]
fn an_insert_needs_a_table() {
    let mut catalog = TableCatalog::new();
    catalog.insert_table("s".to_string(), sink("s"));
    let (key, name) = ("nowhere".to_string(), "nowhere".to_string());
    match infer_sink_schema(&mut catalog, &key, &name, Ok(vec![])) {
        Err(PlanError::Plan(message)) => assert_eq!(message, "table nowhere not found"),
        other => panic!("another result: {:?}", other),
    }
    assert_eq!(table(&catalog, "s"), Some(sink("s")));
}

#[test]
fn an_insert_whose_query_cannot_be_planned_changes_nothing() {
    let mut catalog = TableCatalog::new();
    let (key, name) = ("nowhere".to_string(), "nowhere".to_string());
    let failed = Err(DataFusionError::Plan("no column x".to_string()));
    match infer_sink_schema(&mut catalog, &key, &name, failed) {
        Err(PlanError::Engine(DataFusionError::Plan(message))) => {
            assert_eq!(message, "no column x")
        }
        other => panic!("another result: {:?}", other),
    }
}
