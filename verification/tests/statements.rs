use std::sync::Arc;

use datafusion::common::{DFSchema, DataFusionError, TableReference as EngineReference};
use datafusion::logical_expr::{EmptyRelation, LogicalPlan};
use datafusion::prelude::{col, lit};
use planner_tables::columns::{
    copy_names, declare_columns, physical_fields, primary_keys, ColumnDef, ColumnOption,
    ColumnType,
};
use planner_tables::connector_table::{
    Connection, ConnectionType, ConnectorTable, FieldSpec, Format,
};
use planner_tables::error::PlanError;
use planner_tables::literal::{LiteralKind, SqlValue};
use planner_tables::metadata::{ExprHead, ExprTree};
use planner_tables::schema::{DataType, Field, ScalarType, TableReference};
use planner_tables::schema_draft::{
    generated_expression, plan_generating_expr, PlanKind, PlannedExpr, PlannedStatement,
    SchemaDraft,
};
use planner_tables::statement::{
    read_options, CreateTable, Insert, InsertStep, NeedProfile, OptionValue, SqlOption, Statement,
    TableDraft, TableOutcome, TableStep,
};
use planner_tables::string_map::StringMap;
use planner_tables::table::{QueryPlan, Table};

fn int64() -> DataType {
    DataType::Scalar(ScalarType::Int64)
}

fn number(name: &str) -> Field {
    Field::new(name.to_string(), int64(), true)
}

fn column(name: &str, options: Vec<ColumnOption>) -> ColumnDef {
    ColumnDef {
        name: name.to_string(),
        column_type: Ok(ColumnType { data_type: int64(), metadata: StringMap::new() }),
        options,
    }
}

fn generated(name: &str, expr: &str) -> ColumnDef {
    column(name, vec![ColumnOption::Generated { generation_expr: Some(expr.to_string()) }])
}

fn unsupported(name: &str, message: &str) -> ColumnDef {
    ColumnDef {
        name: name.to_string(),
        column_type: Err(DataFusionError::Plan(message.to_string())),
        options: vec![],
    }
}

fn key_value(key: &str, value: SqlValue) -> SqlOption {
    SqlOption::KeyValue { key: key.to_string(), value: OptionValue::Literal(value) }
}

fn text_option(key: &str, value: &str) -> SqlOption {
    key_value(key, SqlValue::SingleQuotedString(value.to_string()))
}

fn create(columns: Vec<ColumnDef>, with_options: Vec<SqlOption>) -> Statement {
    Statement::CreateTable(CreateTable {
        name: "t".to_string(),
        columns,
        with_options,
        has_query: false,
        temporary: false,
    })
}

fn start(columns: Vec<ColumnDef>, with_options: Vec<SqlOption>) -> TableDraft {
    match Table::try_from_statement(create(columns, with_options)) {
        Ok(TableStep::Columns(draft)) => draft,
        other => panic!("no draft: {:?}", other),
    }
}

fn query_plan(fields: Vec<Field>) -> QueryPlan {
    let empty = EmptyRelation { produce_one_row: true, schema: Arc::new(DFSchema::empty()) };
    QueryPlan { plan: LogicalPlan::EmptyRelation(empty), fields }
}

fn bare(table: &str) -> TableReference {
    TableReference::Bare { table: table.to_string() }
}

fn planned(kind: PlanKind) -> PlannedStatement {
    PlannedStatement { plan: query_plan(vec![]), kind }
}

fn leaf(head: ExprHead) -> ExprTree {
    ExprTree { head, children: vec![] }
}

fn computed_expr() -> PlannedExpr {
    PlannedExpr {
        expression: col("a") + lit(1),
        tree: ExprTree {
            head: ExprHead::Other,
            children: vec![leaf(ExprHead::Other), leaf(ExprHead::Other)],
        },
    }
}

fn metadata_expr(key: &str) -> PlannedExpr {
    PlannedExpr {
        expression: lit(key),
        tree: ExprTree {
            head: ExprHead::ScalarFunction("metadata".to_string()),
            children: vec![leaf(ExprHead::StringLiteral(key.to_string()))],
        },
    }
}

fn project(expr: PlannedExpr) -> PlannedStatement {
    planned(PlanKind::Projection(vec![expr]))
}

fn next(draft: SchemaDraft, expr: PlannedExpr) -> SchemaDraft {
    assert!(draft.next_query().is_some());
    match draft.accept(project(expr)) {
        Ok(draft) => draft,
        Err(e) => panic!("not accepted: {:?}", e),
    }
}

fn schema_draft(columns: Vec<ColumnDef>) -> SchemaDraft {
    match Table::schema_from_columns("t".to_string(), columns) {
        Ok(draft) => draft,
        Err(e) => panic!("no draft: {:?}", e),
    }
}

fn plan_text(e: PlanError) -> String {
    match e {
        PlanError::Plan(message) => message,
        other => panic!("another error: {:?}", other),
    }
}

fn refusal(columns: Vec<ColumnDef>, with_options: Vec<SqlOption>) -> String {
    match Table::try_from_statement(create(columns, with_options)) {
        Err(e) => plan_text(e),
        other => panic!("not refused: {:?}", other),
    }
}

#[test]
fn columns_say_whether_they_may_be_null() {
    let columns = vec![
        column("a", vec![]),
        column("b", vec![ColumnOption::Other, ColumnOption::NotNull]),
        column("c", vec![ColumnOption::Unique { is_primary: true }]),
    ];
    match declare_columns(columns) {
        Ok(declared) => {
            assert!(declared[0].field.nullable);
            assert!(!declared[1].field.nullable);
            assert!(declared[2].field.nullable);
        }
        Err(e) => panic!("not declared: {:?}", e),
    }
}

#[test]
fn the_first_given_expression_generates_a_column() {
    let options = vec![
        ColumnOption::Generated { generation_expr: None },
        ColumnOption::Generated { generation_expr: Some("a + 1".to_string()) },
        ColumnOption::Generated { generation_expr: Some("a + 2".to_string()) },
    ];
    let columns = vec![
        column("a", vec![ColumnOption::Generated { generation_expr: None }]),
        column("b", options),
    ];
    match declare_columns(columns) {
        Ok(declared) => {
            assert_eq!(declared[0].generation_expr, None);
            assert_eq!(declared[1].generation_expr, Some("a + 1".to_string()));
            assert_eq!(physical_fields(&declared), vec![number("a")]);
        }
        Err(e) => panic!("not declared: {:?}", e),
    }
}

#[test]
fn a_type_adds_metadata_to_its_column() {
    let mut metadata = StringMap::new();
    metadata.insert("extension".to_string(), "json".to_string());
    let columns = vec![ColumnDef {
        name: "a".to_string(),
        column_type: Ok(ColumnType { data_type: int64(), metadata: metadata.clone() }),
        options: vec![],
    }];
    match declare_columns(columns) {
        Ok(declared) => {
            assert_eq!(declared[0].field.metadata, metadata);
            let physical = physical_fields(&declared);
            assert!(physical[0].metadata.is_empty());
            assert_eq!(copy_names(&physical), vec!["a".to_string()]);
        }
        Err(e) => panic!("not declared: {:?}", e),
    }
}

#[test]
fn primary_keys_are_listed_in_order() {
    let unique = |is_primary| vec![ColumnOption::Unique { is_primary }];
    let columns = vec![
        column("a", unique(true)),
        column("b", unique(false)),
        column("c", vec![]),
        column("d", unique(true)),
    ];
    assert_eq!(primary_keys(&columns), vec!["a".to_string(), "d".to_string()]);
}

#[test]
fn a_type_that_is_not_supported_is_refused() {
    let columns = vec![column("a", vec![]), unsupported("b", "first"), unsupported("c", "second")];
    match Table::schema_from_columns("t".to_string(), columns) {
        Err(PlanError::Engine(DataFusionError::Plan(message))) => assert_eq!(message, "first"),
        other => panic!("not refused: {:?}", other),
    }
}

#[test]
fn a_name_is_given_once() {
    let columns = vec![
        column("a", vec![]),
        column("b", vec![]),
        column("b", vec![]),
        column("a", vec![]),
    ];
    match Table::schema_from_columns("t".to_string(), columns) {
        Err(PlanError::DuplicateField(name)) => assert_eq!(name, "b"),
        other => panic!("not refused: {:?}", other),
    }
    let draft = schema_draft(vec![column("a", vec![]), generated("a", "1")]);
    assert!(draft.next_query().is_some());
    assert!(schema_draft(vec![column("a", vec![]), column("A", vec![])]).next_query().is_none());
}

#[test]
fn columns_without_expressions_need_no_plan() {
    let draft = schema_draft(vec![column("a", vec![]), column("b", vec![])]);
    assert!(draft.next_query().is_none());
    assert_eq!(
        draft.finish(),
        vec![FieldSpec::Struct(number("a")), FieldSpec::Struct(number("b"))]
    );
    assert!(schema_draft(vec![]).finish().is_empty());
}

#[test]
fn generated_columns_are_planned_in_order() {
    let draft = schema_draft(vec![
        column("a", vec![]),
        generated("b", "a + 1"),
        column("c", vec![]),
        generated("d", "metadata('offset_id')"),
    ]);
    match draft.next_query() {
        Some(query) => {
            assert_eq!(query.sql, "SELECT a + 1 from t");
            let table = Table::MemoryTable {
                name: "t".to_string(),
                fields: vec![number("a"), number("c")],
                logical_plan: None,
            };
            assert_eq!(query.table, table);
        }
        None => panic!("no query"),
    }
    let draft = next(draft, computed_expr());
    match draft.next_query() {
        Some(query) => assert_eq!(query.sql, "SELECT metadata('offset_id') from t"),
        None => panic!("no query"),
    }
    let draft = next(draft, metadata_expr("offset_id"));
    assert!(draft.next_query().is_none());
    assert_eq!(
        draft.finish(),
        vec![
            FieldSpec::Struct(number("a")),
            FieldSpec::Virtual { field: number("b"), expression: col("a") + lit(1) },
            FieldSpec::Struct(number("c")),
            FieldSpec::Metadata { field: number("d"), key: "offset_id".to_string() },
        ]
    );
}

#[test]
fn a_wrong_call_of_metadata_ends_the_work() {
    let draft = schema_draft(vec![generated("a", "lower(metadata('k'))")]);
    let expr = PlannedExpr {
        expression: lit(1),
        tree: ExprTree { head: ExprHead::Other, children: vec![metadata_expr("k").tree] },
    };
    match draft.accept(project(expr)) {
        Err(e) => assert_eq!(
            plan_text(e),
            "Metadata columns must have only a single call to 'metadata'"
        ),
        Ok(draft) => panic!("accepted: {:?}", draft),
    }
}

#[test]
fn a_query_computes_one_expression() {
    let query = plan_generating_expr(&"x * 2".to_string(), &"t".to_string(), &vec![number("x")]);
    assert_eq!(query.sql, "SELECT x * 2 from t");
    assert_eq!(query.table.get_fields(), vec![number("x")]);
    let plan = planned(PlanKind::Projection(vec![metadata_expr("first"), computed_expr()]));
    assert_eq!(generated_expression(plan).expression, lit("first"));
}

#[test]
fn options_have_keys_and_texts() {
    let options = vec![
        text_option("topic", "orders"),
        key_value("size", SqlValue::Number("3".to_string(), false)),
        text_option("topic", "returns"),
        key_value("exact", SqlValue::Boolean(true)),
    ];
    match read_options(&options) {
        Ok(map) => {
            assert_eq!(map.get("topic").map(|s| s.as_str()), Some("returns"));
            assert_eq!(map.get("size").map(|s| s.as_str()), Some("3"));
            assert_eq!(map.get("exact").map(|s| s.as_str()), Some("true"));
            assert_eq!(
                map.keys(),
                vec!["topic".to_string(), "size".to_string(), "exact".to_string()]
            );
        }
        Err(e) => panic!("not read: {:?}", e),
    }
}

#[test]
fn an_option_that_cannot_be_read_is_refused() {
    assert_eq!(
        refusal(vec![], vec![SqlOption::Other("Clustered(Index)".to_string())]),
        "Invalid with option: Clustered(Index)"
    );
    let expression = SqlOption::KeyValue {
        key: "topic".to_string(),
        value: OptionValue::Expression("a || b".to_string()),
    };
    assert_eq!(
        refusal(vec![], vec![expression]),
        "Expected a string literal in with clause, but found a || b"
    );
    let null = key_value("topic", SqlValue::Other(LiteralKind::Null, String::new()));
    assert_eq!(
        refusal(vec![unsupported("a", "no")], vec![null, SqlOption::Other("x".to_string())]),
        "Expected a string value, found Null"
    );
}

#[test]
fn a_table_without_a_connector_is_held_in_memory() {
    for options in [vec![], vec![text_option("connector", "memory")]] {
        let columns = vec![column("a", vec![ColumnOption::NotNull]), column("b", vec![])];
        match start(columns, options).finish() {
            Ok(TableOutcome::Memory(Table::MemoryTable { name, fields, logical_plan })) => {
                assert_eq!(name, "t");
                assert_eq!(fields[0].name, "a");
                assert!(!fields[0].nullable);
                assert_eq!(fields[1], number("b"));
                assert!(logical_plan.is_none());
            }
            other => panic!("another table: {:?}", other),
        }
    }
}

#[test]
fn tables_in_memory_have_no_options() {
    let outcome = |options: Vec<SqlOption>| match start(vec![], options).finish() {
        Err(e) => plan_text(e),
        Ok(outcome) => panic!("accepted: {:?}", outcome),
    };
    assert_eq!(
        outcome(vec![text_option("connector", "memory"), text_option("a", "1")]),
        "Memory tables do not allow with options"
    );
    assert_eq!(
        outcome(vec![text_option("a", "1")]),
        "Memory tables do not allow with options; to create a connection table set the 'connector' option"
    );
}

#[test]
fn tables_in_memory_have_no_computed_columns() {
    let mut draft = start(vec![generated("a", "1")], vec![text_option("x", "1")]);
    draft.schema = next(draft.schema, computed_expr());
    match draft.finish() {
        Err(e) => assert_eq!(
            plan_text(e),
            "Virtual fields are not supported in memory tables; instead write a query"
        ),
        Ok(outcome) => panic!("accepted: {:?}", outcome),
    }
    let mut draft = start(vec![generated("a", "metadata('k')")], vec![]);
    draft.schema = next(draft.schema, metadata_expr("k"));
    assert!(matches!(draft.finish(), Ok(TableOutcome::Memory(_))));
}

fn need_profile(options: Vec<SqlOption>) -> NeedProfile {
    let columns = vec![column("id", vec![ColumnOption::Unique { is_primary: true }])];
    match start(columns, options).finish() {
        Ok(TableOutcome::Connector(need)) => need,
        other => panic!("another table: {:?}", other),
    }
}

#[test]
fn a_connector_gets_the_columns_and_the_options() {
    let need = need_profile(vec![
        text_option("connector", "kafka"),
        text_option("topic", "orders"),
        text_option("connection_profile", "local"),
    ]);
    assert_eq!(need.profile, Some("local".to_string()));
    let stage = match need.resume(true, None) {
        Ok(stage) => stage,
        Err(e) => panic!("refused: {:?}", e),
    };
    assert_eq!(stage.request.name, "t");
    assert_eq!(stage.request.connector, "kafka");
    assert!(!stage.request.temporary);
    assert_eq!(stage.request.fields, vec![FieldSpec::Struct(number("id"))]);
    assert_eq!(stage.request.primary_keys, vec!["id".to_string()]);
    assert_eq!(stage.request.profile, Some("local".to_string()));
    assert_eq!(stage.options.keys(), vec!["topic".to_string()]);
}

#[test]
fn a_profile_has_to_be_found() {
    let options = vec![text_option("connector", "kafka"), text_option("connection_profile", "p")];
    match need_profile(options).resume(false, None) {
        Err(e) => assert_eq!(plan_text(e), "connection profile 'p' not found"),
        Ok(stage) => panic!("accepted: {:?}", stage),
    }
    let without = need_profile(vec![text_option("connector", "kafka")]);
    assert!(without.resume(false, None).is_ok());
}

fn connector_table(connection_type: ConnectionType) -> ConnectorTable {
    let connection = Connection {
        id: None,
        connector: "kafka".to_string(),
        name: "t".to_string(),
        connection_type,
        fields: vec![],
        format: Some(Format {
            debezium_json: false,
            updating: false,
            definition: String::new(),
        }),
        config: String::new(),
        description: String::new(),
    };
    ConnectorTable::from(connection, None)
}

#[test]
fn lookups_are_told_from_sources_and_sinks() {
    let name = "t".to_string();
    let table = |kind| Table::from_connector(&name, Ok(connector_table(kind))).ok();
    assert_eq!(
        table(ConnectionType::Source),
        Some(Some(Table::ConnectorTable(connector_table(ConnectionType::Source))))
    );
    assert_eq!(
        table(ConnectionType::Sink),
        Some(Some(Table::ConnectorTable(connector_table(ConnectionType::Sink))))
    );
    assert_eq!(
        table(ConnectionType::Lookup),
        Some(Some(Table::LookupTable(connector_table(ConnectionType::Lookup))))
    );
}

#[test]
fn an_error_names_the_table_that_it_prevented() {
    let error = PlanError::Plan("no such topic".to_string());
    match Table::from_connector(&"t".to_string(), Err(error)) {
        Err(PlanError::Context(description, cause)) => {
            assert_eq!(description, "Failed to create table t");
            assert_eq!(plan_text(*cause), "no such topic");
        }
        other => panic!("another result: {:?}", other),
    }
}

#[test]
fn statements_without_columns_are_planned() {
    let with_query = Statement::CreateTable(CreateTable {
        name: "t".to_string(),
        columns: vec![],
        with_options: vec![SqlOption::Other("ignored".to_string())],
        has_query: true,
        temporary: false,
    });
    assert!(matches!(Table::try_from_statement(with_query), Ok(TableStep::Plan)));
    assert!(matches!(Table::try_from_statement(Statement::Other), Ok(TableStep::Plan)));
    let insert = Statement::Insert { table_name: "t".to_string(), has_source: true };
    assert!(matches!(Table::try_from_statement(insert), Ok(TableStep::Plan)));
}

#[test]
fn views_are_tables_from_queries() {
    for kind in [
        PlanKind::CreateView { name: bare("v"), input: query_plan(vec![number("a")]) },
        PlanKind::CreateMemoryTable { name: bare("v"), input: query_plan(vec![number("a")]) },
    ] {
        let need = match Table::from_plan(Ok(planned(kind))) {
            Some(need) => need,
            None => panic!("no table"),
        };
        assert_eq!(need.name, bare("v"));
        assert_eq!(need.input, query_plan(vec![number("a")]));
        assert!(need.materialize);
        let table = need.resume(Ok(query_plan(vec![number("b")])));
        let expected = Table::TableFromQuery {
            name: "v".to_string(),
            logical_plan: query_plan(vec![number("b")]),
        };
        assert_eq!(table.ok(), Some(Some(expected)));
    }
}

#[test]
fn other_plans_are_no_tables() {
    assert!(Table::from_plan(Ok(planned(PlanKind::Other))).is_none());
    assert!(Table::from_plan(Ok(project(computed_expr()))).is_none());
    assert!(Table::from_plan(Err(DataFusionError::Plan("unknown table".to_string()))).is_none());
}

#[test]
fn a_view_that_cannot_be_rewritten_is_an_error() {
    let kind = PlanKind::CreateView { name: bare("v"), input: query_plan(vec![]) };
    let need = Table::from_plan(Ok(planned(kind))).map(|need| {
        need.resume(Err(DataFusionError::Plan("no window".to_string())))
    });
    match need {
        Some(Err(PlanError::Engine(DataFusionError::Plan(message)))) => {
            assert_eq!(message, "no window")
        }
        other => panic!("another result: {:?}", other),
    }
}

#[test]
fn inserts_infer_the_columns_of_their_table() {
    let insert = Statement::Insert { table_name: "sink".to_string(), has_source: true };
    match Insert::try_from_statement(insert) {
        InsertStep::InferSink { table_name } => assert_eq!(table_name, "sink"),
        other => panic!("another step: {:?}", other),
    }
    assert!(matches!(Insert::try_from_statement(Statement::Other), InsertStep::Plan));
}

#[test]
fn rows_go_into_the_table_of_an_insert() {
    let kind = PlanKind::Insert {
        table_name: bare("sink"),
        input: query_plan(vec![number("a")]),
    };
    match Insert::from_plan(Ok(planned(kind))) {
        Ok(Insert::InsertQuery { sink_name, logical_plan }) => {
            assert_eq!(sink_name, "sink");
            assert_eq!(logical_plan, query_plan(vec![number("a")]));
        }
        other => panic!("another insert: {:?}", other),
    }
    match Insert::from_plan(Ok(planned(PlanKind::Other))) {
        Ok(Insert::Anonymous { logical_plan }) => assert_eq!(logical_plan, query_plan(vec![])),
        other => panic!("another insert: {:?}", other),
    }
}

#[test]
fn a_name_with_a_dot_is_told_from_a_schema_and_a_table() {
    let qualified =
        TableReference::Partial { schema: "a".to_string(), table: "b".to_string() };
    for name in [bare("a.b"), qualified] {
        let kind = PlanKind::CreateView { name: name.clone(), input: query_plan(vec![]) };
        let need = match Table::from_plan(Ok(planned(kind))) {
            Some(need) => need,
            None => panic!("no table"),
        };
        assert_eq!(need.name, name);
        let table = need.resume(Ok(query_plan(vec![])));
        let table_name = table.ok().flatten().map(|table| table.name().to_string());
        assert_eq!(table_name, Some("a.b".to_string()));
    }
    assert_ne!(
        bare("a.b"),
        TableReference::Partial { schema: "a".to_string(), table: "b".to_string() }
    );
}

#[test]
fn the_text_of_a_name_is_that_of_the_engine() {
    let full = TableReference::Full {
        catalog: "c".to_string(),
        schema: "s".to_string(),
        table: "t".to_string(),
    };
    let partial = TableReference::Partial { schema: "s".to_string(), table: "t".to_string() };
    assert_eq!(full.to_text(), EngineReference::full("c", "s", "t").to_string());
    assert_eq!(full.to_text(), "c.s.t");
    assert_eq!(partial.to_text(), EngineReference::partial("s", "t").to_string());
    assert_eq!(bare("t").to_text(), EngineReference::bare("t").to_string());
    let kind = PlanKind::Insert { table_name: partial, input: query_plan(vec![]) };
    match Insert::from_plan(Ok(planned(kind))) {
        Ok(Insert::InsertQuery { sink_name, .. }) => assert_eq!(sink_name, "s.t"),
        other => panic!("another insert: {:?}", other),
    }
}

#[test]
fn a_statement_that_cannot_be_planned_ends_the_insert() {
    match Insert::from_plan(Err(DataFusionError::Plan("no such table".to_string()))) {
        Err(PlanError::Engine(DataFusionError::Plan(message))) => {
            assert_eq!(message, "no such table")
        }
        other => panic!("another result: {:?}", other),
    }
}

#[test]
fn an_insert_goes_on_after_its_table_has_columns() {
    assert!(matches!(Insert::after_inference(Ok(())), Ok(InsertStep::Plan)));
    match Insert::after_inference(Err(PlanError::Plan("differs".to_string()))) {
        Err(e) => assert_eq!(plan_text(e), "differs"),
        Ok(step) => panic!("went on: {:?}", step),
    }
}

#[test]
fn a_column_that_cannot_be_planned_ends_the_work() {
    let draft = schema_draft(vec![generated("a", "nope(1)")]);
    match draft.resume(Err(DataFusionError::Plan("no function nope".to_string()))) {
        Err(PlanError::Engine(DataFusionError::Plan(message))) => {
            assert_eq!(message, "no function nope")
        }
        other => panic!("another result: {:?}", other),
    }
    let draft = schema_draft(vec![generated("a", "1")]);
    match draft.resume(Ok(project(metadata_expr("k")))) {
        Ok(draft) => assert_eq!(
            draft.finish(),
            vec![FieldSpec::Metadata { field: number("a"), key: "k".to_string() }]
        ),
        Err(e) => panic!("not accepted: {:?}", e),
    }
}
