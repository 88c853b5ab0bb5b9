//! From a statement to the table that it defines or the insert that it makes.
//!
//! [`Table::try_from_statement`] and [`Insert::try_from_statement`] decide what
//! a statement is. What the query engine and the connector crates have to do in
//! between is asked for by the values that they and the functions after them
//! return.
use datafusion::common::DataFusionError;
use vstd::prelude::*;

use crate::columns::{
    ColumnDef, declared_columns, field_names, physical_columns, primary_key_names, primary_keys,
};
use crate::connector_table::{
    ConnectionType, ConnectorTable, FieldSpec, FieldSpecView, any_virtual, copy_columns, fields_of,
    has_virtual, spec_views,
};
use crate::error::{ErrorView, PlanError};
use crate::from_options::{NeedConnector, all_struct, connector_columns};
use crate::literal::{SqlValue, inner_string, value_to_inner_string};
use crate::schema::{TableReference, field_views};
use crate::schema_draft::{
    PlanKind, PlannedStatement, SchemaDraft, all_supported, filled, is_name_error, is_type_error,
};
use crate::settings::option_value;
use crate::string_map::{StringMap, without};
use crate::table::{QueryPlan, Table};
use crate::text::{concat2, is_text, spelled, spelled_option};
use crate::time_span::TimeSpan;

verus! {

/// The value of an option in a `WITH` clause.
#[derive(Debug)]
pub enum OptionValue {
    Literal(SqlValue),
    /// An expression that is no literal, as it is written.
    Expression(String),
}

/// An option in a `WITH` clause.
#[derive(Debug)]
pub enum SqlOption {
    KeyValue { key: String, value: OptionValue },
    /// An option that is no pair of a key and a value, in the form in which
    /// errors show it.
    Other(String),
}

/// A `CREATE TABLE` statement.
#[derive(Debug)]
pub struct CreateTable {
    pub name: String,
    pub columns: Vec<ColumnDef>,
    pub with_options: Vec<SqlOption>,
    /// Whether a query gives the rows.
    pub has_query: bool,
    pub temporary: bool,
}

/// A statement.
#[derive(Debug)]
pub enum Statement {
    CreateTable(CreateTable),
    /// An insert into the table, and whether a query gives the rows.
    Insert { table_name: String, has_source: bool },
    /// Anything else.
    Other,
}

/// The key and the text of an option, or the error where it has none.
pub open spec fn option_entry(option: SqlOption) -> Result<(Seq<char>, Seq<char>), ErrorView> {
    match option {
        SqlOption::KeyValue { key, value: OptionValue::Literal(value) } => match inner_string(
            value,
        ) {
            Ok(text) => Ok((key@, text)),
            Err(e) => Err(e),
        },
        SqlOption::KeyValue { key, value: OptionValue::Expression(text) } => Err(
            ErrorView::Plan("Expected a string literal in with clause, but found "@ + text@),
        ),
        SqlOption::Other(text) => Err(ErrorView::Plan("Invalid with option: "@ + text@)),
    }
}

/// Whether each option has a key and a text.
pub open spec fn all_readable(options: Seq<SqlOption>) -> bool {
    forall|i: int| 0 <= i < options.len() ==> option_entry(#[trigger] options[i]) is Ok
}

/// Whether the option at `i` is the first without a key and a text.
pub open spec fn first_unreadable(options: Seq<SqlOption>, i: int) -> bool {
    &&& 0 <= i < options.len()
    &&& option_entry(options[i]) is Err
    &&& forall|j: int| 0 <= j < i ==> option_entry(#[trigger] options[j]) is Ok
}

/// Whether the error is the one of the first option without a key and a text.
pub open spec fn is_option_error(options: Seq<SqlOption>, error: ErrorView) -> bool {
    exists|i: int|
        #[trigger] first_unreadable(options, i) && error == option_entry(options[i])->Err_0
}

/// The texts of the options by their keys. A later option replaces an earlier
/// one with the same key.
pub open spec fn options_map(options: Seq<SqlOption>) -> Map<Seq<char>, Seq<char>>
    decreases options.len(),
{
    if options.len() == 0 {
        Map::empty()
    } else {
        let entry = option_entry(options.last())->Ok_0;
        options_map(options.drop_last()).insert(entry.0, entry.1)
    }
}

/// The keys of the options in the order in which they occur first.
pub open spec fn options_keys(options: Seq<SqlOption>) -> Seq<Seq<char>>
    decreases options.len(),
{
    if options.len() == 0 {
        Seq::empty()
    } else {
        let key = option_entry(options.last())->Ok_0.0;
        let rest = options_keys(options.drop_last());
        if options_map(options.drop_last()).contains_key(key) {
            rest
        } else {
            rest.push(key)
        }
    }
}

fn read_option(option: &SqlOption) -> (entry: Result<(String, String), PlanError>)
    ensures
        match entry {
            Ok(entry) => option_entry(*option) == Ok::<(Seq<char>, Seq<char>), ErrorView>(
                (entry.0@, entry.1@),
            ),
            Err(e) => option_entry(*option) == Err::<(Seq<char>, Seq<char>), ErrorView>(e.view()),
        },
{
    match option {
        SqlOption::KeyValue { key, value: OptionValue::Literal(value) } => {
            match value_to_inner_string(value) {
                Ok(text) => Ok((key.clone(), text)),
                Err(e) => Err(e),
            }
        },
        SqlOption::KeyValue { key: _, value: OptionValue::Expression(text) } => Err(
            PlanError::plan_with(
                "Expected a string literal in with clause, but found ",
                text.as_str(),
            ),
        ),
        SqlOption::Other(text) => Err(PlanError::plan_with("Invalid with option: ", text.as_str())),
    }
}

/// The texts of the options by their keys, or the error of the first option
/// without a key and a text.
pub fn read_options(options: &Vec<SqlOption>) -> (map: Result<StringMap, PlanError>)
    ensures
        match map {
            Ok(map) => {
                &&& all_readable(options@)
                &&& map@ == options_map(options@)
                &&& map.key_list() == options_keys(options@)
            },
            Err(e) => is_option_error(options@, e.view()),
        },
{
    let mut map = StringMap::new();
    for i in 0..options.len()
        invariant
            all_readable(options@.take(i as int)),
            map@ == options_map(options@.take(i as int)),
            map.key_list() == options_keys(options@.take(i as int)),
    {
        proof {
            assert(options@.take(i + 1).drop_last() =~= options@.take(i as int));
            assert(options@.take(i + 1).last() == options@[i as int]);
        }
        match read_option(&options[i]) {
            Ok((key, value)) => {
                map.insert(key, value);
                proof {
                    assert forall|j: int| 0 <= j < i + 1 implies option_entry(
                        #[trigger] options@.take(i + 1)[j],
                    ) is Ok by {
                        if j < i {
                            assert(options@.take(i as int)[j] == options@[j]);
                        }
                    }
                }
            },
            Err(e) => {
                proof {
                    assert forall|j: int| 0 <= j < i implies option_entry(
                        #[trigger] options@[j],
                    ) is Ok by {
                        assert(options@.take(i as int)[j] == options@[j]);
                    }
                    assert(first_unreadable(options@, i as int));
                }
                return Err(e);
            },
        }
    }
    proof {
        assert(options@.take(options@.len() as int) =~= options@);
    }
    Ok(map)
}

/// A table whose columns are being worked out.
#[derive(Debug)]
pub struct TableDraft {
    pub name: String,
    pub temporary: bool,
    /// The name of the connector, where the options give one.
    pub connector: Option<String>,
    /// The other options.
    pub options: StringMap,
    /// The names of the primary key columns.
    pub primary_keys: Vec<String>,
    pub schema: SchemaDraft,
}

/// What a statement needs before it is known what table it defines.
#[derive(Debug)]
pub enum TableStep {
    /// The generated columns have to be planned.
    Columns(TableDraft),
    /// The statement has to be planned.
    Plan,
}

impl TableDraft {
    /// Whether the draft is the one that a statement starts with.
    pub open spec fn starts(self, create: CreateTable) -> bool {
        let map = options_map(create.with_options@);
        &&& self.name == create.name
        &&& self.temporary == create.temporary
        &&& spelled_option(self.connector) == option_value(map, "connector"@)
        &&& self.options@ == map.remove("connector"@)
        &&& self.options.key_list() == without(
            options_keys(create.with_options@),
            "connector"@,
        )
        &&& spelled(self.primary_keys@) == primary_key_names(create.columns@)
        &&& self.schema.table() == create.name@
        &&& self.schema.declared() == declared_columns(create.columns@)
        &&& self.schema.settled() == filled(
            declared_columns(create.columns@),
            Seq::<FieldSpecView>::empty(),
        )
    }
}

/// Whether the error is the first one in a list of columns.
pub open spec fn is_columns_error(columns: Seq<ColumnDef>, error: ErrorView) -> bool {
    ||| is_type_error(columns, error)
    ||| all_supported(columns) && is_name_error(
        field_names(physical_columns(declared_columns(columns))),
        error,
    )
}

impl Table {
    /// Starts to work out the table that a statement defines. A statement that
    /// lists columns is read here; every other one has to be planned.
    pub fn try_from_statement(statement: Statement) -> (step: Result<TableStep, PlanError>)
        ensures
            match statement {
                Statement::CreateTable(create) if !create.has_query => match step {
                    Ok(TableStep::Columns(draft)) => {
                        &&& all_readable(create.with_options@)
                        &&& all_supported(create.columns@)
                        &&& field_names(
                            physical_columns(declared_columns(create.columns@)),
                        ).no_duplicates()
                        &&& draft.starts(create)
                    },
                    Ok(TableStep::Plan) => false,
                    Err(e) => {
                        ||| is_option_error(create.with_options@, e.view())
                        ||| all_readable(create.with_options@) && is_columns_error(
                            create.columns@,
                            e.view(),
                        )
                    },
                },
                _ => step == Ok::<TableStep, PlanError>(TableStep::Plan),
            },
    {
        match statement {
            Statement::CreateTable(create) => {
                if create.has_query {
                    return Ok(TableStep::Plan);
                }
                let mut options = match read_options(&create.with_options) {
                    Ok(options) => options,
                    Err(e) => {
                        return Err(e);
                    },
                };
                let connector = options.remove("connector");
                let primary_keys = primary_keys(&create.columns);
                let table_name = create.name.clone();
                match Table::schema_from_columns(table_name, create.columns) {
                    Ok(schema) => Ok(
                        TableStep::Columns(
                            TableDraft {
                                name: create.name,
                                temporary: create.temporary,
                                connector,
                                options,
                                primary_keys,
                                schema,
                            },
                        ),
                    ),
                    Err(e) => Err(e),
                }
            },
            _ => Ok(TableStep::Plan),
        }
    }
}

/// The connection profile has to be found by its name, where there is one.
#[derive(Debug)]
pub struct NeedProfile {
    pub name: String,
    pub connector: String,
    pub temporary: bool,
    pub fields: Vec<FieldSpec>,
    pub primary_keys: Vec<String>,
    pub options: StringMap,
    pub profile: Option<String>,
}

/// What the columns and options of a statement make of it.
#[derive(Debug)]
pub enum TableOutcome {
    /// A table in memory.
    Memory(Table),
    /// A table of a connector, which has to be set up.
    Connector(NeedProfile),
}

/// Whether the table is held in memory: it names no connector, or `memory`.
pub open spec fn is_memory(connector: Option<Seq<char>>) -> bool {
    connector is None || connector == Some("memory"@)
}

/// What keeps a table from being held in memory.
pub open spec fn memory_error(
    connector: Option<Seq<char>>,
    fields: Seq<FieldSpecView>,
    options: Map<Seq<char>, Seq<char>>,
) -> Option<ErrorView> {
    if any_virtual(fields) {
        Some(
            ErrorView::Plan(
                "Virtual fields are not supported in memory tables; instead write a query"@,
            ),
        )
    } else if options != Map::<Seq<char>, Seq<char>>::empty() {
        if connector is Some {
            Some(ErrorView::Plan("Memory tables do not allow with options"@))
        } else {
            Some(
                ErrorView::Plan(
                    "Memory tables do not allow with options; to create a connection table set the 'connector' option"@,
                ),
            )
        }
    } else {
        None
    }
}

impl TableDraft {
    /// Ends the work on the columns.
    pub fn finish(self) -> (outcome: Result<TableOutcome, PlanError>)
        requires
            self.schema.complete(),
        ensures
            ({
                let connector = spelled_option(self.connector);
                let error = memory_error(connector, self.schema.settled(), self.options@);
                match outcome {
                    Ok(TableOutcome::Memory(table)) => {
                        &&& is_memory(connector)
                        &&& error is None
                        &&& table matches Table::MemoryTable { name, fields, logical_plan }
                            && name == self.name && field_views(fields@) == fields_of(
                            self.schema.settled(),
                        ) && logical_plan is None
                    },
                    Ok(TableOutcome::Connector(need)) => {
                        &&& !is_memory(connector)
                        &&& need.name == self.name
                        &&& Some(need.connector) == self.connector
                        &&& need.temporary == self.temporary
                        &&& spec_views(need.fields@) == self.schema.settled()
                        &&& need.primary_keys == self.primary_keys
                        &&& spelled_option(need.profile) == option_value(
                            self.options@,
                            "connection_profile"@,
                        )
                        &&& need.options@ == self.options@.remove("connection_profile"@)
                        &&& need.options.key_list() == without(
                            self.options.key_list(),
                            "connection_profile"@,
                        )
                    },
                    Err(e) => is_memory(connector) && error == Some(e.view()),
                }
            }),
    {
        let fields = self.schema.finish();
        let named = self.connector.is_some();
        let other = match self.connector {
            Some(connector) => {
                if is_text(&connector, "memory") {
                    None
                } else {
                    Some(connector)
                }
            },
            None => None,
        };
        match other {
            None => {
                if has_virtual(&fields) {
                    return Err(
                        PlanError::plan(
                            "Virtual fields are not supported in memory tables; instead write a query",
                        ),
                    );
                }
                if !self.options.is_empty() {
                    if named {
                        return Err(PlanError::plan("Memory tables do not allow with options"));
                    } else {
                        return Err(
                            PlanError::plan(
                                "Memory tables do not allow with options; to create a connection table set the 'connector' option",
                            ),
                        );
                    }
                }
                Ok(
                    TableOutcome::Memory(
                        Table::MemoryTable {
                            name: self.name,
                            fields: copy_columns(&fields),
                            logical_plan: None,
                        },
                    ),
                )
            },
            Some(connector) => {
                let mut options = self.options;
                let profile = options.remove("connection_profile");
                Ok(
                    TableOutcome::Connector(
                        NeedProfile {
                            name: self.name,
                            connector,
                            temporary: self.temporary,
                            fields,
                            primary_keys: self.primary_keys,
                            options,
                            profile,
                        },
                    ),
                )
            },
        }
    }
}

impl NeedProfile {
    /// Whether a profile is named that there is none of.
    pub open spec fn lacks_profile(self, found: bool) -> bool {
        self.profile is Some && !found
    }

    /// Goes on with whether there is a profile of the name.
    pub fn resume(self, found: bool, default_idle_time: Option<TimeSpan>) -> (stage: Result<
        NeedConnector,
        PlanError,
    >)
        requires
            !self.lacks_profile(found) && self.connector@ == "delta"@ ==> all_struct(
                spec_views(self.fields@),
            ),
        ensures
            match stage {
                Ok(stage) => {
                    &&& !self.lacks_profile(found)
                    &&& stage.request.name == self.name
                    &&& stage.request.connector == self.connector
                    &&& stage.request.temporary == self.temporary
                    &&& spec_views(stage.request.fields@) == connector_columns(
                        self.connector@,
                        spec_views(self.fields@),
                    )
                    &&& stage.request.primary_keys == self.primary_keys
                    &&& stage.request.profile == self.profile
                    &&& stage.request.default_idle_time == default_idle_time
                    &&& stage.options == self.options
                },
                Err(e) => {
                    &&& self.lacks_profile(found)
                    &&& e.view() == ErrorView::Plan(
                        "connection profile '"@ + self.profile->0@ + "' not found"@,
                    )
                },
            },
    {
        match &self.profile {
            Some(profile) => {
                if !found {
                    return Err(
                        PlanError::plan_around(
                            "connection profile '",
                            profile.as_str(),
                            "' not found",
                        ),
                    );
                }
            },
            None => {},
        }
        Ok(
            ConnectorTable::from_options(
                self.name,
                self.connector,
                self.temporary,
                self.fields,
                self.primary_keys,
                self.options,
                self.profile,
                default_idle_time,
            ),
        )
    }
}

impl Table {
    /// The table that a connector's table is: one for lookups, or one that is
    /// read or written. An error tells which table could not be created.
    pub fn from_connector(name: &String, outcome: Result<ConnectorTable, PlanError>) -> (table:
        Result<Option<Table>, PlanError>)
        ensures
            match outcome {
                Ok(connector_table) => table == Ok::<Option<Table>, PlanError>(
                    Some(
                        if connector_table.connection_type == ConnectionType::Lookup {
                            Table::LookupTable(connector_table)
                        } else {
                            Table::ConnectorTable(connector_table)
                        },
                    ),
                ),
                Err(e) => table matches Err(error) && error.view() == ErrorView::Context(
                    "Failed to create table "@ + name@,
                    Box::new(e.view()),
                ),
            },
    {
        match outcome {
            Ok(connector_table) => Ok(
                Some(
                    match connector_table.connection_type {
                        ConnectionType::Source | ConnectionType::Sink => Table::ConnectorTable(
                            connector_table,
                        ),
                        ConnectionType::Lookup => Table::LookupTable(connector_table),
                    },
                ),
            ),
            Err(e) => Err(e.context(concat2("Failed to create table ", name.as_str()))),
        }
    }

    /// What a planned statement needs before it is a table: only views and
    /// tables with a query are. A statement that cannot be planned is none.
    pub fn from_plan(plan: Result<PlannedStatement, DataFusionError>) -> (need: Option<NeedRewrite>)
        ensures
            match plan {
                Ok(PlannedStatement { kind: PlanKind::CreateView { name, input }, .. }) => need
                    == Some(NeedRewrite { name, input, materialize: true }),
                Ok(PlannedStatement { kind: PlanKind::CreateMemoryTable { name, input }, .. }) =>
                    need == Some(NeedRewrite { name, input, materialize: true }),
                _ => need is None,
            },
    {
        match plan {
            Ok(plan) => match plan.kind {
                PlanKind::CreateView { name, input } | PlanKind::CreateMemoryTable {
                    name,
                    input,
                } => Some(NeedRewrite { name, input, materialize: true }),
                _ => None,
            },
            Err(_) => None,
        }
    }
}

/// The query of a view has to be rewritten and wrapped as a remote table.
#[derive(Debug)]
pub struct NeedRewrite {
    pub name: TableReference,
    pub input: QueryPlan,
    /// Whether the remote table is materialized.
    pub materialize: bool,
}

impl NeedRewrite {
    /// Ends with the remote table. The text of its name is the table's name.
    pub fn resume(self, remote: Result<QueryPlan, DataFusionError>) -> (table: Result<
        Option<Table>,
        PlanError,
    >)
        ensures
            match remote {
                Ok(plan) => table matches Ok(Some(Table::TableFromQuery { name, logical_plan }))
                    && name@ == self.name.text() && logical_plan == plan,
                Err(e) => table matches Err(error) && error.view() == ErrorView::Engine(e),
            },
    {
        match remote {
            Ok(plan) => Ok(
                Some(Table::TableFromQuery { name: self.name.to_text(), logical_plan: plan }),
            ),
            Err(e) => Err(PlanError::Engine(e)),
        }
    }
}

/// The rows that a statement produces and where they go.
#[derive(Debug)]
pub enum Insert {
    /// The rows go into the table with the name.
    InsertQuery { sink_name: String, logical_plan: QueryPlan },
    /// The rows go to no table.
    Anonymous { logical_plan: QueryPlan },
}

/// What a statement needs before it is known where its rows go.
#[derive(Debug)]
pub enum InsertStep {
    /// The query that gives the rows has to be planned, and the columns of the
    /// table with the name are taken from its output.
    InferSink { table_name: String },
    /// The statement has to be planned.
    Plan,
}

impl Insert {
    /// Starts to work out where the rows of a statement go. An insert has to
    /// have a query.
    pub fn try_from_statement(statement: Statement) -> (step: InsertStep)
        requires
            statement matches Statement::Insert { has_source, .. } ==> has_source,
        ensures
            step == match statement {
                Statement::Insert { table_name, .. } => InsertStep::InferSink { table_name },
                _ => InsertStep::Plan,
            },
    {
        match statement {
            Statement::Insert { table_name, has_source: _ } => InsertStep::InferSink { table_name },
            _ => InsertStep::Plan,
        }
    }

    /// Goes on with what came of taking the table's columns from the output of
    /// the query: the statement is planned, unless that failed.
    pub fn after_inference(done: Result<(), PlanError>) -> (step: Result<InsertStep, PlanError>)
        ensures
            step == match done {
                Ok(()) => Ok::<InsertStep, PlanError>(InsertStep::Plan),
                Err(e) => Err::<InsertStep, PlanError>(e),
            },
    {
        match done {
            Ok(()) => Ok(InsertStep::Plan),
            Err(e) => Err(e),
        }
    }

    /// Where the rows of a planned statement go, or the error of the query
    /// engine where it could not be planned.
    pub fn from_plan(planned: Result<PlannedStatement, DataFusionError>) -> (insert: Result<
        Insert,
        PlanError,
    >)
        ensures
            match planned {
                Ok(plan) => match plan.kind {
                    PlanKind::Insert { table_name, input } => insert matches Ok(
                        Insert::InsertQuery { sink_name, logical_plan },
                    ) && sink_name@ == table_name.text() && logical_plan == input,
                    _ => insert == Ok::<Insert, PlanError>(
                        Insert::Anonymous { logical_plan: plan.plan },
                    ),
                },
                Err(e) => insert matches Err(error) && error.view() == ErrorView::Engine(e),
            },
    {
        match planned {
            Ok(plan) => match plan.kind {
                PlanKind::Insert { table_name, input } => Ok(
                    Insert::InsertQuery { sink_name: table_name.to_text(), logical_plan: input },
                ),
                _ => Ok(Insert::Anonymous { logical_plan: plan.plan }),
            },
            Err(e) => Err(PlanError::Engine(e)),
        }
    }
}

} // verus!
