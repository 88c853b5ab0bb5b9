use arrow::compute::kernels::cast_utils::parse_interval_day_time;
use planner_tables::connector_table::{
    Connection, ConnectionType, ConnectorTable, FieldSpec, Format,
};
use planner_tables::error::PlanError;
use planner_tables::schema::{DataType, Field, ScalarType};
use planner_tables::settings::{read_idle_time, read_max_bytes, read_ttl, span_of_interval};
use planner_tables::string_map::StringMap;
use planner_tables::time_span::{signed_low_bits, unsigned_bits, TimeSpan};

fn options(entries: &[(&str, &str)]) -> StringMap {
    let mut map = StringMap::new();
    for (key, value) in entries {
        map.insert(key.to_string(), value.to_string());
    }
    map
}

fn span(secs: u64, nanos: u32) -> TimeSpan {
    TimeSpan { secs, nanos }
}

fn number_field(name: &str) -> Field {
    Field::new(name.to_string(), DataType::Scalar(ScalarType::Int64), true)
}

fn connection(connection_type: ConnectionType, updating: bool) -> Connection {
    Connection {
        id: Some(7),
        connector: "kafka".to_string(),
        name: "orders".to_string(),
        connection_type,
        fields: vec![number_field("of_connection")],
        format: Some(Format {
            debezium_json: updating,
            updating,
            definition: "json".to_string(),
        }),
        config: "{}".to_string(),
        description: "orders topic".to_string(),
    }
}

fn settle(entries: &[(&str, &str)]) -> Option<Result<ConnectorTable, PlanError>> {
    ConnectorTable::try_from_connection(
        connection(ConnectionType::Source, false),
        vec![],
        vec![],
        options(entries),
        None,
    )
}

fn settled(entries: &[(&str, &str)]) -> ConnectorTable {
    match settle(entries) {
        Some(Ok(table)) => table,
        other => panic!("no table: {:?}", other),
    }
}

fn refusal(entries: &[(&str, &str)]) -> String {
    match settle(entries) {
        Some(Err(PlanError::Plan(message))) => message,
        other => panic!("not refused: {:?}", other),
    }
}

#[test]
fn an_idle_time_that_is_not_positive_is_kept() {
    assert_eq!(read_idle_time(&options(&[("idle_micros", "0")]), None).ok(), Some(Some(span(0, 0))));
    assert_eq!(
        read_idle_time(&options(&[("idle_micros", "-1")]), None).ok(),
        Some(Some(span(18446744073709, 551615000)))
    );
    assert_eq!(settled(&[("idle_micros", "-0")]).idle_time, Some(span(0, 0)));
}

#[test]
fn a_positive_idle_time_is_dropped() {
    assert_eq!(read_idle_time(&options(&[("idle_micros", "1")]), None).ok(), Some(None));
    assert_eq!(read_idle_time(&options(&[("idle_micros", "+300000000")]), None).ok(), Some(None));
    assert_eq!(read_idle_time(&options(&[]), Some(span(300, 0))).ok(), Some(None));
    assert_eq!(settled(&[("idle_micros", "5")]).idle_time, None);
}

#[test]
fn the_default_idle_time_is_read_where_no_option_is() {
    assert_eq!(read_idle_time(&options(&[]), None).ok(), Some(None));
    assert_eq!(read_idle_time(&options(&[]), Some(span(0, 999))).ok(), Some(Some(span(0, 0))));
    let option = options(&[("idle_micros", "9")]);
    assert_eq!(read_idle_time(&option, Some(span(0, 0))).ok(), Some(None));
}

#[test]
fn an_idle_time_is_a_number() {
    let message = "idle_micros must be set to a number";
    assert_eq!(refusal(&[("idle_micros", "soon")]), message);
    assert_eq!(refusal(&[("idle_micros", "")]), message);
    assert_eq!(refusal(&[("idle_micros", "1 ")]), message);
    assert_eq!(refusal(&[("idle_micros", "-")]), message);
    assert_eq!(refusal(&[("idle_micros", "9223372036854775808")]), message);
    assert!(settle(&[("idle_micros", "9223372036854775807")]).is_some());
    assert_eq!(
        settled(&[("idle_micros", "-9223372036854775808")]).idle_time,
        Some(span(9223372036854, 775808000))
    );
}

#[test]
fn a_cache_size_is_a_number() {
    let message = "lookup.cache.max_bytes must be set to a number";
    assert_eq!(
        read_max_bytes(&options(&[("lookup.cache.max_bytes", "1048576")])).ok(),
        Some(Some(1048576))
    );
    assert_eq!(read_max_bytes(&options(&[("lookup.cache.max_bytes", "+7")])).ok(), Some(Some(7)));
    assert_eq!(read_max_bytes(&options(&[])).ok(), Some(None));
    assert_eq!(refusal(&[("lookup.cache.max_bytes", "-1")]), message);
    assert_eq!(refusal(&[("lookup.cache.max_bytes", "1mb")]), message);
    assert_eq!(refusal(&[("lookup.cache.max_bytes", "18446744073709551616")]), message);
    assert_eq!(
        settled(&[("lookup.cache.max_bytes", "18446744073709551615")]).lookup_cache_max_bytes,
        Some(u64::MAX)
    );
}

#[test]
fn an_interval_has_days_and_milliseconds() {
    assert_eq!(span_of_interval(1, 0), span(86400, 0));
    assert_eq!(span_of_interval(2, 1500), span(172801, 500000000));
    assert_eq!(span_of_interval(0, -5), span(18446744073709551, 611000000));
    assert_eq!(read_ttl(&options(&[("lookup.cache.ttl", "1 day")])), Some(Ok((1, 0))));
    assert_eq!(read_ttl(&options(&[("lookup.cache.ttl", "5 minutes")])), Some(Ok((0, 300000))));
    assert_eq!(read_ttl(&options(&[])), None);
}

#[test]
fn a_cache_keeps_entries_for_an_interval() {
    assert_eq!(
        settled(&[("lookup.cache.ttl", "1 day 2 seconds")]).lookup_cache_ttl,
        Some(span(86402, 0))
    );
    assert_eq!(settled(&[]).lookup_cache_ttl, None);
}

#[test]
fn an_interval_that_cannot_be_read_is_refused() {
    let shown = match parse_interval_day_time("a while") {
        Err(e) => e.to_string(),
        Ok(t) => panic!("an interval: {:?}", t),
    };
    assert_eq!(
        refusal(&[("lookup.cache.ttl", "a while")]),
        format!("lookup.cache.ttl must be a valid interval ({})", shown)
    );
}

#[test]
fn no_span_is_made_of_negative_days() {
    assert_eq!(read_ttl(&options(&[("lookup.cache.ttl", "-1 day")])), Some(Ok((-1, 0))));
    assert!(settle(&[("lookup.cache.ttl", "-1 day")]).is_none());
    assert_eq!(
        refusal(&[("lookup.cache.ttl", "-1 day"), ("idle_micros", "x")]),
        "idle_micros must be set to a number"
    );
    assert_eq!(
        refusal(&[("lookup.cache.ttl", "-1 day"), ("lookup.cache.max_bytes", "x")]),
        "lookup.cache.max_bytes must be set to a number"
    );
}

#[test]
fn the_first_wrong_setting_is_named() {
    let message = refusal(&[
        ("lookup.cache.ttl", "a while"),
        ("lookup.cache.max_bytes", "x"),
        ("idle_micros", "x"),
    ]);
    assert_eq!(message, "idle_micros must be set to a number");
    let message = refusal(&[("topic", "a"), ("lookup.cache.max_bytes", "x")]);
    assert_eq!(message, "lookup.cache.max_bytes must be set to a number");
}

#[test]
fn options_that_nothing_reads_are_refused() {
    assert_eq!(
        refusal(&[("topic", "orders")]),
        "unknown options provided in WITH clause: 'topic'"
    );
    assert_eq!(
        refusal(&[("a", "1"), ("event_time_field", "t"), ("b", "2"), ("c", "3")]),
        "unknown options provided in WITH clause: 'a', 'b', 'c'"
    );
}

#[test]
fn time_fields_are_taken_from_the_options() {
    let table = settled(&[("event_time_field", "seen_at"), ("watermark_field", "mark")]);
    assert_eq!(table.event_time_field, Some("seen_at".to_string()));
    assert_eq!(table.watermark_field, Some("mark".to_string()));
    let table = settled(&[]);
    assert_eq!(table.event_time_field, None);
    assert_eq!(table.watermark_field, None);
}

#[test]
fn a_table_keeps_its_connection() {
    let table = settled(&[]);
    assert_eq!(table.id, Some(7));
    assert_eq!(table.connector, "kafka");
    assert_eq!(table.name, "orders");
    assert_eq!(table.config, "{}");
    assert_eq!(table.description, "orders topic");
    assert_eq!(table.fields, vec![FieldSpec::Struct(number_field("of_connection"))]);
    assert!(table.primary_keys.is_empty());
    assert!(table.inferred_fields.is_none());
}

#[test]
fn declared_columns_replace_those_of_the_connection() {
    let declared = vec![FieldSpec::from(number_field("declared"))];
    let table = ConnectorTable::try_from_connection(
        connection(ConnectionType::Source, false),
        declared.clone(),
        vec!["declared".to_string()],
        options(&[]),
        None,
    );
    match table {
        Some(Ok(table)) => {
            assert_eq!(table.fields, declared);
            assert_eq!(table.primary_keys, vec!["declared".to_string()]);
        }
        other => panic!("no table: {:?}", other),
    }
}

#[test]
fn a_source_of_updates_needs_a_primary_key() {
    let settle = |connection_type: ConnectionType, keys: Vec<String>| {
        ConnectorTable::try_from_connection(
            connection(connection_type, true),
            vec![],
            keys,
            options(&[]),
            None,
        )
    };
    match settle(ConnectionType::Source, vec![]) {
        Some(Err(PlanError::Plan(message))) => {
            assert_eq!(message, "Debezium source must have at least one PRIMARY KEY field")
        }
        other => panic!("not refused: {:?}", other),
    }
    assert!(matches!(settle(ConnectionType::Source, vec!["id".to_string()]), Some(Ok(_))));
    assert!(matches!(settle(ConnectionType::Sink, vec![]), Some(Ok(_))));
}

#[test]
fn a_connection_is_a_table_with_the_default_idle_time() {
    let table = ConnectorTable::from(connection(ConnectionType::Lookup, false), Some(span(300, 0)));
    assert_eq!(table.idle_time, Some(span(300, 0)));
    assert_eq!(table.connection_type, ConnectionType::Lookup);
    assert_eq!(table.lookup_cache_max_bytes, None);
}

#[test]
fn a_given_interval_is_applied() {
    let settle = |interval| {
        ConnectorTable::from_connection(
            connection(ConnectionType::Lookup, false),
            vec![],
            vec![],
            options(&[]),
            None,
            interval,
        )
    };
    assert_eq!(
        settle(Some(Ok((1, 1)))).ok().and_then(|t| t.lookup_cache_ttl),
        Some(span(86400, 1000000))
    );
    match settle(Some(Err("bad".to_string()))) {
        Err(PlanError::Plan(message)) => {
            assert_eq!(message, "lookup.cache.ttl must be a valid interval (bad)")
        }
        other => panic!("not refused: {:?}", other),
    }
}

#[test]
fn spans_of_time() {
    assert_eq!(TimeSpan::from_secs(3), span(3, 0));
    assert_eq!(TimeSpan::from_millis(1234), span(1, 234000000));
    assert_eq!(TimeSpan::from_micros(1234567), span(1, 234567000));
    assert_eq!(span(1, 234567890).as_micros(), 1234567);
    assert_eq!(span(1, 600000000).plus(span(2, 500000000)), span(4, 100000000));
    assert_eq!(span(u64::MAX - 1, 0).plus(span(1, 999999999)), span(u64::MAX, 999999999));
    assert_eq!(unsigned_bits(-1), u64::MAX);
    assert_eq!(unsigned_bits(5), 5);
    assert_eq!(signed_low_bits(18446744073709551615), -1);
    assert_eq!(signed_low_bits(18446744073709551617), 1);
}
