//! What the options of a `WITH` clause make of a connection.
use arrow::compute::kernels::cast_utils::parse_interval_day_time;
use vstd::prelude::*;

use crate::connector_table::{
    Connection, ConnectionType, ConnectorTable, ConnectorTableView, FieldSpec, FieldSpecView,
    spec_views,
};
use crate::error::{ErrorView, PlanError};
use crate::string_map::{StringMap, without};
use crate::text::{
    number_i64, number_u64, parse_i64, parse_u64, quoted_list, render_quoted_list, spelled,
};
use crate::time_span::{
    TimeSpan, as_unsigned, low_signed, signed_low_bits, span_of_nanos, unsigned_bits,
};

verus! {

/// What `arrow::compute::kernels::cast_utils::parse_interval_day_time` makes of
/// a text: the days and milliseconds of the interval, or the text of the error.
pub uninterp spec fn interval_day_time(text: Seq<char>) -> Result<(i32, i32), Seq<char>>;

/// What a parsed interval says.
pub open spec fn interval_view(interval: Result<(i32, i32), String>) -> Result<
    (i32, i32),
    Seq<char>,
> {
    match interval {
        Ok(parts) => Ok(parts),
        Err(e) => Err(e@),
    }
}

/// What an optional parsed interval says.
pub open spec fn optional_interval(interval: Option<Result<(i32, i32), String>>) -> Option<
    Result<(i32, i32), Seq<char>>,
> {
    match interval {
        Some(interval) => Some(interval_view(interval)),
        None => None,
    }
}

/// `arrow::compute::kernels::cast_utils::parse_interval_day_time`: the result is
/// a function of the text alone, and is named by [`interval_day_time`].
#[verifier::external_body]
fn parse_interval(text: &str) -> (interval: Result<(i32, i32), String>)
    ensures
        interval_view(interval) == interval_day_time(text@),
{
    parse_interval_day_time(text).map(|t| (t.days, t.milliseconds)).map_err(|e| e.to_string())
}

/// The value of an option.
pub open spec fn option_value(options: Map<Seq<char>, Seq<char>>, key: Seq<char>) -> Option<
    Seq<char>,
> {
    if options.contains_key(key) {
        Some(options[key])
    } else {
        None
    }
}

/// The options that are read once the connection is set up.
pub open spec fn is_table_option(key: Seq<char>) -> bool {
    ||| key == "event_time_field"@
    ||| key == "watermark_field"@
    ||| key == "idle_micros"@
    ||| key == "lookup.cache.max_bytes"@
    ||| key == "lookup.cache.ttl"@
}

/// The keys that none of the table's options explains.
pub open spec fn unknown_keys(keys: Seq<Seq<char>>) -> Seq<Seq<char>> {
    keys.filter(|key: Seq<char>| !is_table_option(key))
}

/// The idle time that a number of microseconds stands for: only one that is not
/// positive is kept, and its bits are read as an unsigned number.
pub open spec fn idle_span(micros: int) -> Option<TimeSpan> {
    if micros <= 0 {
        Some(span_of_nanos(as_unsigned(micros) * 1000))
    } else {
        None
    }
}

/// The idle time that the options set.
pub open spec fn idle_setting(
    options: Map<Seq<char>, Seq<char>>,
    default_idle_time: Option<TimeSpan>,
) -> Result<Option<TimeSpan>, ErrorView> {
    match option_value(options, "idle_micros"@) {
        Some(text) => match number_i64(text) {
            Some(micros) => Ok(idle_span(micros as int)),
            None => Err(ErrorView::Plan("idle_micros must be set to a number"@)),
        },
        None => match default_idle_time {
            Some(span) => Ok(idle_span(low_signed(span.total_nanos() / 1000))),
            None => Ok(None),
        },
    }
}

/// The size of the lookup cache that the options set.
pub open spec fn max_bytes_setting(options: Map<Seq<char>, Seq<char>>) -> Result<
    Option<u64>,
    ErrorView,
> {
    match option_value(options, "lookup.cache.max_bytes"@) {
        Some(text) => match number_u64(text) {
            Some(bytes) => Ok(Some(bytes)),
            None => Err(ErrorView::Plan("lookup.cache.max_bytes must be set to a number"@)),
        },
        None => Ok(None),
    }
}

/// The length of an interval of days and milliseconds. The bits of the
/// milliseconds are read as an unsigned number.
pub open spec fn interval_span(days: int, millis: int) -> TimeSpan {
    span_of_nanos(days * 86_400_000_000_000 + as_unsigned(millis) * 1_000_000)
}

/// How long the lookup cache keeps an entry, given the parsed interval.
pub open spec fn ttl_setting(interval: Option<Result<(i32, i32), Seq<char>>>) -> Result<
    Option<TimeSpan>,
    ErrorView,
> {
    match interval {
        Some(Ok((days, millis))) => Ok(Some(interval_span(days as int, millis as int))),
        Some(Err(e)) => Err(
            ErrorView::Plan("lookup.cache.ttl must be a valid interval ("@ + e + ")"@),
        ),
        None => Ok(None),
    }
}

/// The parsed interval of the lookup cache's option.
pub open spec fn ttl_interval(options: Map<Seq<char>, Seq<char>>) -> Option<
    Result<(i32, i32), Seq<char>>,
> {
    match option_value(options, "lookup.cache.ttl"@) {
        Some(text) => Some(interval_day_time(text)),
        None => None,
    }
}

/// Whether the days of the parsed interval are a negative number, which no span
/// of time can be made of, and no option that is read before has an error.
pub open spec fn ttl_out_of_range(
    options: Map<Seq<char>, Seq<char>>,
    default_idle_time: Option<TimeSpan>,
    interval: Option<Result<(i32, i32), Seq<char>>>,
) -> bool {
    &&& idle_setting(options, default_idle_time) is Ok
    &&& max_bytes_setting(options) is Ok
    &&& interval matches Some(Ok(parts)) && parts.0 < 0
}

/// The table that the options make of a connection. The columns of the
/// statement, where it has any, replace those of the connection. Each option has
/// to be one that the table knows, and a source of updates needs a primary key.
pub open spec fn settled_table(
    connection: Connection,
    fields: Seq<FieldSpecView>,
    primary_keys: Seq<Seq<char>>,
    options: StringMap,
    default_idle_time: Option<TimeSpan>,
    interval: Option<Result<(i32, i32), Seq<char>>>,
) -> Result<ConnectorTableView, ErrorView> {
    let base = connection.table(default_idle_time);
    if let Err(e) = idle_setting(options@, default_idle_time) {
        Err(e)
    } else if let Err(e) = max_bytes_setting(options@) {
        Err(e)
    } else if let Err(e) = ttl_setting(interval) {
        Err(e)
    } else if unknown_keys(options.key_list()).len() > 0 {
        Err(
            ErrorView::Plan(
                "unknown options provided in WITH clause: "@ + quoted_list(
                    unknown_keys(options.key_list()),
                ),
            ),
        )
    } else if base.connection_type == ConnectionType::Source && base.updating()
        && primary_keys.len() == 0 {
        Err(ErrorView::Plan("Debezium source must have at least one PRIMARY KEY field"@))
    } else {
        Ok(
            ConnectorTableView {
                fields: if fields.len() > 0 {
                    fields
                } else {
                    base.fields
                },
                event_time_field: option_value(options@, "event_time_field"@),
                watermark_field: option_value(options@, "watermark_field"@),
                idle_time: idle_setting(options@, default_idle_time)->Ok_0,
                lookup_cache_max_bytes: max_bytes_setting(options@)->Ok_0,
                lookup_cache_ttl: ttl_setting(interval)->Ok_0,
                primary_keys,
                ..base
            },
        )
    }
}

/// The idle time that the options set.
pub fn read_idle_time(options: &StringMap, default_idle_time: Option<TimeSpan>) -> (idle: Result<
    Option<TimeSpan>,
    PlanError,
>)
    ensures
        match idle {
            Ok(idle) => idle_setting(options@, default_idle_time) == Ok::<
                Option<TimeSpan>,
                ErrorView,
            >(idle),
            Err(e) => idle_setting(options@, default_idle_time) == Err::<
                Option<TimeSpan>,
                ErrorView,
            >(e.view()),
        },
{
    let micros: i64 = match options.get("idle_micros") {
        Some(text) => match parse_i64(text.as_str()) {
            Some(micros) => micros,
            None => {
                return Err(PlanError::plan("idle_micros must be set to a number"));
            },
        },
        None => match default_idle_time {
            Some(span) => signed_low_bits(span.as_micros()),
            None => {
                return Ok(None);
            },
        },
    };
    if micros <= 0 {
        Ok(Some(TimeSpan::from_micros(unsigned_bits(micros))))
    } else {
        Ok(None)
    }
}

/// The size of the lookup cache that the options set.
pub fn read_max_bytes(options: &StringMap) -> (bytes: Result<Option<u64>, PlanError>)
    ensures
        match bytes {
            Ok(bytes) => max_bytes_setting(options@) == Ok::<Option<u64>, ErrorView>(bytes),
            Err(e) => max_bytes_setting(options@) == Err::<Option<u64>, ErrorView>(e.view()),
        },
{
    match options.get("lookup.cache.max_bytes") {
        Some(text) => match parse_u64(text.as_str()) {
            Some(bytes) => Ok(Some(bytes)),
            None => Err(PlanError::plan("lookup.cache.max_bytes must be set to a number")),
        },
        None => Ok(None),
    }
}

/// The length of an interval of days and milliseconds.
pub fn span_of_interval(days: i32, millis: i32) -> (span: TimeSpan)
    requires
        days >= 0,
    ensures
        span == interval_span(days as int, millis as int),
{
    let days = TimeSpan::from_secs(days as u64 * 86_400);
    let millis = TimeSpan::from_millis(unsigned_bits(millis as i64));
    days.plus(millis)
}

/// The parsed interval of the lookup cache's option.
pub fn read_ttl(options: &StringMap) -> (interval: Option<Result<(i32, i32), String>>)
    ensures
        optional_interval(interval) == ttl_interval(options@),
{
    match options.get("lookup.cache.ttl") {
        Some(text) => Some(parse_interval(text.as_str())),
        None => None,
    }
}

/// The names of the table's options are different texts.
proof fn option_keys_differ()
    ensures
        "event_time_field"@ != "watermark_field"@,
{
    reveal_strlit("event_time_field");
    reveal_strlit("watermark_field");
    assert("event_time_field"@.len() != "watermark_field"@.len());
}

/// Filtering twice is filtering by both conditions.
proof fn lemma_filter_twice(
    list: Seq<Seq<char>>,
    first: spec_fn(Seq<char>) -> bool,
    second: spec_fn(Seq<char>) -> bool,
    both: spec_fn(Seq<char>) -> bool,
)
    requires
        forall|key: Seq<char>| #[trigger] both(key) == (first(key) && second(key)),
    ensures
        list.filter(first).filter(second) == list.filter(both),
    decreases list.len(),
{
    reveal(Seq::filter);
    if list.len() > 0 {
        let front = list.drop_last();
        lemma_filter_twice(front, first, second, both);
        assert(both(list.last()) == (first(list.last()) && second(list.last())));
        if first(list.last()) {
            assert(list.filter(first) =~= front.filter(first).push(list.last()));
            assert(list.filter(first).drop_last() =~= front.filter(first));
        }
    }
}

/// Taking the table's options out leaves the keys that they do not explain.
proof fn lemma_unknown_keys(keys: Seq<Seq<char>>)
    ensures
        without(
            without(
                without(
                    without(
                        without(keys, "event_time_field"@),
                        "watermark_field"@,
                    ),
                    "idle_micros"@,
                ),
                "lookup.cache.max_bytes"@,
            ),
            "lookup.cache.ttl"@,
        ) == unknown_keys(keys),
{
    let one = |key: Seq<char>| key != "event_time_field"@;
    let two = |key: Seq<char>| one(key) && key != "watermark_field"@;
    let three = |key: Seq<char>| two(key) && key != "idle_micros"@;
    let four = |key: Seq<char>| three(key) && key != "lookup.cache.max_bytes"@;
    let five = |key: Seq<char>| !is_table_option(key);
    lemma_filter_twice(keys, one, |key: Seq<char>| key != "watermark_field"@, two);
    lemma_filter_twice(keys, two, |key: Seq<char>| key != "idle_micros"@, three);
    lemma_filter_twice(keys, three, |key: Seq<char>| key != "lookup.cache.max_bytes"@, four);
    lemma_filter_twice(keys, four, |key: Seq<char>| key != "lookup.cache.ttl"@, five);
}

impl ConnectorTable {
    /// The table that the options make of a connection, given the parsed
    /// interval of the lookup cache's option.
    pub fn from_connection(
        connection: Connection,
        fields: Vec<FieldSpec>,
        primary_keys: Vec<String>,
        options: StringMap,
        default_idle_time: Option<TimeSpan>,
        interval: Option<Result<(i32, i32), String>>,
    ) -> (table: Result<ConnectorTable, PlanError>)
        requires
            !ttl_out_of_range(options@, default_idle_time, optional_interval(interval)),
        ensures
            ({
                let settled = settled_table(
                    connection,
                    spec_views(fields@),
                    spelled(primary_keys@),
                    options,
                    default_idle_time,
                    optional_interval(interval),
                );
                match table {
                    Ok(table) => settled == Ok::<ConnectorTableView, ErrorView>(table.view()),
                    Err(e) => settled == Err::<ConnectorTableView, ErrorView>(e.view()),
                }
            }),
    {
        let mut options = options;
        let ghost given = options;
        let idle_time = match read_idle_time(&options, default_idle_time) {
            Ok(idle_time) => idle_time,
            Err(e) => {
                return Err(e);
            },
        };
        let max_bytes = match read_max_bytes(&options) {
            Ok(max_bytes) => max_bytes,
            Err(e) => {
                return Err(e);
            },
        };
        let ttl = match interval {
            Some(Ok((days, millis))) => Some(span_of_interval(days, millis)),
            Some(Err(e)) => {
                return Err(
                    PlanError::plan_around(
                        "lookup.cache.ttl must be a valid interval (",
                        e.as_str(),
                        ")",
                    ),
                );
            },
            None => None,
        };
        let mut table = ConnectorTable::from(connection, default_idle_time);
        if fields.len() > 0 {
            table.fields = fields;
        }
        proof {
            option_keys_differ();
        }
        table.event_time_field = options.remove("event_time_field");
        table.watermark_field = options.remove("watermark_field");
        options.remove("idle_micros");
        options.remove("lookup.cache.max_bytes");
        options.remove("lookup.cache.ttl");
        table.idle_time = idle_time;
        table.lookup_cache_max_bytes = max_bytes;
        table.lookup_cache_ttl = ttl;
        proof {
            lemma_unknown_keys(given.key_list());
        }
        if options.len() > 0 {
            let keys = options.keys();
            let list = render_quoted_list(&keys);
            return Err(
                PlanError::plan_with("unknown options provided in WITH clause: ", list.as_str()),
            );
        }
        let updating = table.is_updating();
        let is_source = match table.connection_type {
            ConnectionType::Source => true,
            _ => false,
        };
        if is_source && updating && primary_keys.len() == 0 {
            return Err(
                PlanError::plan("Debezium source must have at least one PRIMARY KEY field"),
            );
        }
        table.primary_keys = primary_keys;
        Ok(table)
    }

    /// The table that the options make of a connection. There is none where the
    /// days of the lookup cache's interval are a negative number, which no span
    /// of time can be made of.
    pub fn try_from_connection(
        connection: Connection,
        fields: Vec<FieldSpec>,
        primary_keys: Vec<String>,
        options: StringMap,
        default_idle_time: Option<TimeSpan>,
    ) -> (table: Option<Result<ConnectorTable, PlanError>>)
        ensures
            ({
                let settled = settled_table(
                    connection,
                    spec_views(fields@),
                    spelled(primary_keys@),
                    options,
                    default_idle_time,
                    ttl_interval(options@),
                );
                match table {
                    Some(table) => {
                        &&& !ttl_out_of_range(
                            options@,
                            default_idle_time,
                            ttl_interval(options@),
                        )
                        &&& match table {
                            Ok(table) => settled == Ok::<ConnectorTableView, ErrorView>(
                                table.view(),
                            ),
                            Err(e) => settled == Err::<ConnectorTableView, ErrorView>(e.view()),
                        }
                    },
                    None => ttl_out_of_range(options@, default_idle_time, ttl_interval(options@)),
                }
            }),
    {
        let interval = read_ttl(&options);
        let negative = match &interval {
            Some(Ok((days, _))) => *days < 0,
            _ => false,
        };
        if negative {
            match read_idle_time(&options, default_idle_time) {
                Ok(_) => {},
                Err(e) => {
                    return Some(Err(e));
                },
            }
            return match read_max_bytes(&options) {
                Ok(_) => None,
                Err(e) => Some(Err(e)),
            };
        }
        Some(
            ConnectorTable::from_connection(
                connection,
                fields,
                primary_keys,
                options,
                default_idle_time,
                interval,
            ),
        )
    }
}

} // verus!
