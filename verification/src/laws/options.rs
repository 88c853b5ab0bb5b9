//! What options make of a connection.
use vstd::prelude::*;

use crate::connector_table::{Connection, ConnectionType, ConnectorTable, FieldSpec, FieldSpecView};
use crate::error::PlanError;
use crate::laws::terms::breaks_rule;
use crate::schema::field_views;
use crate::settings::{
    idle_setting, interval_day_time, read_idle_time, read_max_bytes, read_ttl, settled_table,
    span_of_interval, ttl_interval, unknown_keys,
};
use crate::string_map::StringMap;
use crate::text::{number_i64, number_u64, quoted_list, spelled};
use crate::time_span::{TimeSpan, as_unsigned, low_signed, span_of_nanos};

verus! {

/// Whether the span is `nanos` nanoseconds long.
pub open spec fn lasts(span: TimeSpan, nanos: int) -> bool {
    span.nanos < 1_000_000_000 && span.secs * 1_000_000_000 + span.nanos == nanos
}

/// What the bits of a number are without a sign.
pub open spec fn without_sign(n: int) -> int {
    if n < 0 {
        n + 18446744073709551616
    } else {
        n
    }
}

/// What the low bits of a number are with a sign.
pub open spec fn low_with_sign(n: int) -> int {
    let low = n % 18446744073709551616;
    if low >= 9223372036854775808 {
        low - 18446744073709551616
    } else {
        low
    }
}

/// Whether the idle time is what a number of microseconds stands for.
pub open spec fn is_idle_time(idle: Option<TimeSpan>, micros: int) -> bool {
    if micros > 0 {
        idle is None
    } else {
        idle matches Some(span) && lasts(span, without_sign(micros) * 1000)
    }
}

/// Whether an option for the idle time, if there is one, is a number.
pub open spec fn idle_readable(options: Map<Seq<char>, Seq<char>>) -> bool {
    options.contains_key("idle_micros"@) ==> number_i64(options["idle_micros"@]) is Some
}

/// Whether the idle time is the one that the options give, else the default one.
pub open spec fn idle_from_options(
    idle: Option<TimeSpan>,
    options: Map<Seq<char>, Seq<char>>,
    default_idle_time: Option<TimeSpan>,
) -> bool {
    if options.contains_key("idle_micros"@) {
        number_i64(options["idle_micros"@]) matches Some(micros) && is_idle_time(
            idle,
            micros as int,
        )
    } else {
        match default_idle_time {
            Some(span) => is_idle_time(
                idle,
                low_with_sign((span.secs * 1_000_000_000 + span.nanos) / 1000),
            ),
            None => idle is None,
        }
    }
}

/// Whether an option for the size of the cache, if there is one, is a number.
pub open spec fn bytes_readable(options: Map<Seq<char>, Seq<char>>) -> bool {
    options.contains_key("lookup.cache.max_bytes"@) ==> number_u64(
        options["lookup.cache.max_bytes"@],
    ) is Some
}

/// Whether the size is the one that the options give, or none.
pub open spec fn bytes_from_options(
    bytes: Option<u64>,
    options: Map<Seq<char>, Seq<char>>,
) -> bool {
    if options.contains_key("lookup.cache.max_bytes"@) {
        bytes is Some && number_u64(options["lookup.cache.max_bytes"@]) == bytes
    } else {
        bytes is None
    }
}

/// Whether a text is the one under the key, where there is one.
pub open spec fn is_text_under(
    text: Option<String>,
    options: Map<Seq<char>, Seq<char>>,
    key: Seq<char>,
) -> bool {
    if options.contains_key(key) {
        text matches Some(text) && text@ == options[key]
    } else {
        text is None
    }
}

/// Whether the key is one of those that a table reads.
#[verifier::opaque]
pub open spec fn is_known(key: Seq<char>) -> bool {
    ||| key == "event_time_field"@
    ||| key == "watermark_field"@
    ||| key == "idle_micros"@
    ||| key == "lookup.cache.max_bytes"@
    ||| key == "lookup.cache.ttl"@
}

/// The number of keys among the first `n` that no table reads.
pub open spec fn unknown_before(keys: Seq<Seq<char>>, n: int) -> nat
    decreases n,
{
    if n <= 0 {
        0
    } else if is_known(keys[n - 1]) {
        unknown_before(keys, n - 1)
    } else {
        unknown_before(keys, n - 1) + 1
    }
}

/// Whether the list has the keys that no table reads, in their order.
pub open spec fn lists_unknown(list: Seq<Seq<char>>, keys: Seq<Seq<char>>) -> bool {
    &&& list.len() == unknown_before(keys, keys.len() as int)
    &&& forall|i: int|
        0 <= i < keys.len() && !is_known(#[trigger] keys[i]) ==> {
            &&& unknown_before(keys, i) < list.len()
            &&& list[unknown_before(keys, i) as int] == keys[i]
        }
}

/// Whether the connection is a source of updates, which needs a primary key.
pub open spec fn needs_key(connection: Connection) -> bool {
    &&& connection.connection_type == ConnectionType::Source
    &&& connection.format matches Some(format) && format.updating
}

/// Whether every option can be read, every key is known, and there is a primary
/// key where one is needed.
pub open spec fn is_acceptable(
    connection: Connection,
    primary_keys: Seq<String>,
    options: StringMap,
    interval: Option<Result<(i32, i32), Seq<char>>>,
) -> bool {
    &&& idle_readable(options@)
    &&& bytes_readable(options@)
    &&& !(interval matches Some(Err(_)))
    &&& forall|i: int|
        0 <= i < options.key_list().len() ==> is_known(#[trigger] options.key_list()[i])
    &&& needs_key(connection) ==> primary_keys.len() > 0
}

/// Whether the error is the first that there is to tell.
pub open spec fn is_refusal(
    connection: Connection,
    primary_keys: Seq<String>,
    options: StringMap,
    interval: Option<Result<(i32, i32), Seq<char>>>,
    error: PlanError,
) -> bool {
    if !idle_readable(options@) {
        breaks_rule(error, "idle_micros must be set to a number"@)
    } else if !bytes_readable(options@) {
        breaks_rule(error, "lookup.cache.max_bytes must be set to a number"@)
    } else if let Some(Err(reason)) = interval {
        breaks_rule(error, "lookup.cache.ttl must be a valid interval ("@ + reason + ")"@)
    } else if unknown_before(options.key_list(), options.key_list().len() as int) > 0 {
        exists|list: Seq<Seq<char>>| #[trigger]
            lists_unknown(list, options.key_list()) && breaks_rule(
                error,
                "unknown options provided in WITH clause: "@ + quoted_list(list),
            )
    } else {
        breaks_rule(error, "Debezium source must have at least one PRIMARY KEY field"@)
    }
}

/// Whether the table is what a connection becomes: it keeps what the connection
/// is, has the declared columns if there are any, else those of the connection,
/// has the declared primary keys, and each setting is read from its own option,
/// whatever the columns, the connection and the other options are.
pub open spec fn is_set_up(
    connection: Connection,
    fields: Seq<FieldSpec>,
    primary_keys: Seq<String>,
    options: StringMap,
    default_idle_time: Option<TimeSpan>,
    interval: Option<Result<(i32, i32), Seq<char>>>,
    table: ConnectorTable,
) -> bool {
    &&& table.id == connection.id
    &&& table.connector@ == connection.connector@
    &&& table.name@ == connection.name@
    &&& table.connection_type == connection.connection_type
    &&& table.config@ == connection.config@
    &&& table.description@ == connection.description@
    &&& table.format == connection.format
    &&& table.inferred_fields is None
    &&& is_text_under(table.event_time_field, options@, "event_time_field"@)
    &&& is_text_under(table.watermark_field, options@, "watermark_field"@)
    &&& idle_from_options(table.idle_time, options@, default_idle_time)
    &&& bytes_from_options(table.lookup_cache_max_bytes, options@)
    &&& match interval {
        Some(Ok((days, millis))) => table.lookup_cache_ttl matches Some(span) && lasts(
            span,
            days * 86_400_000_000_000 + without_sign(millis as int) * 1_000_000,
        ),
        _ => table.lookup_cache_ttl is None,
    }
    &&& table.primary_keys@.len() == primary_keys.len()
    &&& forall|i: int|
        0 <= i < primary_keys.len() ==> (#[trigger] table.primary_keys@[i])@ == primary_keys[i]@
    &&& fields.len() > 0 ==> {
        &&& table.fields@.len() == fields.len()
        &&& forall|i: int|
            0 <= i < fields.len() ==> (#[trigger] table.fields@[i]).view() == fields[i].view()
    }
    &&& fields.len() == 0 ==> {
        &&& table.fields@.len() == connection.fields@.len()
        &&& forall|i: int|
            0 <= i < connection.fields@.len() ==> (#[trigger] table.fields@[i]).view()
                == FieldSpecView::Struct(connection.fields@[i].view())
    }
}

/// Whether the outcome is the table that a connection becomes, or the first error
/// there is to tell.
pub open spec fn is_outcome(
    connection: Connection,
    fields: Seq<FieldSpec>,
    primary_keys: Seq<String>,
    options: StringMap,
    default_idle_time: Option<TimeSpan>,
    interval: Option<Result<(i32, i32), Seq<char>>>,
    outcome: Result<ConnectorTable, PlanError>,
) -> bool {
    &&& outcome is Ok <==> is_acceptable(connection, primary_keys, options, interval)
    &&& match outcome {
        Ok(table) => is_set_up(
            connection,
            fields,
            primary_keys,
            options,
            default_idle_time,
            interval,
            table,
        ),
        Err(error) => is_refusal(connection, primary_keys, options, interval, error),
    }
}

/// The interval that the options give, as it is read.
pub open spec fn interval_of(options: Map<Seq<char>, Seq<char>>) -> Option<
    Result<(i32, i32), Seq<char>>,
> {
    if options.contains_key("lookup.cache.ttl"@) {
        Some(interval_day_time(options["lookup.cache.ttl"@]))
    } else {
        None
    }
}

/// Whether the days of the interval are negative and nothing before them is
/// refused.
pub open spec fn has_negative_days(
    options: Map<Seq<char>, Seq<char>>,
    interval: Option<Result<(i32, i32), Seq<char>>>,
) -> bool {
    &&& idle_readable(options)
    &&& bytes_readable(options)
    &&& interval matches Some(Ok(parts)) && parts.0 < 0
}

proof fn lemma_lasts(nanos: int)
    requires
        0 <= nanos < 18446744073709551616 * 1_000_000_000,
    ensures
        lasts(span_of_nanos(nanos), nanos),
{
}

proof fn lemma_idle(options: Map<Seq<char>, Seq<char>>, default_idle_time: Option<TimeSpan>)
    ensures
        idle_setting(options, default_idle_time) is Ok <==> idle_readable(options),
        idle_setting(options, default_idle_time) matches Ok(idle) ==> idle_from_options(
            idle,
            options,
            default_idle_time,
        ),
{
    if options.contains_key("idle_micros"@) {
        if let Some(micros) = number_i64(options["idle_micros"@]) {
            if micros <= 0 {
                lemma_lasts(as_unsigned(micros as int) * 1000);
            }
        }
    } else if let Some(span) = default_idle_time {
        let micros = low_signed((span.secs * 1_000_000_000 + span.nanos) / 1000);
        assert(micros == low_with_sign((span.secs * 1_000_000_000 + span.nanos) / 1000));
        if micros <= 0 {
            lemma_lasts(as_unsigned(micros) * 1000);
        }
    }
}

proof fn lemma_unknown_of_front(keys: Seq<Seq<char>>, i: int)
    requires
        0 <= i < keys.len(),
    ensures
        unknown_before(keys.drop_last(), i) == unknown_before(keys, i),
    decreases i,
{
    if i > 0 {
        lemma_unknown_of_front(keys, i - 1);
    }
}

proof fn lemma_unknown_last(keys: Seq<Seq<char>>)
    requires
        keys.len() > 0,
    ensures
        unknown_keys(keys) == if is_known(keys.last()) {
            unknown_keys(keys.drop_last())
        } else {
            unknown_keys(keys.drop_last()).push(keys.last())
        },
{
    reveal(Seq::filter);
    reveal(is_known);
    assert(is_known(keys.last()) == crate::settings::is_table_option(keys.last()));
}

proof fn lemma_lists_one_more(list: Seq<Seq<char>>, keys: Seq<Seq<char>>)
    requires
        keys.len() > 0,
        lists_unknown(list, keys.drop_last()),
    ensures
        lists_unknown(
            if is_known(keys.last()) {
                list
            } else {
                list.push(keys.last())
            },
            keys,
        ),
{
    let front = keys.drop_last();
    let n = front.len() as int;
    lemma_unknown_of_front(keys, n);
    assert forall|i: int| 0 <= i < n && !is_known(#[trigger] keys[i]) implies {
        &&& unknown_before(keys, i) < list.len()
        &&& list[unknown_before(keys, i) as int] == keys[i]
    } by {
        lemma_unknown_of_front(keys, i);
        assert(!is_known(front[i]));
    }
}

proof fn lemma_unknown(keys: Seq<Seq<char>>)
    ensures
        lists_unknown(unknown_keys(keys), keys),
    decreases keys.len(),
{
    if keys.len() == 0 {
        lemma_none_unknown(keys);
    } else {
        lemma_unknown(keys.drop_last());
        lemma_unknown_last(keys);
        lemma_lists_one_more(unknown_keys(keys.drop_last()), keys);
    }
}

proof fn lemma_none_unknown(keys: Seq<Seq<char>>)
    requires
        keys.len() == 0,
    ensures
        unknown_keys(keys).len() == 0,
{
    reveal(Seq::filter);
}

proof fn lemma_all_known(keys: Seq<Seq<char>>, n: int)
    requires
        0 <= n <= keys.len(),
    ensures
        unknown_before(keys, n) == 0 <==> forall|i: int|
            0 <= i < n ==> is_known(#[trigger] keys[i]),
    decreases n,
{
    if n > 0 {
        lemma_all_known(keys, n - 1);
        if unknown_before(keys, n) == 0 {
            assert forall|i: int| 0 <= i < n implies is_known(#[trigger] keys[i]) by {
                if i == n - 1 {
                    assert(is_known(keys[n - 1]));
                }
            }
        } else if forall|i: int| 0 <= i < n ==> is_known(#[trigger] keys[i]) {
            assert(is_known(keys[n - 1]));
        }
    }
}

pub(crate) proof fn lemma_outcome(
    connection: Connection,
    fields: Seq<FieldSpec>,
    primary_keys: Seq<String>,
    options: StringMap,
    default_idle_time: Option<TimeSpan>,
    interval: Option<Result<(i32, i32), Seq<char>>>,
    outcome: Result<ConnectorTable, PlanError>,
)
    requires
        !has_negative_days(options@, interval),
        ({
            let settled = settled_table(
                connection,
                crate::connector_table::spec_views(fields),
                spelled(primary_keys),
                options,
                default_idle_time,
                interval,
            );
            match outcome {
                Ok(table) => settled == Ok::<
                    crate::connector_table::ConnectorTableView,
                    crate::error::ErrorView,
                >(table.view()),
                Err(e) => settled == Err::<
                    crate::connector_table::ConnectorTableView,
                    crate::error::ErrorView,
                >(e.view()),
            }
        }),
    ensures
        is_outcome(
            connection,
            fields,
            primary_keys,
            options,
            default_idle_time,
            interval,
            outcome,
        ),
{
    let keys = options.key_list();
    lemma_idle(options@, default_idle_time);
    lemma_unknown(keys);
    lemma_all_known(keys, keys.len() as int);
    assert(spelled(primary_keys).len() == primary_keys.len());
    if let Ok(table) = outcome {
        if let Some(Ok((days, millis))) = interval {
            lemma_lasts(days * 86_400_000_000_000 + as_unsigned(millis as int) * 1_000_000);
        }
        assert(table.view().primary_keys.len() == table.primary_keys@.len());
        assert forall|i: int| 0 <= i < primary_keys.len() implies (
        #[trigger] table.primary_keys@[i])@ == primary_keys[i]@ by {
            assert(table.view().primary_keys[i] == table.primary_keys@[i]@);
            assert(spelled(primary_keys)[i] == primary_keys[i]@);
        }
        assert(table.view().fields.len() == table.fields@.len());
        let given = crate::connector_table::spec_views(fields);
        assert(given.len() == fields.len());
        if fields.len() > 0 {
            assert forall|i: int| 0 <= i < fields.len() implies (
            #[trigger] table.fields@[i]).view() == fields[i].view() by {
                assert(table.view().fields[i] == table.fields@[i].view());
                assert(given[i] == fields[i].view());
            }
        } else {
            let own = crate::connector_table::struct_columns(field_views(connection.fields@));
            assert(field_views(connection.fields@).len() == connection.fields@.len());
            assert(own.len() == connection.fields@.len());
            assert forall|i: int| 0 <= i < connection.fields@.len() implies (
            #[trigger] table.fields@[i]).view() == FieldSpecView::Struct(
                connection.fields@[i].view(),
            ) by {
                assert(table.view().fields[i] == table.fields@[i].view());
                assert(own[i] == FieldSpecView::Struct(field_views(connection.fields@)[i]));
            }
        }
    }
}

/// A connection and a parsed interval become a table exactly if the options are
/// acceptable, and each setting of the table is the one that its option gives.
pub proof fn connection_set_up(
    connection: Connection,
    fields: Vec<FieldSpec>,
    primary_keys: Vec<String>,
    options: StringMap,
    default_idle_time: Option<TimeSpan>,
    interval: Option<Result<(i32, i32), String>>,
    outcome: Result<ConnectorTable, PlanError>,
)
    requires
        call_ensures(
            ConnectorTable::from_connection,
            (connection, fields, primary_keys, options, default_idle_time, interval),
            outcome,
        ),
        !has_negative_days(options@, parsed(interval)),
    ensures
        is_outcome(
            connection,
            fields@,
            primary_keys@,
            options,
            default_idle_time,
            parsed(interval),
            outcome,
        ),
{
    lemma_outcome(
        connection,
        fields@,
        primary_keys@,
        options,
        default_idle_time,
        parsed(interval),
        outcome,
    );
}

/// What a parsed interval says.
pub open spec fn parsed(interval: Option<Result<(i32, i32), String>>) -> Option<
    Result<(i32, i32), Seq<char>>,
> {
    match interval {
        Some(Ok(parts)) => Some(Ok(parts)),
        Some(Err(reason)) => Some(Err(reason@)),
        None => None,
    }
}

/// The interval is the one that the options give: there is no outcome exactly if
/// its days are negative and nothing before them is refused.
pub proof fn connection_and_options_set_up(
    connection: Connection,
    fields: Vec<FieldSpec>,
    primary_keys: Vec<String>,
    options: StringMap,
    default_idle_time: Option<TimeSpan>,
    outcome: Option<Result<ConnectorTable, PlanError>>,
)
    requires
        call_ensures(
            ConnectorTable::try_from_connection,
            (connection, fields, primary_keys, options, default_idle_time),
            outcome,
        ),
    ensures
        outcome is None <==> has_negative_days(options@, interval_of(options@)),
        outcome matches Some(outcome) ==> is_outcome(
            connection,
            fields@,
            primary_keys@,
            options,
            default_idle_time,
            interval_of(options@),
            outcome,
        ),
{
    lemma_idle(options@, default_idle_time);
    if let Some(outcome) = outcome {
        lemma_outcome(
            connection,
            fields@,
            primary_keys@,
            options,
            default_idle_time,
            interval_of(options@),
            outcome,
        );
    }
}

/// Whether there is no outcome exactly for negative days, in the terms of the
/// stages.
pub(crate) proof fn lemma_negative_days(
    options: Map<Seq<char>, Seq<char>>,
    default_idle_time: Option<TimeSpan>,
)
    ensures
        crate::settings::ttl_out_of_range(options, default_idle_time, ttl_interval(options))
            == has_negative_days(options, interval_of(options)),
        ttl_interval(options) == interval_of(options),
{
    lemma_idle(options, default_idle_time);
}

/// The settings are read one by one.
pub proof fn reading_settings(
    options: StringMap,
    default_idle_time: Option<TimeSpan>,
    idle: Result<Option<TimeSpan>, PlanError>,
    bytes: Result<Option<u64>, PlanError>,
    interval: Option<Result<(i32, i32), String>>,
)
    requires
        call_ensures(read_idle_time, (&options, default_idle_time), idle),
        call_ensures(read_max_bytes, (&options,), bytes),
        call_ensures(read_ttl, (&options,), interval),
    ensures
        match idle {
            Ok(idle) => idle_readable(options@) && idle_from_options(
                idle,
                options@,
                default_idle_time,
            ),
            Err(e) => !idle_readable(options@) && breaks_rule(
                e,
                "idle_micros must be set to a number"@,
            ),
        },
        match bytes {
            Ok(bytes) => bytes_readable(options@) && bytes_from_options(bytes, options@),
            Err(e) => !bytes_readable(options@) && breaks_rule(
                e,
                "lookup.cache.max_bytes must be set to a number"@,
            ),
        },
        parsed(interval) == interval_of(options@),
{
    lemma_idle(options@, default_idle_time);
}

/// An interval is as long as its days and milliseconds.
pub proof fn length_of_interval(days: i32, millis: i32, span: TimeSpan)
    requires
        days >= 0,
        call_ensures(span_of_interval, (days, millis), span),
    ensures
        lasts(span, days * 86_400_000_000_000 + without_sign(millis as int) * 1_000_000),
{
    lemma_lasts(days * 86_400_000_000_000 + as_unsigned(millis as int) * 1_000_000);
}

} // verus!
