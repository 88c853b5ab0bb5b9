//! What holds of the library as a whole.
//!
//! The modules below say of each operation, for every call of it, how what it
//! gives relates to what it was given.
pub mod declaring;
pub mod metadata;
pub mod options;
pub mod reading;
pub mod rewrites;
pub mod rows;
pub mod setting_up;
pub mod statements;
pub mod terms;
pub mod values;

use datafusion::logical_expr::Expr;
use vstd::prelude::*;

use crate::columns::DeclaredColumnView;
use crate::connector_table::{
    Connection, ConnectionType, ConnectorTable, ConnectorTableView, FieldSpecView, Format,
    any_virtual, column_expr, fields_of, has_time_field, spec_views, stored,
};
use crate::error::ErrorView;
use crate::from_options::{
    connector_columns, debezium_columns, delta_column, is_debezium, message_columns,
};
use crate::literal::{SqlValue, inner_string};
use crate::metadata::{ExprHead, ExprTree, one_call_error};
use crate::schema::{DFField, DataTypeView, FieldView, TimeUnit, output_views, unqualified};
use crate::schema_draft::{GeneratingQuery, filled, generated_spec, plain_spec};
use crate::settings::{idle_setting, is_table_option, option_value, settled_table, unknown_keys};
use crate::statement::{SqlOption, all_readable, option_entry, options_keys, options_map};
use crate::string_map::StringMap;
use crate::table::{Table, connector_fields, same_output};
use crate::table_catalog::{TableCatalog, same_entry};
use crate::text::number_i64;
use crate::time_span::{TimeSpan, low_signed};

verus! {

/// A literal gives an option a text exactly if it is a plain, Unicode or
/// dollar-quoted string, a number or a truth value.
pub proof fn option_literals(value: SqlValue)
    ensures
        inner_string(value) is Ok <==> !(value is Other),
{
}

/// Of two options with the same key the later one counts, and an option that no
/// later one replaces is found under its key.
pub proof fn last_option_counts(options: Seq<SqlOption>, i: int)
    requires
        all_readable(options),
        0 <= i < options.len(),
        forall|j: int|
            i < j < options.len() ==> option_entry(#[trigger] options[j])->Ok_0.0 != option_entry(
                options[i],
            )->Ok_0.0,
    ensures
        options_map(options).contains_key(option_entry(options[i])->Ok_0.0),
        options_map(options)[option_entry(options[i])->Ok_0.0] == option_entry(options[i])->Ok_0.1,
    decreases options.len(),
{
    if i < options.len() - 1 {
        let front = options.drop_last();
        assert forall|j: int| 0 <= j < front.len() implies option_entry(
            #[trigger] front[j],
        ) is Ok by {
            assert(option_entry(options[j]) is Ok);
        }
        assert forall|j: int| i < j < front.len() implies option_entry(
            #[trigger] front[j],
        )->Ok_0.0 != option_entry(front[i])->Ok_0.0 by {
            assert(option_entry(options[j])->Ok_0.0 != option_entry(options[i])->Ok_0.0);
        }
        last_option_counts(front, i);
        assert(option_entry(options[options.len() - 1])->Ok_0.0 != option_entry(
            options[i],
        )->Ok_0.0);
    }
}

/// The keys of the options are listed once each, and are those under which there
/// is a text.
pub proof fn options_listed_once(options: Seq<SqlOption>)
    ensures
        options_keys(options).no_duplicates(),
        forall|key: Seq<char>|
            #[trigger] options_keys(options).contains(key) <==> options_map(options).contains_key(
                key,
            ),
    decreases options.len(),
{
    if options.len() > 0 {
        let front = options.drop_last();
        options_listed_once(front);
        let key = option_entry(options.last())->Ok_0.0;
        let before = options_keys(front);
        let after = options_keys(options);
        if !options_map(front).contains_key(key) {
            assert(!before.contains(key));
            assert forall|i: int, j: int|
                0 <= i < after.len() && 0 <= j < after.len() && i != j implies after[i]
                != after[j] by {
                if i < before.len() && j == before.len() {
                    assert(before.contains(before[i]));
                }
                if j < before.len() && i == before.len() {
                    assert(before.contains(before[j]));
                }
            }
        }
        assert forall|k: Seq<char>|
            #[trigger] after.contains(k) <==> options_map(options).contains_key(k) by {
            if after.contains(k) {
                let p = choose|p: int| 0 <= p < after.len() && after[p] == k;
                if p < before.len() {
                    assert(before.contains(before[p]));
                }
            }
            if before.contains(k) {
                let p = choose|p: int| 0 <= p < before.len() && before[p] == k;
                assert(after[p] == k);
            }
            if k == key && !options_map(front).contains_key(key) {
                assert(after[before.len() as int] == k);
            }
        }
    }
}

/// An expression defines a metadata column exactly if it is itself a call of
/// `metadata` with one string literal.
pub proof fn metadata_column_shape(tree: ExprTree, key: Seq<char>)
    ensures
        tree.metadata_key() == Ok::<Option<Seq<char>>, ErrorView>(Some(key)) <==> {
            &&& tree.is_metadata_call()
            &&& tree.children@.len() == 1
            &&& tree.children@[0].head matches ExprHead::StringLiteral(text) && text@ == key
        },
{
}

/// A call of `metadata` below the root of an expression that is no such call is
/// an error.
pub proof fn metadata_below_root_refused(tree: ExprTree, i: int)
    requires
        0 <= i < tree.children@.len(),
        tree.children@[i].mentions_metadata(),
        !tree.is_metadata_call(),
    ensures
        tree.metadata_key() == Err::<Option<Seq<char>>, ErrorView>(one_call_error()),
{
}

/// An expression without a call of `metadata` is computed.
pub proof fn plain_expression_computed(tree: ExprTree)
    requires
        !tree.mentions_metadata(),
    ensures
        tree.metadata_key() == Ok::<Option<Seq<char>>, ErrorView>(None),
{
}

/// Settling goes on from what is settled: it changes none of it.
pub proof fn settling_keeps_settled(columns: Seq<DeclaredColumnView>, settled: Seq<FieldSpecView>)
    requires
        settled.len() <= columns.len(),
    ensures
        settled.len() <= filled(columns, settled).len() <= columns.len(),
        settled.is_prefix_of(filled(columns, settled)),
    decreases columns.len() - settled.len(),
{
    if settled.len() < columns.len() && columns[settled.len() as int].generation_expr is None {
        let next = settled.push(plain_spec(columns[settled.len() as int]));
        settling_keeps_settled(columns, next);
        let whole = filled(columns, settled);
        assert(next.is_prefix_of(whole));
        assert forall|i: int| 0 <= i < settled.len() implies settled[i] == whole[i] by {
            assert(next[i] == whole[i]);
        }
        assert(settled =~= whole.subrange(0, settled.len() as int));
    } else {
        assert(settled =~= settled.subrange(0, settled.len() as int));
    }
}

/// Where no column is generated, each one is part of the message, and nothing
/// has to be planned.
pub proof fn plain_columns_settle_at_once(
    columns: Seq<DeclaredColumnView>,
    settled: Seq<FieldSpecView>,
)
    requires
        forall|i: int| 0 <= i < columns.len() ==> (#[trigger] columns[i]).generation_expr is None,
        settled == columns.take(settled.len() as int).map_values(
            |c: DeclaredColumnView| plain_spec(c),
        ),
        settled.len() <= columns.len(),
    ensures
        filled(columns, settled) == columns.map_values(|c: DeclaredColumnView| plain_spec(c)),
    decreases columns.len() - settled.len(),
{
    let n = settled.len() as int;
    if n < columns.len() {
        let next = settled.push(plain_spec(columns[n]));
        assert(next =~= columns.take(n + 1).map_values(|c: DeclaredColumnView| plain_spec(c)));
        plain_columns_settle_at_once(columns, next);
    } else {
        assert(columns.take(n) =~= columns);
    }
}

/// The number of generated columns among the first `n`.
pub open spec fn generated_count(columns: Seq<DeclaredColumnView>, n: int) -> nat
    decreases n,
{
    if n <= 0 {
        0
    } else {
        generated_count(columns, n - 1) + if columns[n - 1].generation_expr is Some {
            1nat
        } else {
            0nat
        }
    }
}

/// The columns that are settled once these keys and expressions have been
/// planned, one after the other.
pub open spec fn worked_out(
    columns: Seq<DeclaredColumnView>,
    planned: Seq<(Option<Seq<char>>, Expr)>,
) -> Seq<FieldSpecView>
    decreases planned.len(),
{
    if planned.len() == 0 {
        filled(columns, Seq::empty())
    } else {
        let before = worked_out(columns, planned.drop_last());
        filled(
            columns,
            before.push(
                generated_spec(columns[before.len() as int], planned.last().0, planned.last().1),
            ),
        )
    }
}

/// What becomes of the column at `i`: a generated one takes the next of what has
/// been planned.
pub open spec fn column_outcome(
    columns: Seq<DeclaredColumnView>,
    planned: Seq<(Option<Seq<char>>, Expr)>,
    i: int,
) -> FieldSpecView {
    if columns[i].generation_expr is None {
        plain_spec(columns[i])
    } else {
        let (key, expression) = planned[generated_count(columns, i) as int];
        generated_spec(columns[i], key, expression)
    }
}

/// Whether the columns are settled as `planned` says, up to the generated column
/// that nothing has been planned for.
spec fn settled_so_far(
    columns: Seq<DeclaredColumnView>,
    planned: Seq<(Option<Seq<char>>, Expr)>,
    settled: Seq<FieldSpecView>,
) -> bool {
    &&& settled.len() <= columns.len()
    &&& generated_count(columns, settled.len() as int) == planned.len()
    &&& forall|i: int|
        0 <= i < settled.len() ==> #[trigger] settled[i] == column_outcome(columns, planned, i)
}

proof fn lemma_generated_count(columns: Seq<DeclaredColumnView>, i: int, n: int)
    requires
        0 <= i <= n,
    ensures
        generated_count(columns, i) <= generated_count(columns, n),
        i < n && columns[i].generation_expr is Some ==> generated_count(columns, i)
            < generated_count(columns, n),
    decreases n,
{
    if i < n {
        lemma_generated_count(columns, i, n - 1);
    }
}

proof fn lemma_filled(
    columns: Seq<DeclaredColumnView>,
    planned: Seq<(Option<Seq<char>>, Expr)>,
    settled: Seq<FieldSpecView>,
)
    requires
        settled_so_far(columns, planned, settled),
    ensures
        settled_so_far(columns, planned, filled(columns, settled)),
        filled(columns, settled).len() < columns.len() ==> columns[filled(
            columns,
            settled,
        ).len() as int].generation_expr is Some,
    decreases columns.len() - settled.len(),
{
    let n = settled.len() as int;
    if n < columns.len() && columns[n].generation_expr is None {
        let next = settled.push(plain_spec(columns[n]));
        assert forall|i: int| 0 <= i < next.len() implies #[trigger] next[i] == column_outcome(
            columns,
            planned,
            i,
        ) by {
            if i < n {
                assert(next[i] == settled[i]);
            }
        }
        assert(generated_count(columns, n + 1) == planned.len());
        lemma_filled(columns, planned, next);
    }
}

/// The columns of a table are worked out one by one: once something has been
/// planned for each generated column, in their order, each column has become
/// what its own declaration and plan say. Until then, the columns up to the next
/// generated one are settled.
pub proof fn columns_worked_out_in_order(
    columns: Seq<DeclaredColumnView>,
    planned: Seq<(Option<Seq<char>>, Expr)>,
)
    requires
        planned.len() <= generated_count(columns, columns.len() as int),
    ensures
        ({
            let settled = worked_out(columns, planned);
            &&& settled.len() <= columns.len()
            &&& settled.len() == columns.len() <==> planned.len() == generated_count(
                columns,
                columns.len() as int,
            )
            &&& settled.len() < columns.len() ==> {
                &&& columns[settled.len() as int].generation_expr is Some
                &&& generated_count(columns, settled.len() as int) == planned.len()
            }
            &&& forall|i: int|
                0 <= i < settled.len() ==> #[trigger] settled[i] == column_outcome(
                    columns,
                    planned,
                    i,
                )
        }),
{
    lemma_worked_out(columns, planned);
    let n = worked_out(columns, planned).len() as int;
    lemma_generated_count(columns, n, columns.len() as int);
}

proof fn lemma_worked_out(
    columns: Seq<DeclaredColumnView>,
    planned: Seq<(Option<Seq<char>>, Expr)>,
)
    requires
        planned.len() <= generated_count(columns, columns.len() as int),
    ensures
        settled_so_far(columns, planned, worked_out(columns, planned)),
        worked_out(columns, planned).len() < columns.len() ==> columns[worked_out(
            columns,
            planned,
        ).len() as int].generation_expr is Some,
    decreases planned.len(),
{
    if planned.len() == 0 {
        lemma_filled(columns, planned, Seq::empty());
    } else {
        let front = planned.drop_last();
        lemma_worked_out(columns, front);
        let before = worked_out(columns, front);
        let n = before.len() as int;
        assert(n < columns.len());
        let next = before.push(generated_spec(columns[n], planned.last().0, planned.last().1));
        assert forall|i: int| 0 <= i < next.len() implies #[trigger] next[i] == column_outcome(
            columns,
            planned,
            i,
        ) by {
            if i < n {
                assert(next[i] == before[i]);
                lemma_generated_count(columns, i, n);
            }
        }
        assert(generated_count(columns, n + 1) == planned.len());
        lemma_filled(columns, planned, next);
    }
}

/// No computed column is stored, and each stored column is a column.
pub proof fn stored_columns_not_computed(fields: Seq<FieldSpecView>)
    ensures
        !any_virtual(stored(fields)),
        forall|i: int| 0 <= i < stored(fields).len() ==> fields.contains(#[trigger] stored(fields)[i]),
    decreases fields.len(),
{
    reveal(Seq::filter);
    if fields.len() > 0 {
        let front = fields.drop_last();
        stored_columns_not_computed(front);
        assert forall|i: int| 0 <= i < stored(fields).len() implies !((#[trigger] stored(
            fields,
        )[i]) is Virtual) && fields.contains(stored(fields)[i]) by {
            if i < stored(front).len() {
                assert(stored(fields)[i] == stored(front)[i]);
                assert(front.contains(stored(front)[i]));
                let p = choose|p: int| 0 <= p < front.len() && front[p] == stored(front)[i];
                assert(fields[p] == stored(fields)[i]);
            } else {
                assert(fields[fields.len() - 1] == stored(fields)[i]);
            }
        }
    }
}

/// Without computed columns every column is stored.
pub proof fn all_stored_without_computed(fields: Seq<FieldSpecView>)
    requires
        !any_virtual(fields),
    ensures
        stored(fields) == fields,
    decreases fields.len(),
{
    reveal(Seq::filter);
    if fields.len() > 0 {
        let front = fields.drop_last();
        assert forall|i: int| 0 <= i < front.len() implies !((#[trigger] front[i]) is Virtual) by {
            assert(!(fields[i] is Virtual));
        }
        all_stored_without_computed(front);
        assert(!(fields[fields.len() - 1] is Virtual));
        assert(fields =~= front.push(fields.last()));
    } else {
        assert(stored(fields) =~= fields);
    }
}

/// Only a source connection can be read, and only if it has no computed columns
/// or its rows are not updates.
pub proof fn only_sources_read(table: ConnectorTableView)
    requires
        table.sql_source() is Ok,
    ensures
        table.connection_type == ConnectionType::Source,
        !(table.updating() && any_virtual(table.fields)),
{
}

/// A source reads the physical schema: the fields of the message are the same
/// for both, and no computed column is among them.
pub proof fn source_reads_physical_schema(table: ConnectorTableView)
    requires
        table.sql_source() is Ok,
    ensures
        table.sql_source()->Ok_0.struct_def == table.physical_fields(),
        !any_virtual(table.fields) ==> table.sql_source()->Ok_0.struct_def == fields_of(
            table.fields,
        ),
        table.updating() ==> table.sql_source()->Ok_0.struct_def == fields_of(table.fields),
{
    if !any_virtual(table.fields) {
        all_stored_without_computed(table.fields);
    }
}

/// The columns that a source takes time from are timestamp columns of the table,
/// and a source of updates takes no event time.
pub proof fn source_times_are_timestamps(table: ConnectorTableView)
    requires
        table.sql_source() is Ok,
    ensures
        table.sql_source()->Ok_0.timestamp_override == column_expr(table.event_time_field),
        table.sql_source()->Ok_0.watermark_column == column_expr(table.watermark_field),
        table.event_time_field matches Some(name) ==> has_time_field(table.fields, name)
            && !table.updating(),
        table.watermark_field matches Some(name) ==> has_time_field(table.fields, name),
{
}

/// Storing a column in Delta Lake twice is storing it once, and keeps its name,
/// its nullability, its dictionary and its metadata.
pub proof fn delta_column_stable(column: FieldSpecView)
    ensures
        delta_column(delta_column(column)) == delta_column(column),
        delta_column(column).field().name == column.field().name,
        delta_column(column).field().nullable == column.field().nullable,
        delta_column(column).field().dict_id == column.field().dict_id,
        delta_column(column).field().dict_is_ordered == column.field().dict_is_ordered,
        delta_column(column).field().metadata == column.field().metadata,
{
}

/// In Delta Lake a timestamp without a zone has microseconds, and a column of
/// any other type keeps it.
pub proof fn delta_timestamps(field: FieldView)
    ensures
        ({
            let stored_type = delta_column(FieldSpecView::Struct(field)).field().data_type;
            if field.data_type matches DataTypeView::Timestamp(_, None) {
                stored_type == DataTypeView::Timestamp(TimeUnit::Microsecond, None)
            } else {
                stored_type == field.data_type
            }
        }),
{
}

/// Whatever the connector, each column is stored in its place under its name.
pub proof fn connector_columns_in_place(
    connector: Seq<char>,
    fields: Seq<FieldSpecView>,
    i: int,
)
    requires
        0 <= i < fields.len(),
    ensures
        connector_columns(connector, fields).len() == fields.len(),
        connector_columns(connector, fields)[i].field().name == fields[i].field().name,
        connector_columns(connector, fields)[i] is Virtual == fields[i] is Virtual,
{
}

/// A Debezium envelope has three columns. The row before and the row after the
/// change have the same type, which holds all columns of the table, and each may
/// be missing. The kind of change may not.
pub proof fn debezium_envelope(fields: Seq<FieldView>)
    ensures
        ({
            let columns = debezium_columns(fields);
            &&& columns.len() == 3
            &&& columns[0].field.name == "before"@
            &&& columns[1].field.name == "after"@
            &&& columns[2].field.name == "op"@
            &&& columns[0].field.data_type == DataTypeView::Struct(fields)
            &&& columns[1].field.data_type == columns[0].field.data_type
            &&& columns[0].field.nullable && columns[1].field.nullable
            &&& !columns[2].field.nullable
            &&& forall|i: int| 0 <= i < 3 ==> (#[trigger] columns[i]).metadata_key is None
        }),
{
}

/// Without envelopes a message has the stored columns in order, and a column
/// has a key exactly if it holds metadata.
pub proof fn message_has_stored_columns(
    fields: Seq<FieldSpecView>,
    format: Option<Format>,
    i: int,
)
    requires
        !is_debezium(format),
        0 <= i < stored(fields).len(),
    ensures
        message_columns(fields, format).len() == stored(fields).len(),
        message_columns(fields, format)[i].field == stored(fields)[i].field(),
        message_columns(fields, format)[i].metadata_key is Some <==> stored(
            fields,
        )[i] is Metadata,
{
    stored_columns_not_computed(fields);
}

/// A positive idle time is not kept, whether an option or the default gives it,
/// and an option comes before the default.
pub proof fn positive_idle_time_dropped(
    options: Map<Seq<char>, Seq<char>>,
    default_idle_time: Option<TimeSpan>,
)
    ensures
        option_value(options, "idle_micros"@) matches Some(text) ==> (number_i64(
            text,
        ) matches Some(micros) && micros > 0 ==> idle_setting(options, default_idle_time) == Ok::<
            Option<TimeSpan>,
            ErrorView,
        >(None)),
        option_value(options, "idle_micros"@) is None ==> (default_idle_time matches Some(span)
            && low_signed(span.total_nanos() / 1000) > 0 ==> idle_setting(
            options,
            default_idle_time,
        ) == Ok::<Option<TimeSpan>, ErrorView>(None)),
        option_value(options, "idle_micros"@) is Some ==> idle_setting(options, default_idle_time)
            == idle_setting(options, None),
{
}

/// Nothing is left over of the options of a table: each of its keys is one that
/// the table knows.
pub proof fn options_all_known(
    connection: Connection,
    fields: Seq<FieldSpecView>,
    primary_keys: Seq<Seq<char>>,
    options: StringMap,
    default_idle_time: Option<TimeSpan>,
    interval: Option<Result<(i32, i32), Seq<char>>>,
)
    requires
        settled_table(
            connection,
            fields,
            primary_keys,
            options,
            default_idle_time,
            interval,
        ) is Ok,
    ensures
        forall|i: int|
            0 <= i < options.key_list().len() ==> is_table_option(#[trigger] options.key_list()[i]),
{
    unknown_keys_cover(options.key_list());
}

/// A key is unknown exactly if it is listed and the table does not know it.
pub proof fn unknown_keys_cover(keys: Seq<Seq<char>>)
    ensures
        forall|i: int|
            0 <= i < keys.len() && !is_table_option(#[trigger] keys[i]) ==> unknown_keys(
                keys,
            ).contains(keys[i]),
        forall|i: int|
            0 <= i < unknown_keys(keys).len() ==> !is_table_option(
                #[trigger] unknown_keys(keys)[i],
            ) && keys.contains(unknown_keys(keys)[i]),
    decreases keys.len(),
{
    reveal(Seq::filter);
    if keys.len() > 0 {
        let front = keys.drop_last();
        unknown_keys_cover(front);
        let old_unknown = unknown_keys(front);
        let unknown = unknown_keys(keys);
        assert forall|i: int| 0 <= i < keys.len() && !is_table_option(
            #[trigger] keys[i],
        ) implies unknown.contains(keys[i]) by {
            if i < front.len() {
                assert(front[i] == keys[i]);
                let p = choose|p: int| 0 <= p < old_unknown.len() && old_unknown[p] == keys[i];
                assert(unknown[p] == keys[i]);
            } else {
                assert(unknown[old_unknown.len() as int] == keys[i]);
            }
        }
        assert forall|i: int| 0 <= i < unknown.len() implies !is_table_option(
            #[trigger] unknown[i],
        ) && keys.contains(unknown[i]) by {
            if i < old_unknown.len() {
                assert(unknown[i] == old_unknown[i]);
                let p = choose|p: int| 0 <= p < front.len() && front[p] == old_unknown[i];
                assert(keys[p] == unknown[i]);
            } else {
                assert(keys[keys.len() - 1] == unknown[i]);
            }
        }
    }
}

/// A table keeps the connection's identity and format, its columns are those of
/// the statement where it has any, and a source of updates has a primary key.
pub proof fn settled_table_keeps_connection(
    connection: Connection,
    fields: Seq<FieldSpecView>,
    primary_keys: Seq<Seq<char>>,
    options: StringMap,
    default_idle_time: Option<TimeSpan>,
    interval: Option<Result<(i32, i32), Seq<char>>>,
)
    requires
        settled_table(
            connection,
            fields,
            primary_keys,
            options,
            default_idle_time,
            interval,
        ) is Ok,
    ensures
        ({
            let table = settled_table(
                connection,
                fields,
                primary_keys,
                options,
                default_idle_time,
                interval,
            )->Ok_0;
            &&& table.id == connection.id
            &&& table.name == connection.name@
            &&& table.connection_type == connection.connection_type
            &&& table.connector_op() == connection.table(default_idle_time).connector_op()
            &&& table.updating() == connection.table(default_idle_time).updating()
            &&& fields.len() > 0 ==> table.fields == fields
            &&& fields.len() == 0 ==> !any_virtual(table.fields)
            &&& table.primary_keys == primary_keys
            &&& table.connection_type == ConnectionType::Source && table.updating()
                ==> table.primary_keys.len() > 0
        }),
{
}

/// Being the same type but for dictionaries is an equivalence.
pub proof fn same_types_equivalence(a: DataTypeView, b: DataTypeView, c: DataTypeView)
    ensures
        a.same_as(a),
        a.same_as(b) ==> b.same_as(a),
        a.same_as(b) && b.same_as(c) ==> a.same_as(c),
    decreases a,
{
    match a {
        DataTypeView::List(_, x) => {
            same_fields_equivalence(*x, *b->List_1, *c->List_1);
        },
        DataTypeView::Struct(x) => {
            let y = b->Struct_0;
            let z = c->Struct_0;
            assert forall|i: int| 0 <= i < x.len() implies {
                &&& (#[trigger] x[i]).same_as(x[i])
                &&& x[i].same_as(y[i]) ==> y[i].same_as(x[i])
                &&& x[i].same_as(y[i]) && y[i].same_as(z[i]) ==> x[i].same_as(z[i])
            } by {
                same_fields_equivalence(x[i], y[i], z[i]);
            }
            if a.same_as(b) {
                assert forall|i: int| 0 <= i < y.len() implies (#[trigger] y[i]).same_as(x[i]) by {
                    assert(x[i].same_as(y[i]));
                }
            }
        },
        DataTypeView::Union(_, _, x) => {
            let y = b->Union_2;
            let z = c->Union_2;
            assert forall|i: int| 0 <= i < x.len() implies {
                &&& (#[trigger] x[i]).same_as(x[i])
                &&& x[i].same_as(y[i]) ==> y[i].same_as(x[i])
                &&& x[i].same_as(y[i]) && y[i].same_as(z[i]) ==> x[i].same_as(z[i])
            } by {
                same_fields_equivalence(x[i], y[i], z[i]);
            }
            if a.same_as(b) {
                assert forall|i: int| 0 <= i < y.len() implies (#[trigger] y[i]).same_as(x[i]) by {
                    assert(x[i].same_as(y[i]));
                }
            }
        },
        DataTypeView::Dictionary(key, value) => {
            same_types_equivalence(*key, *b->Dictionary_0, *c->Dictionary_0);
            same_types_equivalence(*value, *b->Dictionary_1, *c->Dictionary_1);
        },
        DataTypeView::Mapping(x, _) => {
            same_fields_equivalence(*x, *b->Mapping_0, *c->Mapping_0);
        },
        DataTypeView::RunEndEncoded(ends, values) => {
            same_fields_equivalence(*ends, *b->RunEndEncoded_0, *c->RunEndEncoded_0);
            same_fields_equivalence(*values, *b->RunEndEncoded_1, *c->RunEndEncoded_1);
        },
        _ => {},
    }
}

/// Being the same field but for dictionaries is an equivalence.
pub proof fn same_fields_equivalence(a: FieldView, b: FieldView, c: FieldView)
    ensures
        a.same_as(a),
        a.same_as(b) ==> b.same_as(a),
        a.same_as(b) && b.same_as(c) ==> a.same_as(c),
    decreases a,
{
    same_types_equivalence(a.data_type, b.data_type, c.data_type);
}

/// Fields are compared without their dictionaries.
pub proof fn dictionaries_not_compared(a: FieldView, dict_id: i64, dict_is_ordered: bool)
    ensures
        a.same_as(FieldView { dict_id, dict_is_ordered, ..a }),
{
    same_types_equivalence(a.data_type, a.data_type, a.data_type);
}

/// Having the same output is an equivalence.
pub proof fn same_output_equivalence(a: Seq<DFField>, b: Seq<DFField>, c: Seq<DFField>)
    ensures
        same_output(a, a),
        same_output(a, b) ==> same_output(b, a),
        same_output(a, b) && same_output(b, c) ==> same_output(a, c),
{
    assert forall|i: int| 0 <= i < a.len() implies {
        let x = (#[trigger] a[i]).field.view().data_type;
        let y = b[i].field.view().data_type;
        let z = c[i].field.view().data_type;
        &&& x.same_as(x)
        &&& x.same_as(y) ==> y.same_as(x)
        &&& x.same_as(y) && y.same_as(z) ==> x.same_as(z)
    } by {
        same_types_equivalence(
            a[i].field.view().data_type,
            b[i].field.view().data_type,
            c[i].field.view().data_type,
        );
    }
    if same_output(a, b) {
        assert forall|i: int| 0 <= i < b.len() implies (#[trigger] b[i]).field.view().name
            == a[i].field.view().name && b[i].field.view().data_type.same_as(
            a[i].field.view().data_type,
        ) by {
            assert(a[i].field.view().name == b[i].field.view().name);
        }
    }
}

/// A table whose columns are taken from what is inserted has the fields of the
/// last insert, and keeps its name.
pub proof fn inserted_fields_are_row(table: Table, fields: Vec<DFField>)
    ensures
        table.takes_inferred_fields() ==> table.with_inferred_fields(fields).row_fields()
            == unqualified(fields@),
        table.with_inferred_fields(fields).table_name() == table.table_name(),
        table.with_inferred_fields(fields).takes_inferred_fields()
            == table.takes_inferred_fields(),
{
}

/// Columns that a statement declares, and tables without a connector, are not
/// changed by what is inserted, which they never contradict.
pub proof fn declared_columns_stay(table: Table, fields: Vec<DFField>)
    requires
        !table.takes_inferred_fields(),
    ensures
        table.with_inferred_fields(fields) == table,
        !table.contradicts(fields@),
{
}

/// After an insert, another one is accepted exactly if it has the same output.
pub proof fn inserts_share_schema(table: Table, first: Vec<DFField>, second: Vec<DFField>)
    requires
        table.takes_inferred_fields(),
    ensures
        table.with_inferred_fields(first).contradicts(second@) <==> !same_output(
            first@,
            second@,
        ),
{
}

/// The same insert again is accepted, and changes nothing more.
pub proof fn insert_again_accepted(table: Table, fields: Vec<DFField>)
    ensures
        !table.with_inferred_fields(fields).contradicts(fields@),
        table.with_inferred_fields(fields).with_inferred_fields(fields)
            == table.with_inferred_fields(fields),
{
    same_output_equivalence(fields@, fields@, fields@);
}

/// A table that is the same as another has its name and its rows, and takes the
/// same inserts.
pub proof fn same_tables_agree(a: Table, b: Table, fields: Seq<DFField>)
    requires
        a.says_same(b),
    ensures
        a.table_name() == b.table_name(),
        a.row_fields() == b.row_fields(),
        a.takes_inferred_fields() == b.takes_inferred_fields(),
        a.contradicts(fields) == b.contradicts(fields),
{
    match (a, b) {
        (Table::ConnectorTable(x), Table::ConnectorTable(y)) => same_connector_tables(x, y, fields),
        (Table::LookupTable(x), Table::LookupTable(y)) => same_connector_tables(x, y, fields),
        _ => {},
    }
}

proof fn same_connector_tables(x: ConnectorTable, y: ConnectorTable, fields: Seq<DFField>)
    requires
        x.view() == y.view(),
    ensures
        x.name@ == y.name@,
        connector_fields(x) == connector_fields(y),
        x.fields@.len() == y.fields@.len(),
        x.inferred_fields is Some == y.inferred_fields is Some,
        x.inferred_fields matches Some(a) ==> same_output(a@, fields) == same_output(
            y.inferred_fields->0@,
            fields,
        ),
{
    assert(spec_views(x.fields@).len() == spec_views(y.fields@).len());
    if let Some(a) = x.inferred_fields {
        let b = y.inferred_fields->0;
        assert(output_views(a@).len() == output_views(b@).len());
        assert forall|i: int| 0 <= i < a@.len() implies (#[trigger] a@[i]).view()
            == b@[i].view() by {
            assert(output_views(a@)[i] == output_views(b@)[i]);
        }
        assert(unqualified(a@) =~= unqualified(b@));
        assert forall|i: int| 0 <= i < b@.len() implies (#[trigger] b@[i]).view()
            == a@[i].view() by {
            assert(a@[i].view() == b@[i].view());
        }
    }
}

/// Being the same table is an equivalence.
pub proof fn same_entries_equivalence(a: Option<Table>, b: Option<Table>, c: Option<Table>)
    ensures
        same_entry(a, a),
        same_entry(a, b) ==> same_entry(b, a),
        same_entry(a, b) && same_entry(b, c) ==> same_entry(a, c),
{
}

/// The query of a generated column is planned over its own table, whatever else
/// is filed under the table's key: two catalogs that differ only there are the
/// same once the query's table is bound in them.
pub proof fn own_table_shadows(
    query: GeneratingQuery,
    key: Seq<char>,
    first: TableCatalog,
    second: TableCatalog,
    first_bound: TableCatalog,
    second_bound: TableCatalog,
)
    requires
        first.same_tables_but(second, key),
        query.binds(key, first, first_bound),
        query.binds(key, second, second_bound),
    ensures
        first_bound.same_tables(second_bound),
        first_bound.table(key) == Some(query.table),
        second_bound.table(key) == Some(query.table),
{
    assert forall|k: Seq<char>| #[trigger] same_entry(
        first_bound.table(k),
        second_bound.table(k),
    ) by {
        let (a, b) = (first.table(k), second.table(k));
        let (x, y) = (first_bound.table(k), second_bound.table(k));
        same_entries_equivalence(x, y, y);
        if k != key {
            assert(same_entry(a, b));
            assert(same_entry(x, a));
            assert(same_entry(y, b));
            same_entries_equivalence(y, b, b);
            same_entries_equivalence(x, a, b);
            same_entries_equivalence(x, b, y);
        }
    }
}

} // verus!
