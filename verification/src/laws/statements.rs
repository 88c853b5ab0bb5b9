//! From statements to tables and inserts.
use datafusion::common::DataFusionError;
use vstd::prelude::*;

use crate::connector_table::{ConnectorTable, FieldSpecView, fields_of, spec_views};
use crate::error::PlanError;
use crate::from_options::NeedConnector;
use crate::laws::declaring::{
    are_key_names, is_columns_refusal, is_fresh, lemma_column_errors, lemma_fresh,
    lemma_spelled_keys, repeats_before,
};
use crate::laws::setting_up::{are_stored_by, lemma_stored_by};
use crate::laws::terms::{breaks_rule, literal_text};
use crate::literal::{SqlValue, literal_debug};
use crate::schema::{FieldView, TableReference, field_views};
use crate::schema_draft::{PlanKind, PlannedStatement};
use crate::statement::{
    CreateTable, Insert, InsertStep, NeedProfile, NeedRewrite, OptionValue, SqlOption, Statement,
    TableDraft, TableOutcome, TableStep, all_readable, first_unreadable, is_option_error,
    option_entry, options_keys, options_map, read_options,
};
use crate::string_map::{StringMap, without};
use crate::table::{QueryPlan, Table};
use crate::time_span::TimeSpan;

verus! {

/// The key and the text of an option, where it has both.
pub open spec fn option_pair(option: SqlOption) -> Option<(Seq<char>, Seq<char>)> {
    match option {
        SqlOption::KeyValue { key, value: OptionValue::Literal(value) } => match literal_text(
            value,
        ) {
            Some(text) => Some((key@, text)),
            None => None,
        },
        _ => None,
    }
}

/// The key of an option with a key and a text.
pub open spec fn option_key(option: SqlOption) -> Seq<char> {
    match option_pair(option) {
        Some(pair) => pair.0,
        None => Seq::empty(),
    }
}

/// Whether the error tells why the option has no key or no text.
pub open spec fn is_option_refusal(option: SqlOption, error: PlanError) -> bool {
    match option {
        SqlOption::KeyValue { value: OptionValue::Literal(value), .. } => {
            &&& value matches SqlValue::Other(kind, inner)
            &&& breaks_rule(
                error,
                "Expected a string value, found "@ + literal_debug(kind, inner@),
            )
        },
        SqlOption::KeyValue { value: OptionValue::Expression(text), .. } => breaks_rule(
            error,
            "Expected a string literal in with clause, but found "@ + text@,
        ),
        SqlOption::Other(text) => breaks_rule(error, "Invalid with option: "@ + text@),
    }
}

/// The text of the last option with the key.
pub open spec fn last_text(options: Seq<SqlOption>, key: Seq<char>) -> Option<Seq<char>>
    decreases options.len(),
{
    if options.len() == 0 {
        None
    } else {
        match option_pair(options.last()) {
            Some(pair) if pair.0 == key => Some(pair.1),
            _ => last_text(options.drop_last(), key),
        }
    }
}

/// Whether the option at `i` is the first with its key.
#[verifier::opaque]
pub open spec fn is_first_use(options: Seq<SqlOption>, i: int) -> bool {
    forall|j: int|
        0 <= j < i ==> option_key(#[trigger] options[j]) != option_key(options[i])
}

/// The number of first uses of keys among the first `n` options.
pub open spec fn first_uses_before(options: Seq<SqlOption>, n: int) -> nat
    decreases n,
{
    if n <= 0 {
        0
    } else if is_first_use(options, n - 1) {
        first_uses_before(options, n - 1) + 1
    } else {
        first_uses_before(options, n - 1)
    }
}

/// Whether the list has each key once, in the order of their first uses.
pub open spec fn lists_keys(list: Seq<Seq<char>>, options: Seq<SqlOption>) -> bool {
    &&& list.len() == first_uses_before(options, options.len() as int)
    &&& forall|i: int|
        0 <= i < options.len() && #[trigger] is_first_use(options, i) ==> {
            &&& first_uses_before(options, i) < list.len()
            &&& list[first_uses_before(options, i) as int] == option_key(options[i])
        }
}

/// The number of items among the first `n` that are not the one.
pub open spec fn others_before(list: Seq<Seq<char>>, item: Seq<char>, n: int) -> nat
    decreases n,
{
    if n <= 0 {
        0
    } else if list[n - 1] == item {
        others_before(list, item, n - 1)
    } else {
        others_before(list, item, n - 1) + 1
    }
}

/// Whether the list is the other one without the item, in the same order.
pub open spec fn leaves_out(
    rest: Seq<Seq<char>>,
    list: Seq<Seq<char>>,
    item: Seq<char>,
) -> bool {
    &&& rest.len() == others_before(list, item, list.len() as int)
    &&& forall|i: int|
        0 <= i < list.len() && (#[trigger] list[i]) != item ==> {
            &&& others_before(list, item, i) < rest.len()
            &&& rest[others_before(list, item, i) as int] == list[i]
        }
}

proof fn lemma_others_of_front(list: Seq<Seq<char>>, item: Seq<char>, i: int)
    requires
        0 <= i < list.len(),
    ensures
        others_before(list.drop_last(), item, i) == others_before(list, item, i),
    decreases i,
{
    if i > 0 {
        lemma_others_of_front(list, item, i - 1);
    }
}

proof fn lemma_leaves_out(list: Seq<Seq<char>>, item: Seq<char>)
    ensures
        leaves_out(without(list, item), list, item),
    decreases list.len(),
{
    reveal(Seq::filter);
    if list.len() > 0 {
        let front = list.drop_last();
        let n = front.len() as int;
        lemma_leaves_out(front, item);
        lemma_others_of_front(list, item, n);
        let rest = without(list, item);
        assert(rest == if list[n] == item {
            without(front, item)
        } else {
            without(front, item).push(list[n])
        });
        assert forall|i: int| 0 <= i < list.len() && (#[trigger] list[i]) != item implies {
            &&& others_before(list, item, i) < rest.len()
            &&& rest[others_before(list, item, i) as int] == list[i]
        } by {
            lemma_others_of_front(list, item, i);
            if i < n {
                assert(front[i] == list[i]);
            }
        }
    }
}

/// Setting a key in a map gives it back and leaves the others, and taking one out
/// leaves the others in their order.
pub proof fn map_keeps_texts(
    map: &mut StringMap,
    key: String,
    value: String,
    before: Option<String>,
    smaller: &mut StringMap,
    removed: &str,
    taken: Option<String>,
    other: Seq<char>,
)
    requires
        call_ensures(StringMap::insert, (map, key, value), before),
        call_ensures(StringMap::remove, (smaller, removed), taken),
    ensures
        final(map)@.contains_key(key@) && final(map)@[key@] == value@,
        other != key@ ==> final(map)@.contains_key(other) == old(map)@.contains_key(other)
            && final(map)@[other] == old(map)@[other],
        before is Some <==> old(map)@.contains_key(key@),
        before matches Some(text) ==> text@ == old(map)@[key@],
        !final(smaller)@.contains_key(removed@),
        other != removed@ ==> final(smaller)@.contains_key(other) == old(smaller)@.contains_key(
            other,
        ) && final(smaller)@[other] == old(smaller)@[other],
        taken is Some <==> old(smaller)@.contains_key(removed@),
        taken matches Some(text) ==> text@ == old(smaller)@[removed@],
        leaves_out(final(smaller).key_list(), old(smaller).key_list(), removed@),
{
    lemma_leaves_out(old(smaller).key_list(), removed@);
}

/// Reading a map gives what is under the key, and an empty map has no keys.
pub proof fn map_read(
    map: StringMap,
    key: &str,
    value: Option<&String>,
    empty: bool,
    fresh: StringMap,
    any: Seq<char>,
)
    requires
        call_ensures(StringMap::get, (&map, key), value),
        call_ensures(StringMap::is_empty, (&map,), empty),
        call_ensures(StringMap::new, (), fresh),
    ensures
        value is Some <==> map@.contains_key(key@),
        value matches Some(text) ==> text@ == map@[key@],
        empty <==> forall|k: Seq<char>| !(#[trigger] map@.contains_key(k)),
        !fresh@.contains_key(any),
        fresh.key_list().len() == 0,
{
    if !empty {
        if forall|k: Seq<char>| !(#[trigger] map@.contains_key(k)) {
            assert(map@ =~= Map::<Seq<char>, Seq<char>>::empty());
        }
    }
}

proof fn lemma_pair(option: SqlOption)
    ensures
        option_entry(option) is Ok <==> option_pair(option) is Some,
        option_pair(option) matches Some(pair) ==> option_entry(option)->Ok_0 == pair,
{
}

proof fn lemma_refusal(option: SqlOption, error: PlanError)
    requires
        option_entry(option) == Err::<(Seq<char>, Seq<char>), crate::error::ErrorView>(
            error.view(),
        ),
    ensures
        is_option_refusal(option, error),
{
}

proof fn lemma_front_readable(options: Seq<SqlOption>)
    requires
        options.len() > 0,
        all_readable(options),
    ensures
        all_readable(options.drop_last()),
        option_pair(options.last()) is Some,
        option_entry(options.last())->Ok_0 == option_pair(options.last())->0,
{
    let front = options.drop_last();
    assert forall|j: int| 0 <= j < front.len() implies option_entry(#[trigger] front[j]) is Ok by {
        assert(option_entry(options[j]) is Ok);
    }
    assert(option_entry(options[options.len() - 1]) is Ok);
    lemma_pair(options.last());
}

proof fn lemma_last_text(options: Seq<SqlOption>, key: Seq<char>)
    requires
        all_readable(options),
    ensures
        options_map(options).contains_key(key) <==> last_text(options, key) is Some,
        last_text(options, key) matches Some(text) ==> options_map(options)[key] == text,
    decreases options.len(),
{
    if options.len() > 0 {
        lemma_front_readable(options);
        lemma_last_text(options.drop_last(), key);
    }
}

proof fn lemma_no_use(options: Seq<SqlOption>, key: Seq<char>)
    requires
        all_readable(options),
    ensures
        last_text(options, key) is None <==> forall|j: int|
            0 <= j < options.len() ==> option_key(#[trigger] options[j]) != key,
    decreases options.len(),
{
    if options.len() > 0 {
        let front = options.drop_last();
        let n = front.len() as int;
        lemma_front_readable(options);
        lemma_no_use(front, key);
        if last_text(options, key) is None {
            assert forall|j: int| 0 <= j < options.len() implies option_key(
                #[trigger] options[j],
            ) != key by {
                if j < n {
                    assert(option_key(front[j]) != key);
                }
            }
        } else if forall|j: int|
            0 <= j < options.len() ==> option_key(#[trigger] options[j]) != key {
            assert(option_key(options[n]) != key);
            assert forall|j: int| 0 <= j < n implies option_key(#[trigger] front[j])
                != key by {
                assert(option_key(options[j]) != key);
            }
        }
    }
}

proof fn lemma_first_uses_of_front(options: Seq<SqlOption>, i: int)
    requires
        0 <= i < options.len(),
    ensures
        first_uses_before(options.drop_last(), i) == first_uses_before(options, i),
    decreases i,
{
    if i > 0 {
        lemma_first_uses_of_front(options, i - 1);
        lemma_first_use_of_front(options, i - 1);
    }
}

proof fn lemma_first_use_of_front(options: Seq<SqlOption>, i: int)
    requires
        0 <= i < options.len() - 1,
    ensures
        is_first_use(options.drop_last(), i) == is_first_use(options, i),
{
    reveal(is_first_use);
    let front = options.drop_last();
    if is_first_use(front, i) {
        assert forall|j: int| 0 <= j < i implies option_key(#[trigger] options[j])
            != option_key(options[i]) by {
            assert(option_key(front[j]) != option_key(front[i]));
        }
    }
    if is_first_use(options, i) {
        assert forall|j: int| 0 <= j < i implies option_key(#[trigger] front[j])
            != option_key(front[i]) by {
            assert(option_key(options[j]) != option_key(options[i]));
        }
    }
}

/// The last option is the first use of its key where no earlier one has it.
proof fn lemma_last_is_first_use(options: Seq<SqlOption>)
    requires
        options.len() > 0,
        all_readable(options),
    ensures
        is_first_use(options, options.len() - 1) <==> last_text(
            options.drop_last(),
            option_key(options.last()),
        ) is None,
{
    reveal(is_first_use);
    let front = options.drop_last();
    let n = front.len() as int;
    let key = option_key(options[n]);
    lemma_front_readable(options);
    lemma_no_use(front, key);
    if last_text(front, key) is None {
        assert forall|j: int| 0 <= j < n implies option_key(#[trigger] options[j]) != key by {
            assert(option_key(front[j]) != key);
        }
    } else {
        let j = choose|j: int| 0 <= j < front.len() && !(option_key(#[trigger] front[j]) != key);
        assert(option_key(options[j]) == key);
    }
}

proof fn lemma_lists_keys(options: Seq<SqlOption>)
    requires
        all_readable(options),
    ensures
        lists_keys(options_keys(options), options),
    decreases options.len(),
{
    if options.len() > 0 {
        let front = options.drop_last();
        let n = front.len() as int;
        lemma_front_readable(options);
        lemma_lists_keys(front);
        lemma_first_uses_of_front(options, n);
        let key = option_key(options[n]);
        lemma_last_text(front, key);
        lemma_last_is_first_use(options);
        let list = options_keys(options);
        assert forall|i: int| 0 <= i < options.len() && #[trigger] is_first_use(
            options,
            i,
        ) implies {
            &&& first_uses_before(options, i) < list.len()
            &&& list[first_uses_before(options, i) as int] == option_key(options[i])
        } by {
            lemma_first_uses_of_front(options, i);
            if i < n {
                lemma_first_use_of_front(options, i);
                assert(is_first_use(front, i));
                assert(front[i] == options[i]);
            }
        }
    }
}

/// Whether every option has a key and a text.
pub open spec fn all_pairs(options: Seq<SqlOption>) -> bool {
    forall|i: int| 0 <= i < options.len() ==> option_pair(#[trigger] options[i]) is Some
}

/// Whether the error is that of the first option without a key and a text.
pub open spec fn is_first_option_refusal(options: Seq<SqlOption>, error: PlanError) -> bool {
    exists|i: int|
        {
            &&& 0 <= i < options.len()
            &&& option_pair(#[trigger] options[i]) is None
            &&& is_option_refusal(options[i], error)
            &&& forall|j: int| 0 <= j < i ==> option_pair(#[trigger] options[j]) is Some
        }
}

proof fn lemma_all_pairs(options: Seq<SqlOption>)
    ensures
        all_readable(options) == all_pairs(options),
{
    if all_readable(options) {
        assert forall|i: int| 0 <= i < options.len() implies option_pair(
            #[trigger] options[i],
        ) is Some by {
            assert(option_entry(options[i]) is Ok);
            lemma_pair(options[i]);
        }
    }
    if all_pairs(options) {
        assert forall|i: int| 0 <= i < options.len() implies option_entry(
            #[trigger] options[i],
        ) is Ok by {
            assert(option_pair(options[i]) is Some);
            lemma_pair(options[i]);
        }
    }
}

proof fn lemma_first_refusal(options: Seq<SqlOption>, error: PlanError)
    requires
        is_option_error(options, error.view()),
    ensures
        is_first_option_refusal(options, error),
        !all_pairs(options),
{
    let i = choose|i: int| #[trigger]
        first_unreadable(options, i) && error.view() == option_entry(options[i])->Err_0;
    lemma_pair(options[i]);
    lemma_refusal(options[i], error);
    assert forall|j: int| 0 <= j < i implies option_pair(#[trigger] options[j]) is Some by {
        assert(option_entry(options[j]) is Ok);
        lemma_pair(options[j]);
    }
    assert(option_pair(options[i]) is None);
}

/// Options are read if each has a key and a text: the last text under a key
/// counts, and the keys are listed in the order of their first uses. Else the
/// first that has none is refused.
pub proof fn options_read(options: Vec<SqlOption>, map: Result<StringMap, PlanError>)
    requires
        call_ensures(read_options, (&options,), map),
    ensures
        map is Ok <==> all_pairs(options@),
        map matches Ok(map) ==> {
            &&& forall|key: Seq<char>|
                #[trigger] map@.contains_key(key) <==> last_text(options@, key) is Some
            &&& forall|key: Seq<char>|
                #[trigger] map@.contains_key(key) ==> Some(map@[key]) == last_text(options@, key)
            &&& lists_keys(map.key_list(), options@)
        },
        map matches Err(error) ==> is_first_option_refusal(options@, error),
{
    lemma_all_pairs(options@);
    match map {
        Ok(map) => {
            lemma_lists_keys(options@);
            assert forall|key: Seq<char>|
                #[trigger] map@.contains_key(key) <==> last_text(options@, key) is Some by {
                lemma_last_text(options@, key);
            }
            assert forall|key: Seq<char>| #[trigger] map@.contains_key(key) implies Some(map@[key])
                == last_text(options@, key) by {
                lemma_last_text(options@, key);
            }
        },
        Err(error) => {
            lemma_first_refusal(options@, error);
        },
    }
}

/// A statement that lists columns is read exactly if its options have keys and
/// texts, the types of its columns are supported, and no two columns that are not
/// generated share a name. Every other statement has to be planned.
pub proof fn statement_readable(statement: Statement, step: Result<TableStep, PlanError>)
    requires
        call_ensures(Table::try_from_statement, (statement,), step),
    ensures
        match statement {
            Statement::CreateTable(create) => if create.has_query {
                step == Ok::<TableStep, PlanError>(TableStep::Plan)
            } else {
                &&& step is Ok <==> {
                    &&& all_pairs(create.with_options@)
                    &&& forall|i: int|
                        0 <= i < create.columns@.len() ==> (
                        #[trigger] create.columns@[i]).column_type is Ok
                    &&& !repeats_before(create.columns@, create.columns@.len() as int)
                }
                &&& step matches Ok(step) ==> step is Columns
                &&& step matches Err(error) ==> if all_pairs(create.with_options@) {
                    is_columns_refusal(create.columns@, error)
                } else {
                    is_first_option_refusal(create.with_options@, error)
                }
            },
            _ => step == Ok::<TableStep, PlanError>(TableStep::Plan),
        },
{
    if let Statement::CreateTable(create) = statement {
        if !create.has_query {
            lemma_all_pairs(create.with_options@);
            match step {
                Ok(TableStep::Columns(draft)) => {
                    crate::laws::declaring::lemma_distinct(create.columns@);
                },
                Ok(TableStep::Plan) => {},
                Err(error) => {
                    if is_option_error(create.with_options@, error.view()) {
                        lemma_first_refusal(create.with_options@, error);
                    } else {
                        lemma_column_errors(create.columns@, error);
                    }
                },
            }
        }
    }
}

/// A draft has the statement's name, its columns, the names of its primary keys,
/// the connector that its options name and its other options in their order.
pub proof fn statement_drafted(create: CreateTable, draft: TableDraft)
    requires
        !create.has_query,
        call_ensures(
            Table::try_from_statement,
            (Statement::CreateTable(create),),
            Ok::<TableStep, PlanError>(TableStep::Columns(draft)),
        ),
    ensures
        draft.name == create.name,
        draft.temporary == create.temporary,
        match last_text(create.with_options@, "connector"@) {
            Some(text) => draft.connector matches Some(connector) && connector@ == text,
            None => draft.connector is None,
        },
        forall|key: Seq<char>|
            #[trigger] draft.options@.contains_key(key) <==> key != "connector"@ && last_text(
                create.with_options@,
                key,
            ) is Some,
        forall|key: Seq<char>|
            #[trigger] draft.options@.contains_key(key) ==> Some(draft.options@[key])
                == last_text(create.with_options@, key),
        exists|keys: Seq<Seq<char>>| #[trigger]
            lists_keys(keys, create.with_options@) && leaves_out(
                draft.options.key_list(),
                keys,
                "connector"@,
            ),
        are_key_names(
            Seq::new(draft.primary_keys@.len(), |i: int| draft.primary_keys@[i]@),
            create.columns@,
        ),
        is_fresh(draft.schema, create.name@, create.columns@),
{
    let options = create.with_options@;
    lemma_last_text(options, "connector"@);
    lemma_lists_keys(options);
    lemma_leaves_out(options_keys(options), "connector"@);
    lemma_spelled_keys(draft.primary_keys@, create.columns@);
    lemma_fresh(draft.schema, create.name@, create.columns@);
    assert forall|key: Seq<char>|
        #[trigger] draft.options@.contains_key(key) <==> key != "connector"@ && last_text(
            options,
            key,
        ) is Some by {
        lemma_last_text(options, key);
    }
    assert forall|key: Seq<char>| #[trigger] draft.options@.contains_key(key) implies Some(
        draft.options@[key],
    ) == last_text(options, key) by {
        lemma_last_text(options, key);
    }
}

/// The field of a column, of whichever kind the column is.
pub open spec fn field_of(column: FieldSpecView) -> FieldView {
    match column {
        FieldSpecView::Struct(field) => field,
        FieldSpecView::Metadata { field, .. } => field,
        FieldSpecView::Virtual { field, .. } => field,
    }
}

/// A table that names no connector, or `memory`, is held in memory with the
/// fields of all its columns, unless it has computed columns or other options.
/// One that names another connector is set up with its columns, keys and options,
/// but for the profile, which is named apart.
pub proof fn draft_finished(draft: TableDraft, outcome: Result<TableOutcome, PlanError>)
    requires
        draft.schema.settled().len() == draft.schema.declared().len(),
        call_ensures(TableDraft::finish, (draft,), outcome),
    ensures
        ({
            let columns = draft.schema.settled();
            let computed = exists|i: int|
                0 <= i < columns.len() && (#[trigger] columns[i]) is Virtual;
            let optioned = exists|key: Seq<char>| #[trigger] draft.options@.contains_key(key);
            if draft.connector is None || draft.connector->0@ == "memory"@ {
                if computed {
                    outcome matches Err(error) && breaks_rule(
                        error,
                        "Virtual fields are not supported in memory tables; instead write a query"@,
                    )
                } else if optioned && draft.connector is Some {
                    outcome matches Err(error) && breaks_rule(
                        error,
                        "Memory tables do not allow with options"@,
                    )
                } else if optioned {
                    outcome matches Err(error) && breaks_rule(
                        error,
                        "Memory tables do not allow with options; to create a connection table set the 'connector' option"@,
                    )
                } else {
                    &&& outcome matches Ok(TableOutcome::Memory(table))
                    &&& table matches Table::MemoryTable { name, fields, logical_plan }
                    &&& name == draft.name
                    &&& logical_plan is None
                    &&& fields@.len() == columns.len()
                    &&& forall|i: int|
                        0 <= i < columns.len() ==> (#[trigger] fields@[i]).view() == field_of(
                            columns[i],
                        )
                }
            } else {
                &&& outcome matches Ok(TableOutcome::Connector(need))
                &&& need.name == draft.name
                &&& Some(need.connector) == draft.connector
                &&& need.temporary == draft.temporary
                &&& need.primary_keys == draft.primary_keys
                &&& need.fields@.len() == columns.len()
                &&& forall|i: int|
                    0 <= i < columns.len() ==> (#[trigger] need.fields@[i]).view() == columns[i]
                &&& if draft.options@.contains_key("connection_profile"@) {
                    need.profile matches Some(profile) && profile@
                        == draft.options@["connection_profile"@]
                } else {
                    need.profile is None
                }
                &&& need.options@ == draft.options@.remove("connection_profile"@)
                &&& leaves_out(
                    need.options.key_list(),
                    draft.options.key_list(),
                    "connection_profile"@,
                )
            }
        }),
{
    let columns = draft.schema.settled();
    lemma_leaves_out(draft.options.key_list(), "connection_profile"@);
    if !(exists|key: Seq<char>| #[trigger] draft.options@.contains_key(key)) {
        assert(draft.options@ =~= Map::<Seq<char>, Seq<char>>::empty());
    } else {
        let key = choose|key: Seq<char>| #[trigger] draft.options@.contains_key(key);
        assert(draft.options@ != Map::<Seq<char>, Seq<char>>::empty());
    }
    match outcome {
        Ok(TableOutcome::Memory(table)) => {
            let fields = table->MemoryTable_fields;
            assert(field_views(fields@).len() == fields@.len());
            assert(fields_of(columns).len() == columns.len());
            assert forall|i: int| 0 <= i < columns.len() implies (#[trigger] fields@[i]).view()
                == field_of(columns[i]) by {
                assert(field_views(fields@)[i] == fields@[i].view());
                assert(fields_of(columns)[i] == columns[i].field());
            }
        },
        Ok(TableOutcome::Connector(need)) => {
            assert(spec_views(need.fields@).len() == need.fields@.len());
            assert forall|i: int| 0 <= i < columns.len() implies (
            #[trigger] need.fields@[i]).view() == columns[i] by {
                assert(spec_views(need.fields@)[i] == need.fields@[i].view());
            }
        },
        Err(_) => {},
    }
}

/// A profile that is named has to be found, and everything else is handed on.
pub proof fn profile_looked_up(
    need: NeedProfile,
    found: bool,
    default_idle_time: Option<TimeSpan>,
    stage: Result<NeedConnector, PlanError>,
)
    requires
        need.connector@ == "delta"@ ==> forall|i: int|
            0 <= i < need.fields@.len() ==> (#[trigger] need.fields@[i]) is Struct,
        call_ensures(NeedProfile::resume, (need, found, default_idle_time), stage),
    ensures
        if need.profile is Some && !found {
            stage matches Err(error) && breaks_rule(
                error,
                "connection profile '"@ + need.profile->0@ + "' not found"@,
            )
        } else {
            &&& stage matches Ok(stage)
            &&& stage.request.name == need.name
            &&& stage.request.connector == need.connector
            &&& stage.request.temporary == need.temporary
            &&& are_stored_by(need.connector@, stage.request.fields@, need.fields@)
            &&& stage.request.primary_keys == need.primary_keys
            &&& stage.request.profile == need.profile
            &&& stage.request.default_idle_time == default_idle_time
            &&& stage.options == need.options
        },
{
    if let Ok(stage) = stage {
        lemma_stored_by(need.connector@, stage.request.fields@, need.fields@);
    }
}

/// A connector's table is one for lookups exactly if its connection is, and an
/// error is given with the name of the table that it prevented.
pub proof fn connector_table_made(
    name: String,
    outcome: Result<ConnectorTable, PlanError>,
    table: Result<Option<Table>, PlanError>,
)
    requires
        call_ensures(Table::from_connector, (&name, outcome), table),
    ensures
        match outcome {
            Ok(inner) => if inner.connection_type is Lookup {
                table == Ok::<Option<Table>, PlanError>(Some(Table::LookupTable(inner)))
            } else {
                table == Ok::<Option<Table>, PlanError>(Some(Table::ConnectorTable(inner)))
            },
            Err(cause) => {
                &&& table matches Err(PlanError::Context(text, inner))
                &&& text@ == "Failed to create table "@ + name@
                &&& inner.view() == cause.view()
            },
        },
{
}

/// Views and tables with a query, and nothing else that can be planned, are made
/// into tables, materialized under their names.
pub proof fn plan_becomes_table(
    plan: Result<PlannedStatement, DataFusionError>,
    need: Option<NeedRewrite>,
)
    requires
        call_ensures(Table::from_plan, (plan,), need),
    ensures
        need is Some <==> {
            &&& plan matches Ok(plan)
            &&& plan.kind is CreateView || plan.kind is CreateMemoryTable
        },
        need matches Some(need) ==> {
            &&& need.materialize
            &&& match plan->Ok_0.kind {
                PlanKind::CreateView { name, input } => need.name == name && need.input == input,
                PlanKind::CreateMemoryTable { name, input } => need.name == name && need.input
                    == input,
                _ => false,
            }
        },
{
}

/// The text of a reference.
pub open spec fn dotted(reference: TableReference) -> Seq<char> {
    match reference {
        TableReference::Bare { table } => table@,
        TableReference::Partial { schema, table } => schema@ + "."@ + table@,
        TableReference::Full { catalog, schema, table } => catalog@ + "."@ + schema@ + "."@
            + table@,
    }
}

/// The rewritten query is the table, under the text of its name, and an error of
/// the engine is given as it is.
pub proof fn view_made(
    need: NeedRewrite,
    remote: Result<QueryPlan, DataFusionError>,
    table: Result<Option<Table>, PlanError>,
)
    requires
        call_ensures(NeedRewrite::resume, (need, remote), table),
    ensures
        match remote {
            Ok(plan) => {
                &&& table matches Ok(Some(Table::TableFromQuery { name, logical_plan }))
                &&& name@ == dotted(need.name)
                &&& logical_plan == plan
            },
            Err(e) => table == Err::<Option<Table>, PlanError>(PlanError::Engine(e)),
        },
{
}

/// An insert first takes the columns of its table from its query, goes on if that
/// succeeded, and its rows go into the table that its plan names. The rows of any
/// other statement go to no table.
pub proof fn insert_made(
    statement: Statement,
    first: InsertStep,
    inferred: Result<(), PlanError>,
    second: Result<InsertStep, PlanError>,
    planned: Result<PlannedStatement, DataFusionError>,
    insert: Result<Insert, PlanError>,
)
    requires
        call_ensures(Insert::try_from_statement, (statement,), first),
        call_ensures(Insert::after_inference, (inferred,), second),
        call_ensures(Insert::from_plan, (planned,), insert),
    ensures
        match statement {
            Statement::Insert { table_name, .. } => first == (InsertStep::InferSink {
                table_name,
            }),
            _ => first == InsertStep::Plan,
        },
        match inferred {
            Ok(()) => second == Ok::<InsertStep, PlanError>(InsertStep::Plan),
            Err(e) => second == Err::<InsertStep, PlanError>(e),
        },
        match planned {
            Ok(plan) => match plan.kind {
                PlanKind::Insert { table_name, input } => {
                    &&& insert matches Ok(Insert::InsertQuery { sink_name, logical_plan })
                    &&& sink_name@ == dotted(table_name)
                    &&& logical_plan == input
                },
                _ => insert == Ok::<Insert, PlanError>(
                    Insert::Anonymous { logical_plan: plan.plan },
                ),
            },
            Err(e) => insert == Err::<Insert, PlanError>(PlanError::Engine(e)),
        },
{
}

} // verus!
