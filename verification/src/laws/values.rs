//! What values say, and how they are compared, written and read.
use vstd::prelude::*;

use crate::columns::DeclaredColumn;
use crate::connector_table::{ConnectorTable, FieldSpec, FieldSpecView, SourceOperator};
use crate::error::{ErrorView, PlanError};
use crate::from_options::SchemaColumn;
use crate::laws::terms::{breaks_rule, literal_text};
use crate::literal::{SqlValue, literal_debug, value_to_inner_string};
use crate::schema::{DFField, DataType, DataTypeView, Field, FieldView, TableReference};
use crate::string_map::StringMap;
use crate::table::{QueryPlan, Table};
use crate::text::{
    concat2, concat3, number_i64, number_u64, numeral_value, quoted_list, render_quoted_list,
};
use crate::time_span::{
    TimeSpan, as_unsigned, low_signed, signed_low_bits, span_of_nanos, unsigned_bits,
};

verus! {

/// A field says its name, type, nullability, dictionary and metadata.
pub proof fn field_says(field: Field)
    ensures
        field.view().name == field.name@,
        field.view().data_type == field.data_type.view(),
        field.view().nullable == field.nullable,
        field.view().dict_id == field.dict_id,
        field.view().dict_is_ordered == field.dict_is_ordered,
        field.view().metadata == field.metadata@,
{
}

/// A type says everything that it is made of.
pub proof fn type_says(data_type: DataType)
    ensures
        match data_type {
            DataType::Scalar(scalar) => data_type.view() == DataTypeView::Scalar(scalar),
            DataType::Timestamp(unit, None) => data_type.view() == DataTypeView::Timestamp(
                unit,
                None,
            ),
            DataType::Timestamp(unit, Some(zone)) => data_type.view() == DataTypeView::Timestamp(
                unit,
                Some(zone@),
            ),
            DataType::List(kind, item) => data_type.view() == DataTypeView::List(
                kind,
                Box::new(item.view()),
            ),
            DataType::Struct(fields) => {
                &&& data_type.view() matches DataTypeView::Struct(views)
                &&& views.len() == fields@.len()
                &&& forall|i: int|
                    0 <= i < fields@.len() ==> (#[trigger] views[i]) == fields@[i].view()
            },
            DataType::Union(mode, tags, fields) => {
                &&& data_type.view() matches DataTypeView::Union(view_mode, view_tags, views)
                &&& view_mode == mode
                &&& view_tags == tags@
                &&& views.len() == fields@.len()
                &&& forall|i: int|
                    0 <= i < fields@.len() ==> (#[trigger] views[i]) == fields@[i].view()
            },
            DataType::Dictionary(key, value) => data_type.view() == DataTypeView::Dictionary(
                Box::new(key.view()),
                Box::new(value.view()),
            ),
            DataType::Mapping(entry, sorted) => data_type.view() == DataTypeView::Mapping(
                Box::new(entry.view()),
                sorted,
            ),
            DataType::RunEndEncoded(ends, values) => data_type.view()
                == DataTypeView::RunEndEncoded(Box::new(ends.view()), Box::new(values.view())),
        },
{
}

/// A column says its kind, its field, and its key or expression.
pub proof fn column_says(column: FieldSpec)
    ensures
        match column {
            FieldSpec::Struct(field) => column.view() == FieldSpecView::Struct(field.view()),
            FieldSpec::Metadata { field, key } => column.view() == (FieldSpecView::Metadata {
                field: field.view(),
                key: key@,
            }),
            FieldSpec::Virtual { field, expression } => column.view() == (FieldSpecView::Virtual {
                field: field.view(),
                expression,
            }),
        },
        column.view().field() == match column {
            FieldSpec::Struct(field) => field.view(),
            FieldSpec::Metadata { field, .. } => field.view(),
            FieldSpec::Virtual { field, .. } => field.view(),
        },
{
}

/// An output field, a column of a message and a declared column say their parts.
pub proof fn other_columns_say(output: DFField, column: SchemaColumn, declared: DeclaredColumn)
    ensures
        output.view().qualifier == output.qualifier,
        output.view().field == output.field.view(),
        column.view().field == column.field.view(),
        match column.metadata_key {
            Some(key) => column.view().metadata_key == Some(key@),
            None => column.view().metadata_key is None,
        },
        declared.view().field == declared.field.view(),
        match declared.generation_expr {
            Some(expr) => declared.view().generation_expr == Some(expr@),
            None => declared.view().generation_expr is None,
        },
{
}

/// An error says its text, the name that repeats, what it prevented, or the
/// engine's own error.
pub proof fn error_says(error: PlanError)
    ensures
        match error {
            PlanError::Plan(text) => error.view() == ErrorView::Plan(text@),
            PlanError::DuplicateField(name) => error.view() == ErrorView::DuplicateField(name@),
            PlanError::Context(text, cause) => error.view() == ErrorView::Context(
                text@,
                Box::new(cause.view()),
            ),
            PlanError::Engine(e) => error.view() == ErrorView::Engine(e),
        },
{
}

/// Types are the same where they are built alike of parts that are the same.
pub proof fn same_types_built_alike(a: DataTypeView, b: DataTypeView)
    ensures
        a.same_as(b) <==> match a {
            DataTypeView::Scalar(_) => b == a,
            DataTypeView::Timestamp(_, _) => b == a,
            DataTypeView::List(kind, item) => b matches DataTypeView::List(other_kind, other_item)
                && other_kind == kind && item.same_as(*other_item),
            DataTypeView::Struct(fields) => {
                &&& b matches DataTypeView::Struct(others)
                &&& others.len() == fields.len()
                &&& forall|i: int|
                    0 <= i < fields.len() ==> (#[trigger] fields[i]).same_as(others[i])
            },
            DataTypeView::Union(mode, tags, fields) => {
                &&& b matches DataTypeView::Union(other_mode, other_tags, others)
                &&& other_mode == mode
                &&& other_tags == tags
                &&& others.len() == fields.len()
                &&& forall|i: int|
                    0 <= i < fields.len() ==> (#[trigger] fields[i]).same_as(others[i])
            },
            DataTypeView::Dictionary(key, value) => {
                &&& b matches DataTypeView::Dictionary(other_key, other_value)
                &&& key.same_as(*other_key)
                &&& value.same_as(*other_value)
            },
            DataTypeView::Mapping(entry, sorted) => {
                &&& b matches DataTypeView::Mapping(other_entry, other_sorted)
                &&& other_sorted == sorted
                &&& entry.same_as(*other_entry)
            },
            DataTypeView::RunEndEncoded(ends, values) => {
                &&& b matches DataTypeView::RunEndEncoded(other_ends, other_values)
                &&& ends.same_as(*other_ends)
                &&& values.same_as(*other_values)
            },
        },
{
}

/// Fields are the same where everything but their dictionaries is.
pub proof fn same_fields_part_by_part(a: FieldView, b: FieldView)
    ensures
        a.same_as(b) <==> {
            &&& a.name == b.name
            &&& a.data_type.same_as(b.data_type)
            &&& a.nullable == b.nullable
            &&& a.metadata == b.metadata
        },
{
}

/// Comparing types and fields tells whether they are the same.
pub proof fn comparing(a: DataType, b: DataType, x: Field, y: Field, types: bool, fields: bool)
    requires
        call_ensures(DataType::same_type, (&a, &b), types),
        call_ensures(Field::same_field, (&x, &y), fields),
    ensures
        types == a.view().same_as(b.view()),
        fields <==> x.name@ == y.name@ && x.nullable == y.nullable && x.metadata@ == y.metadata@
            && x.data_type.view().same_as(y.data_type.view()),
{
}

/// Copies are what they were copied from.
pub proof fn copying(field: Field, column: FieldSpec, copy: Field, column_copy: FieldSpec)
    requires
        call_ensures(Field::clone, (&field,), copy),
        call_ensures(FieldSpec::clone, (&column,), column_copy),
    ensures
        copy.name@ == field.name@,
        copy.data_type.view() == field.data_type.view(),
        copy.nullable == field.nullable,
        copy.dict_id == field.dict_id,
        copy.dict_is_ordered == field.dict_is_ordered,
        copy.metadata@ == field.metadata@,
        column_copy.view() == column.view(),
{
}

/// A copied table is of the same kind, with the same name, columns and settings.
pub proof fn copying_connector_table(table: ConnectorTable, copy: ConnectorTable)
    requires
        call_ensures(ConnectorTable::clone, (&table,), copy),
    ensures
        copy.id == table.id,
        copy.connector@ == table.connector@,
        copy.name@ == table.name@,
        copy.connection_type == table.connection_type,
        copy.config@ == table.config@,
        copy.description@ == table.description@,
        copy.format == table.format,
        copy.idle_time == table.idle_time,
        copy.lookup_cache_max_bytes == table.lookup_cache_max_bytes,
        copy.lookup_cache_ttl == table.lookup_cache_ttl,
        match table.event_time_field {
            Some(name) => copy.event_time_field matches Some(other) && other@ == name@,
            None => copy.event_time_field is None,
        },
        match table.watermark_field {
            Some(name) => copy.watermark_field matches Some(other) && other@ == name@,
            None => copy.watermark_field is None,
        },
        copy.fields@.len() == table.fields@.len(),
        forall|i: int|
            0 <= i < table.fields@.len() ==> (#[trigger] copy.fields@[i]).view()
                == table.fields@[i].view(),
        copy.primary_keys@.len() == table.primary_keys@.len(),
        forall|i: int|
            0 <= i < table.primary_keys@.len() ==> (#[trigger] copy.primary_keys@[i])@
                == table.primary_keys@[i]@,
        match table.inferred_fields {
            Some(fields) => {
                &&& copy.inferred_fields matches Some(others)
                &&& others@.len() == fields@.len()
                &&& forall|i: int|
                    0 <= i < fields@.len() ==> (#[trigger] others@[i]).field.view()
                        == fields@[i].field.view() && others@[i].qualifier == fields@[i].qualifier
            },
            None => copy.inferred_fields is None,
        },
{
    assert(table.view().fields.len() == table.fields@.len());
    assert(copy.view().fields.len() == copy.fields@.len());
    assert forall|i: int| 0 <= i < table.fields@.len() implies (
    #[trigger] copy.fields@[i]).view() == table.fields@[i].view() by {
        assert(copy.view().fields[i] == copy.fields@[i].view());
        assert(table.view().fields[i] == table.fields@[i].view());
    }
    assert(table.view().primary_keys.len() == table.primary_keys@.len());
    assert(copy.view().primary_keys.len() == copy.primary_keys@.len());
    assert forall|i: int| 0 <= i < table.primary_keys@.len() implies (
    #[trigger] copy.primary_keys@[i])@ == table.primary_keys@[i]@ by {
        assert(copy.view().primary_keys[i] == copy.primary_keys@[i]@);
        assert(table.view().primary_keys[i] == table.primary_keys@[i]@);
    }
    if let Some(fields) = table.inferred_fields {
        let others = copy.inferred_fields->0;
        let a = crate::schema::output_views(fields@);
        let b = crate::schema::output_views(others@);
        assert(a.len() == fields@.len());
        assert(b.len() == others@.len());
        assert forall|i: int| 0 <= i < fields@.len() implies (#[trigger] others@[i]).field.view()
            == fields@[i].field.view() && others@[i].qualifier == fields@[i].qualifier by {
            assert(a[i] == fields@[i].view());
            assert(b[i] == others@[i].view());
        }
    }
}

/// A copied table is the same table.
pub proof fn copying_table(table: Table, copy: Table)
    requires
        call_ensures(Table::clone, (&table,), copy),
    ensures
        match table {
            Table::ConnectorTable(inner) => copy matches Table::ConnectorTable(other)
                && other.view() == inner.view(),
            Table::LookupTable(inner) => copy matches Table::LookupTable(other) && other.view()
                == inner.view(),
            Table::MemoryTable { name, fields, logical_plan } => {
                &&& copy matches Table::MemoryTable { name: n, fields: f, logical_plan: p }
                &&& n@ == name@
                &&& crate::schema::field_views(f@) == crate::schema::field_views(fields@)
                &&& match logical_plan {
                    Some(plan) => p matches Some(other) && same_plan(other, plan),
                    None => p is None,
                }
            },
            Table::TableFromQuery { name, logical_plan } => {
                &&& copy matches Table::TableFromQuery { name: n, logical_plan: p }
                &&& n@ == name@
                &&& same_plan(p, logical_plan)
            },
            Table::PreviewSink { logical_plan } => {
                &&& copy matches Table::PreviewSink { logical_plan: p }
                &&& same_plan(p, logical_plan)
            },
        },
{
}

/// Whether two plans are the same, with the same fields.
pub open spec fn same_plan(a: QueryPlan, b: QueryPlan) -> bool {
    a.plan == b.plan && crate::schema::field_views(a.fields@) == crate::schema::field_views(
        b.fields@,
    )
}

/// A copied source reads the same.
pub proof fn copying_source(source: SourceOperator, copy: SourceOperator)
    requires
        call_ensures(SourceOperator::clone, (&source,), copy),
    ensures
        copy.name@ == source.name@,
        copy.source.id == source.source.id,
        crate::schema::field_views(copy.source.struct_def@) == crate::schema::field_views(
            source.source.struct_def@,
        ),
        copy.source.config.connector@ == source.source.config.connector@,
        copy.source.config.config@ == source.source.config.config@,
        copy.source.config.description@ == source.source.config.description@,
        copy.source.processing_mode == source.source.processing_mode,
        copy.source.idle_time == source.source.idle_time,
        copy.timestamp_override == source.timestamp_override,
        copy.watermark_column == source.watermark_column,
{
}

/// A list of fields says what each of them says, in order.
pub proof fn fields_say(fields: Seq<Field>, i: int)
    requires
        0 <= i < fields.len(),
    ensures
        crate::schema::field_views(fields).len() == fields.len(),
        crate::schema::field_views(fields)[i] == fields[i].view(),
{
}

/// The text of a reference has its parts in order with dots between them.
pub proof fn reference_text(reference: TableReference, text: String)
    requires
        call_ensures(TableReference::to_text, (&reference,), text),
    ensures
        match reference {
            TableReference::Bare { table } => text@ == table@,
            TableReference::Partial { schema, table } => text@ == schema@ + "."@ + table@,
            TableReference::Full { catalog, schema, table } => text@ == catalog@ + "."@ + schema@
                + "."@ + table@,
        },
{
}

/// A literal gives an option the text that it stands for, and one that stands for
/// none is refused.
pub proof fn text_of_literal(value: SqlValue, text: Result<String, PlanError>)
    requires
        call_ensures(value_to_inner_string, (&value,), text),
    ensures
        match literal_text(value) {
            Some(own) => text matches Ok(text) && text@ == own,
            None => {
                &&& text matches Err(error)
                &&& value matches SqlValue::Other(kind, inner)
                &&& breaks_rule(
                    error,
                    "Expected a string value, found "@ + literal_debug(kind, inner@),
                )
            },
        },
{
}

/// Texts are joined in order.
pub proof fn joined_texts(a: &str, b: &str, c: &str, two: String, three: String)
    requires
        call_ensures(concat2, (a, b), two),
        call_ensures(concat3, (a, b, c), three),
    ensures
        two@ == a@ + b@,
        three@ == a@ + b@ + c@,
{
}

proof fn lemma_quoted_append(a: Seq<Seq<char>>, b: Seq<Seq<char>>)
    requires
        a.len() > 0,
        b.len() > 0,
    ensures
        quoted_list(a + b) == quoted_list(a) + ", "@ + quoted_list(b),
    decreases b.len(),
{
    assert((a + b).drop_last() =~= a + b.drop_last());
    assert((a + b).last() == b.last());
    if b.len() == 1 {
        assert(b.drop_last() =~= Seq::<Seq<char>>::empty());
        assert(a + b.drop_last() =~= a);
        assert(quoted_list(b) == "'"@ + b[0] + "'"@);
        assert(quoted_list(a + b) =~= quoted_list(a) + ", "@ + quoted_list(b));
    } else {
        lemma_quoted_append(a, b.drop_last());
        assert(quoted_list(a + b) =~= quoted_list(a) + ", "@ + quoted_list(b));
    }
}

/// A list of one quotes it, an empty one is empty, and a list in two parts has
/// both with a comma between them.
pub proof fn quoted_lists(a: Seq<Seq<char>>, b: Seq<Seq<char>>, item: Seq<char>)
    ensures
        quoted_list(Seq::empty()) == Seq::<char>::empty(),
        quoted_list(seq![item]) == "'"@ + item + "'"@,
        a.len() > 0 && b.len() > 0 ==> quoted_list(a + b) == quoted_list(a) + ", "@ + quoted_list(
            b,
        ),
{
    if a.len() > 0 && b.len() > 0 {
        lemma_quoted_append(a, b);
    }
}

/// Rendering a list of names quotes them in order.
pub proof fn rendered_list(items: Vec<String>, list: String)
    requires
        call_ensures(render_quoted_list, (&items,), list),
    ensures
        list@ == quoted_list(Seq::new(items@.len(), |i: int| items@[i]@)),
{
    assert(crate::text::spelled(items@) =~= Seq::new(items@.len(), |i: int| items@[i]@));
}

/// Digits denote a number in base ten.
pub proof fn digits_denote(digits: Seq<char>, digit: char)
    ensures
        numeral_value(Seq::empty()) == 0,
        numeral_value(digits.push(digit)) == numeral_value(digits) * 10 + (digit as int
            - '0' as int),
{
    assert(digits.push(digit).drop_last() =~= digits);
}

/// Whether the text is one or more digits.
pub open spec fn only_digits(text: Seq<char>) -> bool {
    text.len() > 0 && forall|i: int| 0 <= i < text.len() ==> '0' <= (#[trigger] text[i]) <= '9'
}

/// A text spells a signed number where digits follow an optional sign, and the
/// number fits.
pub proof fn signed_numbers(text: Seq<char>)
    ensures
        only_digits(text) && numeral_value(text) <= i64::MAX && numeral_value(text) >= i64::MIN
            ==> number_i64(text) == Some(numeral_value(text) as i64),
        text.len() > 0 && text[0] == '+' && only_digits(text.skip(1)) && numeral_value(
            text.skip(1),
        ) <= i64::MAX && numeral_value(text.skip(1)) >= i64::MIN ==> number_i64(text) == Some(
            numeral_value(text.skip(1)) as i64,
        ),
        text.len() > 0 && text[0] == '-' && only_digits(text.skip(1)) && -numeral_value(
            text.skip(1),
        ) >= i64::MIN && -numeral_value(text.skip(1)) <= i64::MAX ==> number_i64(text) == Some(
            (-numeral_value(text.skip(1))) as i64,
        ),
        number_i64(text) matches Some(n) ==> {
            ||| only_digits(text) && n == numeral_value(text)
            ||| text.len() > 0 && text[0] == '+' && only_digits(text.skip(1)) && n
                == numeral_value(text.skip(1))
            ||| text.len() > 0 && text[0] == '-' && only_digits(text.skip(1)) && n
                == -numeral_value(text.skip(1))
        },
{
    lemma_only_digits(text);
    lemma_only_digits(text.skip(1));
}

/// A text spells an unsigned number where digits follow an optional plus sign,
/// and the number fits.
pub proof fn unsigned_numbers(text: Seq<char>)
    ensures
        only_digits(text) && numeral_value(text) <= u64::MAX ==> number_u64(text) == Some(
            numeral_value(text) as u64,
        ),
        text.len() > 0 && text[0] == '+' && only_digits(text.skip(1)) && numeral_value(
            text.skip(1),
        ) <= u64::MAX ==> number_u64(text) == Some(numeral_value(text.skip(1)) as u64),
        number_u64(text) matches Some(n) ==> {
            ||| only_digits(text) && n == numeral_value(text)
            ||| text.len() > 0 && text[0] == '+' && only_digits(text.skip(1)) && n
                == numeral_value(text.skip(1))
        },
{
    lemma_only_digits(text);
    lemma_only_digits(text.skip(1));
    if only_digits(text) {
        lemma_value_positive(text);
    }
    if only_digits(text.skip(1)) {
        lemma_value_positive(text.skip(1));
    }
}

proof fn lemma_only_digits(text: Seq<char>)
    ensures
        crate::text::is_numeral(text) == only_digits(text),
        only_digits(text) ==> text[0] != '+' && text[0] != '-',
{
    if crate::text::is_numeral(text) {
        assert forall|i: int| 0 <= i < text.len() implies '0' <= (#[trigger] text[i]) <= '9' by {
            assert(crate::text::is_digit(text[i]));
        }
    }
    if only_digits(text) {
        assert('0' <= text[0] <= '9');
        assert forall|i: int| 0 <= i < text.len() implies crate::text::is_digit(
            #[trigger] text[i],
        ) by {
            assert('0' <= text[i] <= '9');
        }
    }
}

proof fn lemma_value_positive(text: Seq<char>)
    requires
        forall|i: int| 0 <= i < text.len() ==> '0' <= (#[trigger] text[i]) <= '9',
    ensures
        numeral_value(text) >= 0,
    decreases text.len(),
{
    if text.len() > 0 {
        assert('0' <= text[text.len() - 1] <= '9');
        assert forall|i: int| 0 <= i < text.drop_last().len() implies '0' <= (
        #[trigger] text.drop_last()[i]) <= '9' by {
            assert('0' <= text[i] <= '9');
        }
        lemma_value_positive(text.drop_last());
    }
}

/// A span has whole seconds and less than a second more, and together they are
/// its length.
pub proof fn length_of_span(nanos: int)
    requires
        0 <= nanos < 18446744073709551616000000000,
    ensures
        span_of_nanos(nanos).nanos < 1_000_000_000,
        span_of_nanos(nanos).secs * 1_000_000_000 + span_of_nanos(nanos).nanos == nanos,
{
}

/// The bits of a number are the same, read with or without a sign.
pub proof fn bits_of_numbers(signed: i64, wide: u128, bits: u64, low: i64)
    requires
        call_ensures(unsigned_bits, (signed,), bits),
        call_ensures(signed_low_bits, (wide,), low),
    ensures
        bits == if signed < 0 {
            signed + 18446744073709551616
        } else {
            signed as int
        },
        (wide - low) % 18446744073709551616 == 0,
        as_unsigned(signed as int) == bits,
        low_signed(wide as int) == low,
{
}

/// Spans are made of seconds, milliseconds and microseconds, measured in
/// microseconds, and added up.
pub proof fn making_spans(n: u64, secs: TimeSpan, millis: TimeSpan, micros: TimeSpan)
    requires
        call_ensures(TimeSpan::from_secs, (n,), secs),
        call_ensures(TimeSpan::from_millis, (n,), millis),
        call_ensures(TimeSpan::from_micros, (n,), micros),
    ensures
        secs == (TimeSpan { secs: n, nanos: 0 }),
        millis.nanos < 1_000_000_000 && millis.secs * 1_000_000_000 + millis.nanos == n * 1_000_000,
        micros.nanos < 1_000_000_000 && micros.secs * 1_000_000_000 + micros.nanos == n * 1000,
{
}

/// Measuring a span gives its whole microseconds, and two spans one after the
/// other are as long as both.
pub proof fn using_spans(a: TimeSpan, b: TimeSpan, micros: u128, sum: TimeSpan)
    requires
        a.nanos < 1_000_000_000,
        b.nanos < 1_000_000_000,
        (a.secs + b.secs) * 1_000_000_000 + a.nanos + b.nanos < 18446744073709551616000000000,
        call_ensures(TimeSpan::as_micros, (&a,), micros),
        call_ensures(TimeSpan::plus, (&a, b), sum),
    ensures
        micros == (a.secs * 1_000_000_000 + a.nanos) / 1000,
        sum.nanos < 1_000_000_000,
        sum.secs * 1_000_000_000 + sum.nanos == (a.secs + b.secs) * 1_000_000_000 + a.nanos
            + b.nanos,
{
}

/// A new field has nothing but name, type and nullability, a struct type has its
/// fields in order, and only timestamps are timestamps.
pub proof fn making_fields(
    name: String,
    data_type: DataType,
    nullable: bool,
    field: Field,
    fields: Vec<Field>,
    row: DataType,
    timestamp: bool,
    copy: DataType,
)
    requires
        call_ensures(Field::new, (name, data_type, nullable), field),
        call_ensures(DataType::struct_of, (fields,), row),
        call_ensures(DataType::is_timestamp, (&data_type,), timestamp),
        call_ensures(DataType::clone, (&data_type,), copy),
    ensures
        field.name@ == name@,
        field.data_type.view() == data_type.view(),
        field.nullable == nullable,
        field.dict_id == 0,
        !field.dict_is_ordered,
        field.metadata@ == Map::<Seq<char>, Seq<char>>::empty(),
        row.view() == DataTypeView::Struct(Seq::new(fields@.len(), |i: int| fields@[i].view())),
        timestamp <==> data_type is Timestamp,
        copy.view() == data_type.view(),
{
    assert(crate::schema::field_views(fields@) =~= Seq::new(
        fields@.len(),
        |i: int| fields@[i].view(),
    ));
}

/// A field alone is a column of the message.
pub proof fn field_as_column(field: Field, column: FieldSpec)
    requires
        call_ensures(<FieldSpec as From<Field>>::from, (field,), column),
    ensures
        column == FieldSpec::Struct(field),
{
}

/// Errors are made of their texts in order, and keep what they wrap.
pub proof fn making_errors(
    a: &str,
    b: &str,
    c: &str,
    text: String,
    cause: PlanError,
    fixed: PlanError,
    with: PlanError,
    around: PlanError,
    wrapped: PlanError,
)
    requires
        call_ensures(PlanError::plan, (a,), fixed),
        call_ensures(PlanError::plan_with, (a, b), with),
        call_ensures(PlanError::plan_around, (a, b, c), around),
        call_ensures(PlanError::context, (cause, text), wrapped),
    ensures
        breaks_rule(fixed, a@),
        breaks_rule(with, a@ + b@),
        breaks_rule(around, a@ + b@ + c@),
        wrapped matches PlanError::Context(own, inner) && own@ == text@ && inner.view()
            == cause.view(),
{
}

/// A copied map has the same texts, and maps are the same where they have the
/// same texts under the same keys.
pub proof fn comparing_maps(a: StringMap, b: StringMap, same: bool, copy: StringMap)
    requires
        call_ensures(StringMap::same_map, (&a, &b), same),
        call_ensures(StringMap::clone, (&a,), copy),
    ensures
        same <==> forall|key: Seq<char>|
            (#[trigger] a@.contains_key(key)) == b@.contains_key(key) && (a@.contains_key(key)
                ==> a@[key] == b@[key]),
        forall|key: Seq<char>| #[trigger] copy@.contains_key(key) == a@.contains_key(key),
        forall|key: Seq<char>| #[trigger] copy@.contains_key(key) ==> copy@[key] == a@[key],
{
    if forall|key: Seq<char>|
        (#[trigger] a@.contains_key(key)) == b@.contains_key(key) && (a@.contains_key(key)
            ==> a@[key] == b@[key]) {
        assert forall|key: Seq<char>| a@.dom().contains(key) == b@.dom().contains(key) by {
            assert(a@.contains_key(key) == b@.contains_key(key));
        }
        assert forall|key: Seq<char>| a@.dom().contains(key) implies a@[key] == b@[key] by {
            assert(a@.contains_key(key));
        }
        assert(a@ =~= b@);
    }
}

/// A text is compared as a whole.
pub proof fn comparing_texts(a: String, b: &str, same: bool)
    requires
        call_ensures(crate::text::is_text, (&a, b), same),
    ensures
        same <==> a@ == b@,
{
}

/// Lists of fields are the same where they are as long and the same at every
/// place.
pub proof fn comparing_lists(a: Vec<Field>, b: Vec<Field>, same: bool)
    requires
        call_ensures(crate::schema::same_fields, (&a, &b), same),
    ensures
        same <==> {
            &&& a@.len() == b@.len()
            &&& forall|i: int|
                0 <= i < a@.len() ==> (#[trigger] a@[i]).view().same_as(b@[i].view())
        },
{
    let x = crate::schema::field_views(a@);
    let y = crate::schema::field_views(b@);
    assert(x.len() == a@.len());
    assert(y.len() == b@.len());
    if same {
        assert forall|i: int| 0 <= i < a@.len() implies (#[trigger] a@[i]).view().same_as(
            b@[i].view(),
        ) by {
            assert(x[i].same_as(y[i]));
        }
    } else if a@.len() == b@.len() && forall|i: int|
        0 <= i < a@.len() ==> (#[trigger] a@[i]).view().same_as(b@[i].view()) {
        assert forall|i: int| 0 <= i < x.len() implies (#[trigger] x[i]).same_as(y[i]) by {
            assert(a@[i].view().same_as(b@[i].view()));
        }
    }
}

/// Copied lists have the same items in the same places.
pub proof fn copying_lists(
    fields: Vec<Field>,
    columns: Vec<FieldSpec>,
    texts: Vec<String>,
    field_copies: Vec<Field>,
    column_copies: Vec<FieldSpec>,
    text_copies: Vec<String>,
)
    requires
        call_ensures(crate::schema::copy_fields, (&fields,), field_copies),
        call_ensures(crate::connector_table::copy_specs, (&columns,), column_copies),
        call_ensures(crate::text::copy_texts, (&texts,), text_copies),
    ensures
        field_copies@.len() == fields@.len(),
        forall|i: int|
            0 <= i < fields@.len() ==> (#[trigger] field_copies@[i]).view() == fields@[i].view(),
        column_copies@.len() == columns@.len(),
        forall|i: int|
            0 <= i < columns@.len() ==> (#[trigger] column_copies@[i]).view()
                == columns@[i].view(),
        text_copies@.len() == texts@.len(),
        forall|i: int| 0 <= i < texts@.len() ==> (#[trigger] text_copies@[i])@ == texts@[i]@,
{
    let a = crate::connector_table::spec_views(columns@);
    let b = crate::connector_table::spec_views(column_copies@);
    assert(a.len() == columns@.len());
    assert(b.len() == column_copies@.len());
    assert forall|i: int| 0 <= i < columns@.len() implies (#[trigger] column_copies@[i]).view()
        == columns@[i].view() by {
        assert(a[i] == columns@[i].view());
        assert(b[i] == column_copies@[i].view());
    }
    let x = crate::text::spelled(texts@);
    let y = crate::text::spelled(text_copies@);
    assert(x.len() == texts@.len());
    assert(y.len() == text_copies@.len());
    assert forall|i: int| 0 <= i < texts@.len() implies (#[trigger] text_copies@[i])@
        == texts@[i]@ by {
        assert(x[i] == texts@[i]@);
        assert(y[i] == text_copies@[i]@);
    }
}

} // verus!
