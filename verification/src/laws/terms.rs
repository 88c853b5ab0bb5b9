//! The terms in which calls are described.
use vstd::prelude::*;

use crate::connector_table::{ConnectorTable, FieldSpec, spec_views, stored};
use crate::error::PlanError;
use crate::literal::SqlValue;
use crate::schema::Field;

verus! {

/// Whether the error is a broken rule with the text.
pub open spec fn breaks_rule(error: PlanError, text: Seq<char>) -> bool {
    error matches PlanError::Plan(message) && message@ == text
}

/// The field of a column, of whichever kind the column is.
pub open spec fn column_field(column: FieldSpec) -> Field {
    match column {
        FieldSpec::Struct(field) => field,
        FieldSpec::Metadata { field, .. } => field,
        FieldSpec::Virtual { field, .. } => field,
    }
}

/// Whether the rows of the table are updates of earlier ones.
pub open spec fn updates(table: ConnectorTable) -> bool {
    table.format matches Some(format) && format.updating
}

/// Whether one of the table's columns is computed.
pub open spec fn computes_columns(table: ConnectorTable) -> bool {
    exists|i: int| 0 <= i < table.fields@.len() && (#[trigger] table.fields@[i]) is Virtual
}

/// Whether the column is a timestamp with the name.
pub open spec fn is_timestamp_named(column: FieldSpec, name: Seq<char>) -> bool {
    &&& column_field(column).name@ == name
    &&& column_field(column).data_type is Timestamp
}

/// Whether one of the table's columns, of whichever kind, is a timestamp with the
/// name.
pub open spec fn names_timestamp(table: ConnectorTable, name: Seq<char>) -> bool {
    exists|i: int|
        0 <= i < table.fields@.len() && is_timestamp_named(#[trigger] table.fields@[i], name)
}

/// The number of columns among the first `n` that are not computed.
pub open spec fn stored_before(columns: Seq<FieldSpec>, n: int) -> nat
    decreases n,
{
    if n <= 0 {
        0
    } else if columns[n - 1] is Virtual {
        stored_before(columns, n - 1)
    } else {
        stored_before(columns, n - 1) + 1
    }
}

/// Whether the fields are those of the columns that are not computed, in their
/// order.
pub open spec fn are_stored_fields(fields: Seq<Field>, columns: Seq<FieldSpec>) -> bool {
    &&& fields.len() == stored_before(columns, columns.len() as int)
    &&& forall|i: int|
        0 <= i < columns.len() && !((#[trigger] columns[i]) is Virtual)
            ==> fields[stored_before(columns, i) as int].view() == column_field(columns[i]).view()
}

/// Whether the fields are those of all the columns, in their order.
pub open spec fn are_all_fields(fields: Seq<Field>, columns: Seq<FieldSpec>) -> bool {
    &&& fields.len() == columns.len()
    &&& forall|i: int|
        0 <= i < columns.len() ==> (#[trigger] fields[i]).view() == column_field(
            columns[i],
        ).view()
}

/// Whether the fields have the same views, in their order.
pub open spec fn are_same_fields(fields: Seq<Field>, others: Seq<Field>) -> bool {
    &&& fields.len() == others.len()
    &&& forall|i: int| 0 <= i < others.len() ==> (#[trigger] fields[i]).view() == others[i].view()
}

/// The text that a literal stands for, where it stands for one.
pub open spec fn literal_text(value: SqlValue) -> Option<Seq<char>> {
    match value {
        SqlValue::SingleQuotedString(text) => Some(text@),
        SqlValue::UnicodeStringLiteral(text) => Some(text@),
        SqlValue::DollarQuotedString { value, tag: None } => Some("$$"@ + value@ + "$$"@),
        SqlValue::DollarQuotedString { value, tag: Some(tag) } => Some(
            "$"@ + tag@ + "$"@ + value@ + "$"@ + tag@ + "$"@,
        ),
        SqlValue::Number(digits, true) => Some(digits@ + "L"@),
        SqlValue::Number(digits, false) => Some(digits@),
        SqlValue::Boolean(true) => Some("true"@),
        SqlValue::Boolean(false) => Some("false"@),
        SqlValue::Other(_, _) => None,
    }
}

/// A column that is not computed is stored at the place that its rank gives.
pub(crate) proof fn lemma_stored_rank(columns: Seq<FieldSpec>)
    ensures
        stored(spec_views(columns)).len() == stored_before(columns, columns.len() as int),
        forall|i: int|
            0 <= i < columns.len() && !((#[trigger] columns[i]) is Virtual) ==> {
                &&& stored_before(columns, i) < stored(spec_views(columns)).len()
                &&& stored(spec_views(columns))[stored_before(columns, i) as int]
                    == columns[i].view()
            },
    decreases columns.len(),
{
    reveal(Seq::filter);
    if columns.len() > 0 {
        let front = columns.drop_last();
        let n = front.len() as int;
        lemma_stored_rank(front);
        assert(spec_views(columns).drop_last() =~= spec_views(front));
        assert(spec_views(columns).last() == columns[n].view());
        lemma_rank_of_front(columns, n);
        assert forall|i: int| 0 <= i < columns.len() && !((
        #[trigger] columns[i]) is Virtual) implies {
            &&& stored_before(columns, i) < stored(spec_views(columns)).len()
            &&& stored(spec_views(columns))[stored_before(columns, i) as int]
                == columns[i].view()
        } by {
            lemma_rank_of_front(columns, i);
            if i < n {
                assert(!(front[i] is Virtual));
            }
        }
    }
}

proof fn lemma_rank_of_front(columns: Seq<FieldSpec>, i: int)
    requires
        0 <= i < columns.len(),
    ensures
        stored_before(columns.drop_last(), i) == stored_before(columns, i),
    decreases i,
{
    if i > 0 {
        lemma_rank_of_front(columns, i - 1);
    }
}

} // verus!
