//! SQL literals as the values of table options.
use datafusion::sql::sqlparser::ast::{DollarQuotedString, Value};
use vstd::prelude::*;

use self::LiteralKind::{
    DoubleQuoted, DoubleQuotedByte, DoubleQuotedRaw, Escaped, Hex, National, Null, Placeholder,
    SingleQuotedByte, SingleQuotedRaw, TripleDoubleQuoted, TripleDoubleQuotedByte,
    TripleDoubleQuotedRaw, TripleSingleQuoted, TripleSingleQuotedByte, TripleSingleQuotedRaw,
};
use crate::error::{ErrorView, PlanError};
use crate::text::spelled_option;

verus! {

/// The literals that are neither plain strings nor numbers nor truth values.
#[derive(Debug, Clone, Copy, PartialEq, Eq, Structural)]
pub enum LiteralKind {
    DoubleQuoted,
    Escaped,
    National,
    SingleQuotedByte,
    DoubleQuotedByte,
    TripleSingleQuoted,
    TripleDoubleQuoted,
    TripleSingleQuotedByte,
    TripleDoubleQuotedByte,
    SingleQuotedRaw,
    DoubleQuotedRaw,
    TripleSingleQuotedRaw,
    TripleDoubleQuotedRaw,
    Hex,
    Placeholder,
    /// `NULL`, which has no text of its own.
    Null,
}

/// A literal.
#[derive(Debug, PartialEq, Eq)]
pub enum SqlValue {
    /// `'text'`
    SingleQuotedString(String),
    /// `U&'text'`
    UnicodeStringLiteral(String),
    /// `$tag$text$tag$`
    DollarQuotedString { value: String, tag: Option<String> },
    /// A number as it is written, and whether an `L` follows it.
    Number(String, bool),
    Boolean(bool),
    /// A literal of another kind with the text in it.
    Other(LiteralKind, String),
}

/// A dollar-quoted string as it is written in SQL.
pub open spec fn dollar_quoted(value: Seq<char>, tag: Option<Seq<char>>) -> Seq<char> {
    match tag {
        Some(tag) => "$"@ + tag + "$"@ + value + "$"@ + tag + "$"@,
        None => "$$"@ + value + "$$"@,
    }
}

/// A number as it is written in SQL.
pub open spec fn number_text(digits: Seq<char>, long: bool) -> Seq<char> {
    if long {
        digits + "L"@
    } else {
        digits
    }
}

/// A truth value as it is written in SQL.
pub open spec fn boolean_text(b: bool) -> Seq<char> {
    if b {
        "true"@
    } else {
        "false"@
    }
}

/// What the `Debug` form of `sqlparser::ast::Value` is for a literal of the
/// kind with the text in it.
pub uninterp spec fn literal_debug(kind: LiteralKind, text: Seq<char>) -> Seq<char>;

/// `<sqlparser::ast::Value as Debug>::fmt`: its result is a function of the
/// literal alone, and is named by [`literal_debug`].
#[verifier::external_body]
fn render_debug(kind: LiteralKind, text: &str) -> (rendered: String)
    ensures
        rendered@ == literal_debug(kind, text@),
{
    let s = text.to_owned();
    format!("{:?}", match kind {
        DoubleQuoted => Value::DoubleQuotedString(s), Escaped => Value::EscapedStringLiteral(s),
        National => Value::NationalStringLiteral(s), Hex => Value::HexStringLiteral(s),
        SingleQuotedByte => Value::SingleQuotedByteStringLiteral(s), Null => Value::Null,
        DoubleQuotedByte => Value::DoubleQuotedByteStringLiteral(s),
        TripleSingleQuoted => Value::TripleSingleQuotedString(s), Placeholder => Value::Placeholder(s),
        TripleDoubleQuoted => Value::TripleDoubleQuotedString(s),
        TripleSingleQuotedByte => Value::TripleSingleQuotedByteStringLiteral(s),
        TripleDoubleQuotedByte => Value::TripleDoubleQuotedByteStringLiteral(s),
        SingleQuotedRaw => Value::SingleQuotedRawStringLiteral(s), DoubleQuotedRaw => Value::DoubleQuotedRawStringLiteral(s),
        TripleSingleQuotedRaw => Value::TripleSingleQuotedRawStringLiteral(s),
        TripleDoubleQuotedRaw => Value::TripleDoubleQuotedRawStringLiteral(s),
    })
}

/// `<sqlparser::ast::Value as Display>::fmt` on numbers and truth values: a
/// number is its digits, followed by `L` where it is marked long; a truth value
/// is `true` or `false`.
#[verifier::external_body]
fn render_scalar(value: &SqlValue) -> (rendered: String)
    requires
        value is Number || value is Boolean,
    ensures
        match *value {
            SqlValue::Number(digits, long) => rendered@ == number_text(digits@, long),
            SqlValue::Boolean(b) => rendered@ == boolean_text(b),
            _ => true,
        },
{
    match value {
        SqlValue::Number(digits, long) => Value::Number(digits.clone(), *long).to_string(),
        SqlValue::Boolean(b) => Value::Boolean(*b).to_string(),
        _ => Value::Null.to_string(),
    }
}

/// `<sqlparser::ast::DollarQuotedString as Display>::fmt`: the text between two
/// dollar quotes, each with the tag in it where there is one.
#[verifier::external_body]
fn render_dollar_quoted(value: &String, tag: &Option<String>) -> (rendered: String)
    ensures
        rendered@ == dollar_quoted(value@, spelled_option(*tag)),
{
    DollarQuotedString { value: value.clone(), tag: tag.clone() }.to_string()
}

/// The text of an option whose value is the literal, or the error where a
/// literal of that kind is no value for an option.
pub open spec fn inner_string(value: SqlValue) -> Result<Seq<char>, ErrorView> {
    match value {
        SqlValue::SingleQuotedString(s) => Ok(s@),
        SqlValue::UnicodeStringLiteral(s) => Ok(s@),
        SqlValue::DollarQuotedString { value, tag } => Ok(
            dollar_quoted(value@, spelled_option(tag)),
        ),
        SqlValue::Number(digits, long) => Ok(number_text(digits@, long)),
        SqlValue::Boolean(b) => Ok(boolean_text(b)),
        SqlValue::Other(kind, text) => Err(
            ErrorView::Plan("Expected a string value, found "@ + literal_debug(kind, text@)),
        ),
    }
}

/// The text of an option whose value is the literal.
pub fn value_to_inner_string(value: &SqlValue) -> (inner: Result<String, PlanError>)
    ensures
        match inner {
            Ok(s) => inner_string(*value) == Ok::<Seq<char>, ErrorView>(s@),
            Err(e) => inner_string(*value) == Err::<Seq<char>, ErrorView>(e.view()),
        },
{
    match value {
        SqlValue::SingleQuotedString(s) | SqlValue::UnicodeStringLiteral(s) => Ok(s.clone()),
        SqlValue::DollarQuotedString { value, tag } => Ok(render_dollar_quoted(value, tag)),
        SqlValue::Number(_, _) | SqlValue::Boolean(_) => Ok(render_scalar(value)),
        SqlValue::Other(kind, text) => {
            let rendered = render_debug(*kind, text.as_str());
            Err(PlanError::plan_with("Expected a string value, found ", rendered.as_str()))
        },
    }
}

} // verus!
