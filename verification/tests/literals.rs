use datafusion::sql::sqlparser::ast::{DollarQuotedString, Value};
use planner_tables::error::PlanError;
use planner_tables::literal::{value_to_inner_string, LiteralKind, SqlValue};

fn text_of(value: SqlValue) -> String {
    match value_to_inner_string(&value) {
        Ok(text) => text,
        Err(e) => panic!("no text: {:?}", e),
    }
}

fn refusal_of(kind: LiteralKind, text: &str) -> String {
    match value_to_inner_string(&SqlValue::Other(kind, text.to_string())) {
        Err(PlanError::Plan(message)) => message,
        other => panic!("not refused: {:?}", other),
    }
}

#[test]
fn strings_are_taken_as_they_are() {
    assert_eq!(text_of(SqlValue::SingleQuotedString("kafka".to_string())), "kafka");
    assert_eq!(text_of(SqlValue::SingleQuotedString(String::new())), "");
    assert_eq!(text_of(SqlValue::UnicodeStringLiteral("gr\u{fc}n".to_string())), "gr\u{fc}n");
}

#[test]
fn numbers_are_rendered() {
    assert_eq!(text_of(SqlValue::Number("1000".to_string(), false)), "1000");
    assert_eq!(text_of(SqlValue::Number("1000".to_string(), true)), "1000L");
    assert_eq!(text_of(SqlValue::Number("1.5".to_string(), false)), "1.5");
}

#[test]
fn booleans_are_rendered() {
    assert_eq!(text_of(SqlValue::Boolean(true)), "true");
    assert_eq!(text_of(SqlValue::Boolean(false)), "false");
}

#[test]
fn dollar_quotes_are_kept() {
    let plain = SqlValue::DollarQuotedString { value: "a b".to_string(), tag: None };
    assert_eq!(text_of(plain), "$$a b$$");
    let tagged = SqlValue::DollarQuotedString {
        value: "a b".to_string(),
        tag: Some("t".to_string()),
    };
    assert_eq!(text_of(tagged), "$t$a b$t$");
    let shown = DollarQuotedString { value: "a b".to_string(), tag: Some("t".to_string()) };
    assert_eq!(shown.to_string(), "$t$a b$t$");
}

#[test]
fn other_literals_are_refused_with_their_form() {
    let s = "it's".to_string();
    let cases = vec![
        (LiteralKind::DoubleQuoted, Value::DoubleQuotedString(s.clone())),
        (LiteralKind::Escaped, Value::EscapedStringLiteral(s.clone())),
        (LiteralKind::National, Value::NationalStringLiteral(s.clone())),
        (LiteralKind::SingleQuotedByte, Value::SingleQuotedByteStringLiteral(s.clone())),
        (LiteralKind::DoubleQuotedByte, Value::DoubleQuotedByteStringLiteral(s.clone())),
        (LiteralKind::TripleSingleQuoted, Value::TripleSingleQuotedString(s.clone())),
        (LiteralKind::TripleDoubleQuoted, Value::TripleDoubleQuotedString(s.clone())),
        (
            LiteralKind::TripleSingleQuotedByte,
            Value::TripleSingleQuotedByteStringLiteral(s.clone()),
        ),
        (
            LiteralKind::TripleDoubleQuotedByte,
            Value::TripleDoubleQuotedByteStringLiteral(s.clone()),
        ),
        (LiteralKind::SingleQuotedRaw, Value::SingleQuotedRawStringLiteral(s.clone())),
        (LiteralKind::DoubleQuotedRaw, Value::DoubleQuotedRawStringLiteral(s.clone())),
        (
            LiteralKind::TripleSingleQuotedRaw,
            Value::TripleSingleQuotedRawStringLiteral(s.clone()),
        ),
        (
            LiteralKind::TripleDoubleQuotedRaw,
            Value::TripleDoubleQuotedRawStringLiteral(s.clone()),
        ),
        (LiteralKind::Hex, Value::HexStringLiteral(s.clone())),
        (LiteralKind::Placeholder, Value::Placeholder(s.clone())),
        (LiteralKind::Null, Value::Null),
    ];
    for (kind, value) in cases {
        let message = format!("Expected a string value, found {:?}", value);
        assert_eq!(refusal_of(kind, "it's"), message);
    }
}

#[test]
fn the_form_of_a_refused_literal() {
    assert_eq!(
        refusal_of(LiteralKind::DoubleQuoted, "x"),
        "Expected a string value, found DoubleQuotedString(\"x\")"
    );
    assert_eq!(refusal_of(LiteralKind::Null, ""), "Expected a string value, found Null");
}
