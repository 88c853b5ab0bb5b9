//! Building and reading the texts that occur in options and messages.
use std::str::FromStr;

use vstd::prelude::*;
use vstd::string::*;

verus! {

/// Whether `s` spells exactly `text`.
pub fn is_text(s: &String, text: &str) -> (same: bool)
    ensures
        same == (s@ == text@),
{
    *s == text.to_owned()
}

/// `head` followed by `tail`.
pub fn concat2(head: &str, tail: &str) -> (whole: String)
    ensures
        whole@ == head@ + tail@,
{
    head.to_owned().concat(tail)
}

/// `middle` between `head` and `tail`.
pub fn concat3(head: &str, middle: &str, tail: &str) -> (whole: String)
    ensures
        whole@ == head@ + middle@ + tail@,
{
    head.to_owned().concat(middle).concat(tail)
}

/// Copies a list of texts.
pub fn copy_texts(texts: &Vec<String>) -> (copies: Vec<String>)
    ensures
        spelled(copies@) == spelled(texts@),
{
    let mut copies: Vec<String> = Vec::new();
    for i in 0..texts.len()
        invariant
            copies@.len() == i,
            forall|j: int| 0 <= j < i ==> (#[trigger] copies@[j])@ == texts@[j]@,
    {
        copies.push(texts[i].clone());
    }
    proof {
        assert(spelled(copies@) =~= spelled(texts@));
    }
    copies
}

/// What a list of texts spells, text by text.
pub open spec fn spelled(texts: Seq<String>) -> Seq<Seq<char>> {
    texts.map_values(|s: String| s@)
}

/// What an optional text spells.
pub open spec fn spelled_option(text: Option<String>) -> Option<Seq<char>> {
    match text {
        Some(s) => Some(s@),
        None => None,
    }
}

/// `items`, each in single quotes, with `", "` between neighbours.
pub open spec fn quoted_list(items: Seq<Seq<char>>) -> Seq<char>
    decreases items.len(),
{
    if items.len() == 0 {
        Seq::empty()
    } else if items.len() == 1 {
        "'"@ + items[0] + "'"@
    } else {
        quoted_list(items.drop_last()) + ", "@ + ("'"@ + items.last() + "'"@)
    }
}

/// Renders `items` as a list of quoted names.
pub fn render_quoted_list(items: &Vec<String>) -> (list: String)
    ensures
        list@ == quoted_list(spelled(items@)),
{
    let mut list = String::new();
    for i in 0..items.len()
        invariant
            list@ == quoted_list(spelled(items@).take(i as int)),
    {
        proof {
            assert(spelled(items@).take(i + 1).drop_last() =~= spelled(items@).take(i as int));
            assert(spelled(items@).take(i + 1).last() == items@[i as int]@);
        }
        let item = concat3("'", items[i].as_str(), "'");
        if i == 0 {
            list = item;
        } else {
            list = list.concat(", ").concat(item.as_str());
        }
    }
    proof {
        assert(spelled(items@).take(items@.len() as int) =~= spelled(items@));
    }
    list
}

/// A decimal digit.
pub open spec fn is_digit(c: char) -> bool {
    '0' <= c <= '9'
}

/// One or more digits and nothing else.
pub open spec fn is_numeral(s: Seq<char>) -> bool {
    s.len() > 0 && forall|i: int| 0 <= i < s.len() ==> is_digit(#[trigger] s[i])
}

/// The number that a run of digits denotes in base ten.
pub open spec fn numeral_value(s: Seq<char>) -> int
    decreases s.len(),
{
    if s.len() == 0 {
        0
    } else {
        numeral_value(s.drop_last()) * 10 + (s.last() as int - '0' as int)
    }
}

/// The number that an optional `+` and a numeral denote.
pub open spec fn unsigned_number(s: Seq<char>) -> Option<int> {
    let digits = if s.len() > 0 && s[0] == '+' { s.skip(1) } else { s };
    if is_numeral(digits) {
        Some(numeral_value(digits))
    } else {
        None
    }
}

/// The number that an optional sign and a numeral denote.
pub open spec fn signed_number(s: Seq<char>) -> Option<int> {
    if s.len() > 0 && s[0] == '-' {
        if is_numeral(s.skip(1)) {
            Some(-numeral_value(s.skip(1)))
        } else {
            None
        }
    } else {
        unsigned_number(s)
    }
}

/// The `i64` that `s` spells, where it spells one.
pub open spec fn number_i64(s: Seq<char>) -> Option<i64> {
    match signed_number(s) {
        Some(n) if i64::MIN <= n <= i64::MAX => Some(n as i64),
        _ => None,
    }
}

/// The `u64` that `s` spells, where it spells one.
pub open spec fn number_u64(s: Seq<char>) -> Option<u64> {
    match unsigned_number(s) {
        Some(n) if n <= u64::MAX => Some(n as u64),
        _ => None,
    }
}

/// `i64::from_str`: the text is an optional sign followed by digits only, and
/// the number has to fit; every other text is an error.
#[verifier::external_body]
pub(crate) fn parse_i64(s: &str) -> (number: Option<i64>)
    ensures
        number == number_i64(s@),
{
    i64::from_str(s).ok()
}

/// `u64::from_str`: the text is an optional `+` followed by digits only, and
/// the number has to fit; every other text is an error.
#[verifier::external_body]
pub(crate) fn parse_u64(s: &str) -> (number: Option<u64>)
    ensures
        number == number_u64(s@),
{
    u64::from_str(s).ok()
}

} // verus!
