//! JSON text, read and written with `serde_json`.
//!
//! The protocol code never looks inside JSON syntax itself. It asks
//! `serde_json` to split an array into its elements and an object into
//! its members, each kept as JSON text of its own, and to read a single
//! string or integer. What `serde_json` answers is named here by
//! uninterpreted functions of the input text; the protocol's own rules
//! are stated over those names.

use vstd::prelude::*;

verus! {

/// `serde_json::Error`: why `serde_json` refused a text. It is carried
/// as it is; only its message is read, by [`error_text`].
#[verifier::external_type_specification]
#[verifier::external_body]
pub struct ExJsonError(serde_json::Error);

/// The elements of the JSON array written in `bytes`, each as the JSON
/// text of that element, in order; `None` where `bytes` is not one JSON
/// array.
pub uninterp spec fn json_elements(bytes: Seq<u8>) -> Option<Seq<Seq<char>>>;

/// The members of the JSON object written in `text`: each key with the
/// JSON text of its value, in the order of the keys; `None` where
/// `text` is not one JSON object. A key that the object writes more
/// than once stands here once, with the value written last.
pub uninterp spec fn json_members(text: Seq<char>) -> Option<Seq<(Seq<char>, Seq<char>)>>;

/// The string that the JSON text `text` denotes; `None` where `text` is
/// not one JSON string.
pub uninterp spec fn json_string(text: Seq<char>) -> Option<Seq<char>>;

/// The integer that the JSON text `text` denotes; `None` where `text`
/// is not one JSON number that `serde_json` reads as a `u64`.
pub uninterp spec fn json_u64(text: Seq<char>) -> Option<u64>;

/// `num_decimal::Num`: a decimal number of any size. Prices are
/// carried in it as they are; nothing here computes with them.
#[verifier::external_type_specification]
#[verifier::external_body]
pub struct ExDecimal(num_decimal::Num);

/// `Num::clone` gives the same number.
pub assume_specification[ <num_decimal::Num as Clone>::clone ](number: &num_decimal::Num) -> (copy:
    num_decimal::Num)
    ensures
        copy == *number,
;

/// The decimal number that the JSON text `text` denotes; `None` where
/// `num_decimal` does not read `text` as a `Num`.
pub uninterp spec fn json_decimal(text: Seq<char>) -> Option<num_decimal::Num>;

/// The JSON string literal, quotes included, that denotes `text`.
pub uninterp spec fn json_quoted(text: Seq<char>) -> Seq<char>;

/// Whether `serde_json` writes the character by an escape sequence: a
/// control character below the space, the quote and the backslash.
pub open spec fn is_escaped(c: char) -> bool {
    (c as u32) < 0x20 || c == '"' || c == '\\'
}

/// Whether no character of `text` is written by an escape sequence.
pub open spec fn is_plain(text: Seq<char>) -> bool {
    forall|i: int| 0 <= i < text.len() ==> !is_escaped(#[trigger] text[i])
}

/// The JSON string literal that denotes `text`: `text` itself between
/// two quotes where none of its characters needs an escape, and what
/// `serde_json` writes otherwise.
pub open spec fn spec_quoted(text: Seq<char>) -> Seq<char> {
    if is_plain(text) {
        "\""@ + text + "\""@
    } else {
        json_quoted(text)
    }
}

/// Whether no two members have the same key.
pub open spec fn distinct_keys(members: Seq<(Seq<char>, Seq<char>)>) -> bool {
    forall|i: int, j: int|
        0 <= i < j < members.len() ==> (#[trigger] members[i]).0 != (#[trigger] members[j]).0
}

/// The characters of each string of `items`.
pub open spec fn texts(items: Seq<String>) -> Seq<Seq<char>> {
    Seq::new(items.len(), |i: int| items[i]@)
}

/// The characters of each key and value of `members`.
pub open spec fn pairs(members: Seq<(String, String)>) -> Seq<(Seq<char>, Seq<char>)> {
    Seq::new(members.len(), |i: int| (members[i].0@, members[i].1@))
}

/// Calls `serde_json::from_slice` for a `Vec` of `&RawValue` and copies
/// out the text of each element (`RawValue::get`). The result is taken
/// to be a function of `bytes` alone; nothing is claimed about when it
/// is `Ok`.
#[verifier::external_body]
pub(crate) fn array_elements(bytes: &[u8]) -> (r: Result<Vec<String>, serde_json::Error>)
    ensures
        r matches Ok(items) ==> json_elements(bytes@) == Some(texts(items@)),
        r is Err ==> json_elements(bytes@) is None,
{
    serde_json::from_slice::<Vec<&serde_json::value::RawValue>>(bytes)
        .map(|items| items.into_iter().map(|item| item.get().to_owned()).collect())
}

/// Calls `serde_json::from_str` for a `BTreeMap` from `String` to
/// `&RawValue` and copies out each key with the text of its value, in
/// the map's order. A map holds each key once: where the object writes
/// a key again, the later value takes the place of the earlier. The
/// result is taken to be a function of `text` alone; nothing is
/// claimed about when it is `Ok`.
#[verifier::external_body]
pub(crate) fn object_members(text: &str) -> (r: Result<Vec<(String, String)>, serde_json::Error>)
    ensures
        r matches Ok(members) ==> json_members(text@) == Some(pairs(members@)),
        r matches Ok(members) ==> distinct_keys(pairs(members@)),
        r is Err ==> json_members(text@) is None,
{
    serde_json::from_str::<std::collections::BTreeMap<String, &serde_json::value::RawValue>>(text)
        .map(|members| members.into_iter().map(|(key, value)| (key, value.get().to_owned())).collect())
}

/// Calls `serde_json::from_str` for a `String`. The result is taken to
/// be a function of `text` alone; nothing is claimed about when it is
/// `Ok`.
#[verifier::external_body]
pub(crate) fn string_value(text: &str) -> (r: Result<String, serde_json::Error>)
    ensures
        r matches Ok(value) ==> json_string(text@) == Some(value@),
        r is Err ==> json_string(text@) is None,
{
    serde_json::from_str::<String>(text)
}

/// Calls `serde_json::from_str` for a `u64`. The result is taken to be
/// a function of `text` alone; nothing is claimed about when it is `Ok`.
#[verifier::external_body]
pub(crate) fn u64_value(text: &str) -> (r: Result<u64, serde_json::Error>)
    ensures
        r matches Ok(value) ==> json_u64(text@) == Some(value),
        r is Err ==> json_u64(text@) is None,
{
    serde_json::from_str::<u64>(text)
}

/// Calls `serde_json::from_str` for a `num_decimal::Num`, whose
/// `Deserialize` impl takes an integer, a float or a string holding
/// either. The result is taken to be a function of `text` alone;
/// nothing is claimed about when it is `Ok`.
#[verifier::external_body]
pub(crate) fn decimal_value(text: &str) -> (r: Result<num_decimal::Num, serde_json::Error>)
    ensures
        r matches Ok(value) ==> json_decimal(text@) == Some(value),
        r is Err ==> json_decimal(text@) is None,
{
    serde_json::from_str::<num_decimal::Num>(text)
}

/// Writes `text` as a JSON string: `serde_json::Value::from` makes the
/// string value and its `Display` impl prints it in compact form,
/// between two quotes. Only control characters below the space, the
/// quote and the backslash are written by escape sequences; a text
/// without them is written as it is. The result is taken to be a
/// function of `text` alone.
#[verifier::external_body]
pub(crate) fn quoted(text: &str) -> (literal: String)
    ensures
        literal@ == json_quoted(text@),
        is_plain(text@) ==> literal@ == "\""@ + text@ + "\""@,
{
    serde_json::Value::from(text).to_string()
}

/// The message of a `serde_json::Error`: what went wrong and, where
/// the error has one, the line and column of the place.
pub uninterp spec fn json_error_message(error: serde_json::Error) -> Seq<char>;

/// The message of a `serde_json::Error`, as its `Display` impl prints
/// it. The impl reads nothing but the error, so the result is taken to
/// be a function of the error alone.
#[verifier::external_body]
pub(crate) fn error_text(error: &serde_json::Error) -> (text: String)
    ensures
        text@ == json_error_message(*error),
{
    error.to_string()
}

/// The value text of the first member of `members` whose key is `key`.
pub open spec fn spec_member(members: Seq<(Seq<char>, Seq<char>)>, key: Seq<char>) -> Option<Seq<char>>
    decreases members.len(),
{
    if members.len() == 0 {
        None
    } else if members[0].0 == key {
        Some(members[0].1)
    } else {
        spec_member(members.drop_first(), key)
    }
}

/// A member that stands at index `i`, with no earlier member of the
/// same key, is the one that `spec_member` finds.
pub proof fn lemma_member_at(members: Seq<(Seq<char>, Seq<char>)>, key: Seq<char>, i: int)
    requires
        0 <= i < members.len(),
        members[i].0 == key,
        forall|k: int| 0 <= k < i ==> members[k].0 != key,
    ensures
        spec_member(members, key) == Some(members[i].1),
    decreases i,
{
    if i > 0 {
        let rest = members.drop_first();
        assert forall|k: int| 0 <= k < i - 1 implies rest[k].0 != key by {
            assert(rest[k] == members[k + 1]);
        }
        lemma_member_at(rest, key, i - 1);
    }
}

/// Among members of distinct keys, a member of the key is the one that
/// `spec_member` finds, wherever it stands: no other has the key.
pub proof fn lemma_member_is_the_only_one(
    members: Seq<(Seq<char>, Seq<char>)>,
    key: Seq<char>,
    i: int,
)
    requires
        distinct_keys(members),
        0 <= i < members.len(),
        members[i].0 == key,
    ensures
        spec_member(members, key) == Some(members[i].1),
{
    assert forall|k: int| 0 <= k < i implies members[k].0 != key by {
        assert(members[k].0 != members[i].0);
    }
    lemma_member_at(members, key, i);
}

/// Where no member has the key, `spec_member` finds none.
pub proof fn lemma_member_absent(members: Seq<(Seq<char>, Seq<char>)>, key: Seq<char>)
    requires
        forall|k: int| 0 <= k < members.len() ==> members[k].0 != key,
    ensures
        spec_member(members, key) is None,
    decreases members.len(),
{
    if members.len() > 0 {
        let rest = members.drop_first();
        assert forall|k: int| 0 <= k < rest.len() implies rest[k].0 != key by {
            assert(rest[k] == members[k + 1]);
        }
        lemma_member_absent(rest, key);
    }
}

/// Looks a key up among the members of an object: the value text of the
/// first member with that key.
pub fn member<'a>(members: &'a Vec<(String, String)>, key: &str) -> (found: Option<&'a String>)
    ensures
        match found {
            Some(value) => spec_member(pairs(members@), key@) == Some(value@),
            None => spec_member(pairs(members@), key@) is None,
        },
{
    let mut i: usize = 0;
    while i < members.len()
        invariant
            i <= members@.len(),
            forall|k: int| 0 <= k < i ==> pairs(members@)[k].0 != key@,
        decreases members@.len() - i,
    {
        if crate::text::text_eq(members[i].0.as_str(), key) {
            proof {
                lemma_member_at(pairs(members@), key@, i as int);
            }
            return Some(&members[i].1);
        }
        i += 1;
    }
    proof {
        lemma_member_absent(pairs(members@), key@);
    }
    None
}

} // verus!
