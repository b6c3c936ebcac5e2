//! The members of a JSON object, as far as the flow reads them.

use vstd::prelude::*;
use crate::types::{Error, ErrorView, JsonError};

verus! {

/// The value of one member of a JSON object. Texts and whole numbers are
/// kept; of a list or an object only the kind.
#[derive(Debug, Clone, PartialEq, Eq)]
pub enum Member {
    Null,
    Bool(bool),
    /// A number, with its value where it is a whole number that an `i64` holds.
    Number(Option<i64>),
    Text(String),
    Array,
    Object,
}

/// What a [`Member`] holds, as mathematical values.
pub enum MemberView {
    Null,
    Bool(bool),
    Number(Option<i64>),
    Text(Seq<char>),
    Array,
    Object,
}

impl View for Member {
    type V = MemberView;

    open spec fn view(&self) -> MemberView {
        match self {
            Member::Null => MemberView::Null,
            Member::Bool(value) => MemberView::Bool(*value),
            Member::Number(value) => MemberView::Number(*value),
            Member::Text(text) => MemberView::Text(text@),
            Member::Array => MemberView::Array,
            Member::Object => MemberView::Object,
        }
    }
}

/// The views of the members of an object, in order.
pub open spec fn member_views(members: Seq<(String, Member)>) -> Seq<(Seq<char>, MemberView)> {
    members.map_values(|member: (String, Member)| (member.0@, member.1@))
}

/// The value of the first member with that name, if there is one.
pub open spec fn lookup(members: Seq<(Seq<char>, MemberView)>, name: Seq<char>) -> Option<
    MemberView,
>
    decreases members.len(),
{
    if members.len() == 0 {
        None
    } else if members[0].0 == name {
        Some(members[0].1)
    } else {
        lookup(members.drop_first(), name)
    }
}

/// The members of the JSON object that the bytes are the text of, or `None`
/// where they are not the text of one JSON object.
pub uninterp spec fn json_object(bytes: Seq<u8>) -> Option<Seq<(Seq<char>, MemberView)>>;

/// Calls `serde_json::from_slice` for a `serde_json::Map`, which fails unless
/// the bytes are the text of one JSON object, and hands out the members of
/// the map, each value by its kind; a number goes through
/// `serde_json::Number::as_i64`. Where the call fails the result is `None`.
#[verifier::external_body]
fn read_object(bytes: &[u8]) -> (result: Option<Vec<(String, Member)>>)
    ensures
        match result {
            Some(members) => json_object(bytes@) == Some(member_views(members@)),
            None => json_object(bytes@) is None,
        },
{
    let map: serde_json::Map<String, serde_json::Value> = serde_json::from_slice(bytes).ok()?;
    Some(map.into_iter().map(|(name, value)| (name, match value {
        serde_json::Value::Null => Member::Null,
        serde_json::Value::Bool(flag) => Member::Bool(flag),
        serde_json::Value::Number(number) => Member::Number(number.as_i64()),
        serde_json::Value::String(text) => Member::Text(text),
        serde_json::Value::Array(_) => Member::Array,
        serde_json::Value::Object(_) => Member::Object,
    })).collect())
}

/// Reads the bytes as the text of one JSON object and gives its members.
/// Anything else is a syntax error.
pub fn parse_object(bytes: &[u8]) -> (result: Result<Vec<(String, Member)>, Error>)
    ensures
        match result {
            Ok(members) => json_object(bytes@) == Some(member_views(members@)),
            Err(error) => json_object(bytes@) is None && error@ == ErrorView::JSONError(
                JsonError::Syntax,
            ),
        },
{
    match read_object(bytes) {
        Some(members) => Ok(members),
        None => Err(Error::JSONError(JsonError::Syntax)),
    }
}

/// Finds the first member with that name.
pub fn find<'a>(members: &'a Vec<(String, Member)>, name: &String) -> (found: Option<&'a Member>)
    ensures
        match found {
            Some(member) => lookup(member_views(members@), name@) == Some(member@),
            None => lookup(member_views(members@), name@) is None,
        },
{
    let ghost all = member_views(members@);
    assert(all.skip(0) == all);
    let mut i: usize = 0;
    while i < members.len()
        invariant
            i <= members.len(),
            all == member_views(members@),
            lookup(all, name@) == lookup(all.skip(i as int), name@),
        decreases members.len() - i,
    {
        assert(all.skip(i as int)[0] == all[i as int]);
        assert(all.skip(i as int).drop_first() == all.skip(i + 1));
        if members[i].0 == *name {
            return Some(&members[i].1);
        }
        i += 1;
    }
    None
}

} // verus!
