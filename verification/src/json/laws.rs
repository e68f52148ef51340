//! How values are read and put together.

use vstd::prelude::*;

use crate::json::{number, JsonView};

verus! {

/// A member that is set is read back, and every other member stays.
pub proof fn members_are_read_back(v: JsonView, key: Seq<char>, value: JsonView, other: Seq<char>)
    ensures
        v.with(key, value).get(key) == Some(value),
        v is Object && other != key ==> v.with(key, value).get(other) == v.get(other),
        !(v is Object) && other != key ==> v.with(key, value).get(other) is None,
        !(v is Object) ==> v.get(key) is None,
{
}

/// A text and a list are read where they stand, and nothing is read in their place.
pub proof fn members_have_their_kind(v: JsonView, key: Seq<char>, text: Seq<char>, items: Seq<JsonView>)
    ensures
        v.text_at(key) == Some(text) <==> v.get(key) == Some(JsonView::Text(text)),
        v.array_at(key) == Some(items) <==> v.get(key) == Some(JsonView::Array(items)),
        JsonView::Bool(true).as_bool() == Some(true) && JsonView::Bool(false).as_bool() == Some(false),
        JsonView::Text(text).as_bool() is None,
{
}

/// A whole number is read as itself wherever it fits, and is written so that it is read back.
pub proof fn numbers_are_read_as_themselves(n: u64, i: i64)
    ensures
        JsonView::Uint(n).as_u64() == Some(n),
        n <= i64::MAX ==> JsonView::Uint(n).as_i64() is Some && JsonView::Uint(n).as_i64()->0 == n,
        n > i64::MAX ==> JsonView::Uint(n).as_i64() is None,
        JsonView::Int(i).as_i64() == Some(i),
        i >= 0 ==> JsonView::Int(i).as_u64() is Some && JsonView::Int(i).as_u64()->0 == i,
        i < 0 ==> JsonView::Int(i).as_u64() is None,
        number(i as int).as_i64() == Some(i),
        number(n as int).as_u64() == Some(n),
{
}

} // verus!
