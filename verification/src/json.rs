//! JSON documents: the value tree, its reading and editing, and its text form.

use vstd::prelude::*;
use vstd::slice::slice_to_vec;
use vstd::utf8::{decode_utf8, encode_utf8, valid_utf8};

use crate::ordered::{in_order, listing_is_unique, lists, TextMap};
use crate::text::{same_text, text_less};

pub mod laws;

verus! {

/// A JSON document.
///
/// A whole number that fits `u64` is `Uint`, one below zero that fits `i64` is
/// `Int`, and every other number is `Real` with its JSON text. Of two members of
/// an object with one key the later one counts.
#[derive(Debug)]
pub enum Json {
    Null,
    Bool(bool),
    Uint(u64),
    Int(i64),
    Real(String),
    Text(String),
    Array(Vec<Json>),
    Object(Vec<Member>),
}

/// One member of a JSON object.
#[derive(Debug)]
pub struct Member {
    pub key: String,
    pub value: Json,
}

/// The mathematical value of a [`Json`] document.
#[verifier::ext_equal]
pub enum JsonView {
    Null,
    Bool(bool),
    Uint(u64),
    Int(i64),
    Real(Seq<char>),
    Text(Seq<char>),
    Array(Seq<JsonView>),
    Object(Map<Seq<char>, JsonView>),
}

/// The value of a document.
pub open spec fn json_view(j: Json) -> JsonView
    decreases j, (if let Json::Object(ms) = j { ms@.len() + 1 } else { 0 }),
{
    match j {
        Json::Null => JsonView::Null,
        Json::Bool(b) => JsonView::Bool(b),
        Json::Uint(n) => JsonView::Uint(n),
        Json::Int(n) => JsonView::Int(n),
        Json::Real(t) => JsonView::Real(t@),
        Json::Text(t) => JsonView::Text(t@),
        Json::Array(items) => JsonView::Array(
            Seq::new(
                items@.len(),
                |i: int|
                    if 0 <= i < items@.len() {
                        json_view(items@[i])
                    } else {
                        JsonView::Null
                    },
            ),
        ),
        Json::Object(ms) => JsonView::Object(first_members(j, ms@.len())),
    }
}

/// The map that the first `n` members of the object `j` make.
pub open spec fn first_members(j: Json, n: nat) -> Map<Seq<char>, JsonView>
    decreases j, n,
{
    match j {
        Json::Object(ms) => if 0 < n <= ms@.len() {
            first_members(j, (n - 1) as nat).insert(
                ms@[n - 1].key@,
                json_view(ms@[n - 1].value),
            )
        } else {
            Map::empty()
        },
        _ => Map::empty(),
    }
}

impl View for Json {
    type V = JsonView;

    open spec fn view(&self) -> JsonView {
        json_view(*self)
    }
}

/// The values of the documents in `items`.
pub open spec fn item_views(items: Seq<Json>) -> Seq<JsonView> {
    items.map_values(|j: Json| j@)
}

/// The map that the members `ms` make: the later of two with one key counts.
pub open spec fn member_views(ms: Seq<Member>) -> Map<Seq<char>, JsonView>
    decreases ms.len(),
{
    if ms.len() == 0 {
        Map::empty()
    } else {
        member_views(ms.drop_last()).insert(ms.last().key@, ms.last().value@)
    }
}

proof fn first_members_value(j: Json, n: nat)
    requires
        j matches Json::Object(ms) && n <= ms@.len(),
    ensures
        first_members(j, n) == member_views(j->Object_0@.take(n as int)),
    decreases n,
{
    let ms = j->Object_0@;
    if n > 0 {
        first_members_value(j, (n - 1) as nat);
        assert(ms.take(n as int).drop_last() =~= ms.take(n - 1));
    }
}

/// The value of an array is the sequence of its items' values.
pub broadcast proof fn array_value(items: Vec<Json>)
    ensures
        #[trigger] json_view(Json::Array(items)) == JsonView::Array(item_views(items@)),
{
    assert(json_view(Json::Array(items))->Array_0 =~= item_views(items@));
}

/// The value of an object is the map that its members make.
pub broadcast proof fn object_value(ms: Vec<Member>)
    ensures
        #[trigger] json_view(Json::Object(ms)) == JsonView::Object(member_views(ms@)),
{
    first_members_value(Json::Object(ms), ms@.len());
    assert(ms@.take(ms@.len() as int) =~= ms@);
}

// ---------------------------------------------------------------------------
// Reading
// ---------------------------------------------------------------------------

impl JsonView {
    /// The member `key` of an object.
    pub open spec fn get(self, key: Seq<char>) -> Option<JsonView> {
        match self {
            JsonView::Object(m) => if m.contains_key(key) {
                Some(m[key])
            } else {
                None
            },
            _ => None,
        }
    }

    pub open spec fn as_text(self) -> Option<Seq<char>> {
        match self {
            JsonView::Text(t) => Some(t),
            _ => None,
        }
    }

    pub open spec fn as_bool(self) -> Option<bool> {
        match self {
            JsonView::Bool(b) => Some(b),
            _ => None,
        }
    }

    /// The number, where it is whole and fits `u64`.
    pub open spec fn as_u64(self) -> Option<u64> {
        match self {
            JsonView::Uint(n) => Some(n),
            JsonView::Int(n) => if n >= 0 {
                Some(n as u64)
            } else {
                None
            },
            _ => None,
        }
    }

    /// The number, where it is whole and fits `i64`.
    pub open spec fn as_i64(self) -> Option<i64> {
        match self {
            JsonView::Uint(n) => if n <= i64::MAX {
                Some(n as i64)
            } else {
                None
            },
            JsonView::Int(n) => Some(n),
            _ => None,
        }
    }

    pub open spec fn as_array(self) -> Option<Seq<JsonView>> {
        match self {
            JsonView::Array(items) => Some(items),
            _ => None,
        }
    }

    /// The text of the member `key`.
    pub open spec fn text_at(self, key: Seq<char>) -> Option<Seq<char>> {
        match self.get(key) {
            Some(v) => v.as_text(),
            None => None,
        }
    }

    /// The items of the member `key`.
    pub open spec fn array_at(self, key: Seq<char>) -> Option<Seq<JsonView>> {
        match self.get(key) {
            Some(v) => v.as_array(),
            None => None,
        }
    }

    /// The value with the member `key` set: an object gains or replaces it, and
    /// `Null` becomes an object with that member alone.
    pub open spec fn with(self, key: Seq<char>, value: JsonView) -> JsonView {
        match self {
            JsonView::Object(m) => JsonView::Object(m.insert(key, value)),
            _ => JsonView::Object(Map::empty().insert(key, value)),
        }
    }
}

/// Whether an optional string has the characters of an optional sequence.
pub open spec fn same_opt(r: Option<&str>, v: Option<Seq<char>>) -> bool {
    match r {
        Some(t) => v == Some(t@),
        None => v is None,
    }
}

/// Whether an optional string has the characters of an optional sequence.
pub open spec fn same_opt_string(r: Option<String>, v: Option<Seq<char>>) -> bool {
    match r {
        Some(t) => v == Some(t@),
        None => v is None,
    }
}

/// Whether an optional document has the value of an optional view.
pub open spec fn same_opt_json(r: Option<Json>, v: Option<JsonView>) -> bool {
    match r {
        Some(j) => v == Some(j@),
        None => v is None,
    }
}

proof fn member_views_push(ms: Seq<Member>, m: Member)
    ensures
        member_views(ms.push(m)) == member_views(ms).insert(m.key@, m.value@),
{
    assert(ms.push(m).drop_last() =~= ms);
}

proof fn item_views_push(items: Seq<Json>, j: Json)
    ensures
        item_views(items.push(j)) == item_views(items).push(j@),
{
    assert(item_views(items.push(j)) =~= item_views(items).push(j@));
}

impl Json {
    /// The member `key` of an object.
    pub fn get(&self, key: &str) -> (r: Option<&Json>)
        ensures
            match r {
                Some(j) => self@.get(key@) == Some(j@),
                None => self@.get(key@) is None,
            },
    {
        broadcast use object_value;

        match self {
            Json::Object(ms) => {
                let mut i: usize = ms.len();
                assert(ms@.take(i as int) =~= ms@);
                while i > 0
                    invariant
                        i <= ms.len(),
                        *self == Json::Object(*ms),
                        self@ == JsonView::Object(member_views(ms@)),
                        member_views(ms@).contains_key(key@) == member_views(
                            ms@.take(i as int),
                        ).contains_key(key@),
                        member_views(ms@).contains_key(key@) ==> member_views(ms@)[key@]
                            == member_views(ms@.take(i as int))[key@],
                    decreases i,
                {
                    assert(ms@.take(i as int).drop_last() =~= ms@.take(i - 1));
                    i -= 1;
                    if same_text(ms[i].key.as_str(), key) {
                        return Some(&ms[i].value);
                    }
                }
                None
            },
            _ => None,
        }
    }

    pub fn as_text(&self) -> (r: Option<&str>)
        ensures
            same_opt(r, self@.as_text()),
    {
        broadcast use {array_value, object_value};

        match self {
            Json::Text(t) => Some(t.as_str()),
            _ => None,
        }
    }

    pub fn as_bool(&self) -> (r: Option<bool>)
        ensures
            r == self@.as_bool(),
    {
        match self {
            Json::Bool(b) => Some(*b),
            _ => None,
        }
    }

    /// The number, where it is whole and fits `u64`.
    pub fn as_u64(&self) -> (r: Option<u64>)
        ensures
            r == self@.as_u64(),
    {
        match self {
            Json::Uint(n) => Some(*n),
            Json::Int(n) => if *n >= 0 {
                Some(*n as u64)
            } else {
                None
            },
            _ => None,
        }
    }

    /// The number, where it is whole and fits `i64`.
    pub fn as_i64(&self) -> (r: Option<i64>)
        ensures
            r == self@.as_i64(),
    {
        match self {
            Json::Uint(n) => if *n <= i64::MAX as u64 {
                Some(*n as i64)
            } else {
                None
            },
            Json::Int(n) => Some(*n),
            _ => None,
        }
    }

    pub fn as_array(&self) -> (r: Option<&Vec<Json>>)
        ensures
            match r {
                Some(items) => self@.as_array() == Some(item_views(items@)),
                None => self@.as_array() is None,
            },
    {
        broadcast use array_value;

        match self {
            Json::Array(items) => Some(items),
            _ => None,
        }
    }

    pub fn is_object(&self) -> (r: bool)
        ensures
            r == (self@ is Object),
    {
        match self {
            Json::Object(_) => true,
            _ => false,
        }
    }

    pub fn is_null(&self) -> (r: bool)
        ensures
            r == (self@ is Null),
    {
        match self {
            Json::Null => true,
            _ => false,
        }
    }

    /// The text of the member `key`.
    pub fn text_at(&self, key: &str) -> (r: Option<&str>)
        ensures
            same_opt(r, self@.text_at(key@)),
    {
        match self.get(key) {
            Some(v) => v.as_text(),
            None => None,
        }
    }

    /// The items of the member `key`.
    pub fn array_at(&self, key: &str) -> (r: Option<&Vec<Json>>)
        ensures
            match r {
                Some(items) => self@.array_at(key@) == Some(item_views(items@)),
                None => self@.array_at(key@) is None,
            },
    {
        match self.get(key) {
            Some(v) => v.as_array(),
            None => None,
        }
    }

    /// A document of the same value.
    pub fn copy(&self) -> (r: Json)
        ensures
            r@ == self@,
        decreases self,
    {
        broadcast use {array_value, object_value};

        match self {
            Json::Null => Json::Null,
            Json::Bool(b) => Json::Bool(*b),
            Json::Uint(n) => Json::Uint(*n),
            Json::Int(n) => Json::Int(*n),
            Json::Real(t) => Json::Real(t.clone()),
            Json::Text(t) => Json::Text(t.clone()),
            Json::Array(items) => {
                let mut out: Vec<Json> = Vec::new();
                let mut i: usize = 0;
                while i < items.len()
                    invariant
                        i <= items.len(),
                        *self == Json::Array(*items),
                        item_views(out@) == item_views(items@).take(i as int),
                    decreases items.len() - i,
                {
                    let item_ref = &items[i];
                    assert(decreases_to!(*self => self->Array_0));
                    assert(decreases_to!(*items => items@[i as int]));
                    let item = item_ref.copy();
                    proof {
                        item_views_push(out@, item);
                    }
                    out.push(item);
                    i += 1;
                    assert(item_views(items@).take(i as int) =~= item_views(items@).take(
                        i - 1,
                    ).push(item_views(items@)[i - 1]));
                }
                assert(item_views(items@).take(items.len() as int) =~= item_views(items@));
                Json::Array(out)
            },
            Json::Object(ms) => {
                let mut out: Vec<Member> = Vec::new();
                let mut i: usize = 0;
                while i < ms.len()
                    invariant
                        i <= ms.len(),
                        *self == Json::Object(*ms),
                        member_views(out@) == member_views(ms@.take(i as int)),
                    decreases ms.len() - i,
                {
                    assert(decreases_to!(*self => self->Object_0));
                    assert(decreases_to!(*ms => ms@[i as int]));
                    assert(decreases_to!(ms@[i as int] => ms@[i as int].value));
                    let m = Member { key: ms[i].key.clone(), value: ms[i].value.copy() };
                    proof {
                        member_views_push(out@, m);
                        member_views_push(ms@.take(i as int), ms@[i as int]);
                        assert(ms@.take(i + 1) =~= ms@.take(i as int).push(ms@[i as int]));
                    }
                    out.push(m);
                    i += 1;
                }
                assert(ms@.take(ms.len() as int) =~= ms@);
                Json::Object(out)
            },
        }
    }

    /// A text value.
    pub fn text(t: &str) -> (r: Json)
        ensures
            r@ == JsonView::Text(t@),
    {
        Json::Text(t.to_owned())
    }

    /// An array of the given items.
    pub fn array(items: Vec<Json>) -> (r: Json)
        ensures
            r@ == JsonView::Array(item_views(items@)),
    {
        broadcast use array_value;

        Json::Array(items)
    }

    /// Sets the member `key` of an object, or makes an object of `Null`.
    pub fn set(&mut self, key: &str, value: Json)
        requires
            old(self)@ is Object || old(self)@ is Null,
        ensures
            final(self)@ == old(self)@.with(key@, value@),
    {
        broadcast use object_value;

        let m = Member { key: key.to_owned(), value };
        match self {
            Json::Object(ms) => {
                proof {
                    member_views_push(ms@, m);
                }
                ms.push(m);
            },
            _ => {
                let mut ms: Vec<Member> = Vec::new();
                proof {
                    member_views_push(ms@, m);
                }
                ms.push(m);
                *self = Json::Object(ms);
            },
        }
    }
}

/// A whole number as JSON.
pub open spec fn number(n: int) -> JsonView {
    if n >= 0 {
        JsonView::Uint(n as u64)
    } else {
        JsonView::Int(n as i64)
    }
}

/// A whole number as JSON.
pub fn number_json(n: i64) -> (r: Json)
    ensures
        r@ == number(n as int),
{
    if n >= 0 {
        Json::Uint(n as u64)
    } else {
        Json::Int(n)
    }
}

/// The members of an object under construction.
#[derive(Debug)]
pub struct Members {
    pub list: Vec<Member>,
}

impl View for Members {
    type V = Map<Seq<char>, JsonView>;

    open spec fn view(&self) -> Map<Seq<char>, JsonView> {
        member_views(self.list@)
    }
}

/// An object without members, to be filled.
pub fn members() -> (r: Members)
    ensures
        r@ == Map::<Seq<char>, JsonView>::empty(),
{
    Members { list: Vec::new() }
}

impl Members {
    /// The members with `key` set to `value`.
    pub fn put(self, key: &str, value: Json) -> (r: Members)
        ensures
            r@ == self@.insert(key@, value@),
    {
        let mut list = self.list;
        let m = Member { key: key.to_owned(), value };
        proof {
            member_views_push(list@, m);
        }
        list.push(m);
        Members { list }
    }

    /// The members with `key` set to the text `value`.
    pub fn put_text(self, key: &str, value: &str) -> (r: Members)
        ensures
            r@ == self@.insert(key@, JsonView::Text(value@)),
    {
        self.put(key, Json::text(value))
    }

    /// The object with these members.
    pub fn object(self) -> (r: Json)
        ensures
            r@ == JsonView::Object(self@),
    {
        broadcast use object_value;

        Json::Object(self.list)
    }
}

/// The items of an array under construction.
#[derive(Debug)]
pub struct Items {
    pub list: Vec<Json>,
}

impl View for Items {
    type V = Seq<JsonView>;

    open spec fn view(&self) -> Seq<JsonView> {
        item_views(self.list@)
    }
}

/// An array without items, to be filled.
pub fn items() -> (r: Items)
    ensures
        r@ == Seq::<JsonView>::empty(),
{
    let r = Items { list: Vec::new() };
    assert(r@ =~= Seq::<JsonView>::empty());
    r
}

impl Items {
    /// The items followed by `value`.
    pub fn push(self, value: Json) -> (r: Items)
        ensures
            r@ == self@.push(value@),
    {
        let mut list = self.list;
        proof {
            item_views_push(list@, value);
        }
        list.push(value);
        Items { list }
    }

    /// The array of these items.
    pub fn array(self) -> (r: Json)
        ensures
            r@ == JsonView::Array(self@),
    {
        Json::array(self.list)
    }
}

// ---------------------------------------------------------------------------
// Walking an object
// ---------------------------------------------------------------------------

/// The pairs of `s` with the values' views.
pub open spec fn pair_views(s: Seq<(Seq<char>, Json)>) -> Seq<(Seq<char>, JsonView)> {
    s.map_values(|e: (Seq<char>, Json)| (e.0, e.1@))
}

/// The members of an object by key, in the order of their keys.
pub open spec fn sorted_members(v: JsonView) -> Seq<(Seq<char>, JsonView)> {
    match v {
        JsonView::Object(m) => in_order(m),
        _ => Seq::empty(),
    }
}

/// The documents of a map by their values.
pub open spec fn doc_views(m: Map<Seq<char>, Json>) -> Map<Seq<char>, JsonView> {
    m.map_values(|j: Json| j@)
}

/// The listing of documents lists their values, too.
pub proof fn listing_of_views(m: Map<Seq<char>, Json>, v: Map<Seq<char>, JsonView>)
    requires
        lists(in_order(m), m),
        forall|k: Seq<char>| m.contains_key(k) == v.contains_key(k),
        forall|k: Seq<char>| #[trigger] m.contains_key(k) ==> m[k]@ == v[k],
    ensures
        pair_views(in_order(m)) == in_order(v),
        lists(in_order(v), v),
{
    let s = in_order(m);
    let p = pair_views(s);
    assert(lists(p, v)) by {
        assert forall|i: int, j: int| 0 <= i < j < p.len() implies text_less(
            #[trigger] p[i].0,
            #[trigger] p[j].0,
        ) by {
            assert(text_less(s[i].0, s[j].0));
        }
        assert forall|i: int| 0 <= i < p.len() implies v.contains_key(#[trigger] p[i].0) && v[p[i].0]
            == p[i].1 by {
            assert(m.contains_key(s[i].0));
        }
        assert forall|k: Seq<char>| #[trigger] v.contains_key(k) implies exists|i: int|
            0 <= i < p.len() && #[trigger] p[i].0 == k by {
            assert(m.contains_key(k));
            let i = choose|i: int| 0 <= i < s.len() && #[trigger] s[i].0 == k;
            assert(p[i].0 == k);
        }
    }
    listing_is_unique(p, v);
}

impl Json {
    /// The members of an object by key; a document of another kind has none.
    pub fn members(&self) -> (r: TextMap<Json>)
        ensures
            pair_views(in_order(r@)) == sorted_members(self@),
            lists(in_order(r@), r@),
            self@ is Object ==> lists(sorted_members(self@), self@->Object_0),
    {
        broadcast use object_value;

        let mut out: TextMap<Json> = TextMap::new();
        match self {
            Json::Object(ms) => {
                let mut i: usize = 0;
                while i < ms.len()
                    invariant
                        i <= ms.len(),
                        forall|k: Seq<char>|
                            out@.contains_key(k) == member_views(ms@.take(i as int)).contains_key(k),
                        forall|k: Seq<char>| #[trigger]
                            out@.contains_key(k) ==> out@[k]@ == member_views(ms@.take(i as int))[k],
                    decreases ms.len() - i,
                {
                    proof {
                        member_views_push(ms@.take(i as int), ms@[i as int]);
                        assert(ms@.take(i + 1) =~= ms@.take(i as int).push(ms@[i as int]));
                    }
                    out.insert(ms[i].key.clone(), ms[i].value.copy());
                    i += 1;
                }
                assert(ms@.take(ms.len() as int) =~= ms@);
                let _ = out.len();
                proof {
                    listing_of_views(out@, member_views(ms@));
                }
            },
            _ => {
                let _ = out.len();
                assert(in_order(out@) =~= Seq::empty()) by {
                    if in_order(out@).len() > 0 {
                        assert(out@.contains_key(in_order(out@)[0].0));
                    }
                }
                assert(pair_views(in_order(out@)) =~= Seq::empty());
            },
        }
        out
    }
}

// ---------------------------------------------------------------------------
// Text form
// ---------------------------------------------------------------------------

/// A parsed JSON value of `serde_json`.
#[verifier::external_type_specification]
#[verifier::external_body]
pub struct ExternalValue(serde_json::Value);

/// What `serde_json` reads from a text: a document, or the message of the error with
/// which it refuses a text that is not JSON.
pub uninterp spec fn reading(text: Seq<char>) -> Result<JsonView, Seq<char>>;

/// The document that `serde_json` reads from a text, if the text is JSON.
pub open spec fn parsed(text: Seq<char>) -> Option<JsonView> {
    match reading(text) {
        Ok(v) => Some(v),
        Err(_) => None,
    }
}

/// The document that `serde_json` reads from bytes, if the bytes are JSON.
pub uninterp spec fn parsed_bytes(bytes: Seq<u8>) -> Option<JsonView>;

/// The compact text that `serde_json` writes for a document.
pub uninterp spec fn printed(value: JsonView) -> Seq<char>;

/// Changes a `serde_json::Value` into a [`Json`], variant by variant. Nothing is
/// claimed of it: the functions that read JSON name what they return.
#[verifier::external_body]
fn from_value(value: serde_json::Value) -> (r: Json) {
    match value {
        serde_json::Value::Null => Json::Null,
        serde_json::Value::Bool(b) => Json::Bool(b),
        serde_json::Value::Number(n) => match (n.as_u64(), n.as_i64()) {
            (Some(u), _) => Json::Uint(u),
            (None, Some(i)) => Json::Int(i),
            (None, None) => Json::Real(n.to_string()),
        },
        serde_json::Value::String(t) => Json::Text(t),
        serde_json::Value::Array(a) => Json::Array(a.into_iter().map(from_value).collect()),
        serde_json::Value::Object(o) => Json::Object(
            o.into_iter().map(|(key, v)| Member { key, value: from_value(v) }).collect(),
        ),
    }
}

/// Changes a [`Json`] into a `serde_json::Value`, variant by variant. Nothing is
/// claimed of it: the function that writes JSON names what it returns.
#[verifier::external_body]
fn to_value(j: &Json) -> (r: serde_json::Value) {
    match j {
        Json::Null => serde_json::Value::Null,
        Json::Bool(b) => serde_json::Value::Bool(*b),
        Json::Uint(n) => serde_json::Value::from(*n),
        Json::Int(n) => serde_json::Value::from(*n),
        Json::Real(t) => serde_json::from_str(t).unwrap_or(serde_json::Value::Null),
        Json::Text(t) => serde_json::Value::String(t.clone()),
        Json::Array(items) => serde_json::Value::Array(items.iter().map(to_value).collect()),
        Json::Object(ms) => serde_json::Value::Object(
            ms.iter().map(|m| (m.key.clone(), to_value(&m.value))).collect(),
        ),
    }
}

/// Whether a document of at most `depth` nested levels holds no number but whole
/// ones in their one form.
pub open spec fn plain(value: JsonView, depth: nat) -> bool
    decreases depth,
{
    match value {
        JsonView::Int(n) => n < 0,
        JsonView::Real(_) => false,
        JsonView::Array(items) => depth > 0 && forall|i: int|
            0 <= i < items.len() ==> plain(#[trigger] items[i], (depth - 1) as nat),
        JsonView::Object(m) => depth > 0 && forall|k: Seq<char>|
            m.contains_key(k) ==> plain(#[trigger] m[k], (depth - 1) as nat),
        _ => true,
    }
}

/// `serde_json::from_str`: the document that a text holds, or the message of the
/// error where the text is not JSON; both are functions of the text alone.
#[verifier::external_body]
pub(crate) fn parse(text: &str) -> (r: Result<Json, String>)
    ensures
        match r {
            Ok(j) => reading(text@) == Ok::<JsonView, Seq<char>>(j@),
            Err(e) => reading(text@) == Err::<JsonView, Seq<char>>(e@),
        },
{
    serde_json::from_str::<serde_json::Value>(text).map(from_value).map_err(|e| e.to_string())
}

/// `serde_json::from_slice`: the document that bytes hold, which is a function of
/// the bytes alone, and `None` where the bytes are not JSON. Where the bytes are
/// UTF-8, it is what `serde_json::from_str` reads from their text.
#[verifier::external_body]
pub(crate) fn parse_bytes(bytes: &[u8]) -> (r: Option<Json>)
    ensures
        same_opt_json(r, parsed_bytes(bytes@)),
        valid_utf8(bytes@) ==> same_opt_json(r, parsed(decode_utf8(bytes@))),
{
    serde_json::from_slice::<serde_json::Value>(bytes).ok().map(from_value)
}

/// The `Display` form of `serde_json::Value`: the compact text of a document,
/// which is a function of its value alone. Reading it back gives the document
/// again, within the reader's limit of 127 nested levels and for whole numbers;
/// of other numbers nothing is claimed.
#[verifier::external_body]
pub(crate) fn print(j: &Json) -> (r: String)
    ensures
        r@ == printed(j@),
        plain(j@, 127) ==> parsed(r@) == Some(j@),
{
    to_value(j).to_string()
}

impl Json {
    /// The document that a text holds, `None` where the text is not JSON.
    pub fn from_text(text: &str) -> (r: Option<Json>)
        ensures
            same_opt_json(r, parsed(text@)),
    {
        match parse(text) {
            Ok(j) => Some(j),
            Err(_) => None,
        }
    }

    /// The document that bytes hold, `None` where the bytes are not JSON.
    pub fn from_bytes(bytes: &[u8]) -> (r: Option<Json>)
        ensures
            same_opt_json(r, parsed_bytes(bytes@)),
            valid_utf8(bytes@) ==> same_opt_json(r, parsed(decode_utf8(bytes@))),
    {
        parse_bytes(bytes)
    }

    /// The compact text of the document.
    pub fn to_text(&self) -> (r: String)
        ensures
            r@ == printed(self@),
            plain(self@, 127) ==> parsed(r@) == Some(self@),
    {
        print(self)
    }

    /// The bytes of the compact text of the document.
    pub fn to_bytes(&self) -> (r: Vec<u8>)
        ensures
            r@ == encode_utf8(printed(self@)),
    {
        slice_to_vec(print(self).as_str().as_bytes())
    }
}

} // verus!
