//! JSON documents, held by `serde_json`.

use vstd::prelude::*;

verus! {

/// What a JSON value holds.
pub enum Json {
    Null,
    Bool(bool),
    /// A number without fraction or exponent that fits 64 bits.
    Int(int),
    /// Any other number, by the 64 bits that hold it.
    Real(u64),
    Text(Seq<char>),
    List(Seq<Json>),
    Object(Map<Seq<char>, Json>),
}

impl Json {
    /// What stands under `key`, where this is an object that has it.
    pub open spec fn get(self, key: Seq<char>) -> Option<Json> {
        match self {
            Json::Object(fields) => if fields.contains_key(key) {
                Some(fields[key])
            } else {
                None
            },
            _ => None,
        }
    }

    /// What stands under `key`, and below it under `second`.
    pub open spec fn get_two(self, key: Seq<char>, second: Seq<char>) -> Option<Json> {
        match self.get(key) {
            Some(inner) => inner.get(second),
            None => None,
        }
    }

    /// The text, where this is one.
    pub open spec fn as_text(self) -> Option<Seq<char>> {
        match self {
            Json::Text(text) => Some(text),
            _ => None,
        }
    }

    /// The number, where this is one that is whole, not negative and fits 64 bits.
    pub open spec fn as_number(self) -> Option<u64> {
        match self {
            Json::Int(n) => if 0 <= n <= u64::MAX {
                Some(n as u64)
            } else {
                None
            },
            _ => None,
        }
    }

    /// The items, where this is a list.
    pub open spec fn as_list(self) -> Option<Seq<Json>> {
        match self {
            Json::List(items) => Some(items),
            _ => None,
        }
    }

    /// Whether members can be set: this is an object, or null, which becomes one.
    pub open spec fn settable(self) -> bool {
        self is Object || self is Null
    }

    /// The members of an object; nothing else has any.
    pub open spec fn fields(self) -> Map<Seq<char>, Json> {
        match self {
            Json::Object(fields) => fields,
            _ => Map::empty(),
        }
    }

    /// The object with `item` under `key`.
    pub open spec fn with(self, key: Seq<char>, item: Json) -> Json {
        Json::Object(self.fields().insert(key, item))
    }

    /// What stands under `key`, or null.
    pub open spec fn get_or_null(self, key: Seq<char>) -> Json {
        match self.get(key) {
            Some(item) => item,
            None => Json::Null,
        }
    }

    /// Whether lists and objects are nested at most `depth` deep, and all numbers are whole where
    /// that is asked for.
    pub open spec fn fits(self, depth: nat, whole: bool) -> bool
        decreases depth,
    {
        match self {
            Json::Real(_) => !whole,
            Json::List(items) => depth > 0 && forall|i: int|
                0 <= i < items.len() ==> (#[trigger] items[i]).fits((depth - 1) as nat, whole),
            Json::Object(fields) => depth > 0 && forall|key: Seq<char>| #[trigger]
                fields.contains_key(key) ==> fields[key].fits((depth - 1) as nat, whole),
            _ => true,
        }
    }

    /// Whether two documents that are nested at most `depth` deep are the same, but for the
    /// values of numbers that are not whole.
    pub open spec fn agrees(self, other: Json, depth: nat) -> bool
        decreases depth,
    {
        match (self, other) {
            (Json::Real(_), Json::Real(_)) => true,
            (Json::List(items), Json::List(others)) => {
                &&& depth > 0
                &&& items.len() == others.len()
                &&& forall|i: int|
                    0 <= i < items.len() ==> (#[trigger] items[i]).agrees(
                        others[i],
                        (depth - 1) as nat,
                    )
            },
            (Json::Object(fields), Json::Object(others)) => {
                &&& depth > 0
                &&& fields.dom() == others.dom()
                &&& forall|key: Seq<char>| #[trigger]
                    fields.contains_key(key) ==> fields[key].agrees(
                        others[key],
                        (depth - 1) as nat,
                    )
            },
            _ => self == other,
        }
    }
}

/// How deep lists and objects may be nested in a text that is read.
pub open spec fn depth_limit() -> nat {
    127
}

/// The JSON value type of `serde_json`.
#[verifier::external_type_specification]
#[verifier::external_body]
pub struct ExValue(serde_json::Value);

/// What a `serde_json::Value` holds.
pub uninterp spec fn content(value: serde_json::Value) -> Json;

/// What `serde_json::from_str` reads from a text: the document, or the text of the error.
pub uninterp spec fn json_of_text(text: Seq<char>) -> Result<Json, Seq<char>>;

/// Whether a text is read as `document`.
pub open spec fn reads_as(text: Seq<char>, document: Json) -> bool {
    json_of_text(text) matches Ok(found) && found == document
}

/// Whether a text is read as `document`, but for the values of numbers that are not whole.
pub open spec fn reads_like(text: Seq<char>, document: Json) -> bool {
    json_of_text(text) matches Ok(found) && found.agrees(document, depth_limit())
}

/// What `serde_json::to_string` writes.
pub uninterp spec fn json_compact(document: Json) -> Seq<char>;

/// What `serde_json::to_string_pretty` writes.
pub uninterp spec fn json_pretty(document: Json) -> Seq<char>;

/// What each of a sequence of values holds.
pub open spec fn contents(values: Seq<serde_json::Value>) -> Seq<Json> {
    Seq::new(values.len(), |i: int| content(values[i]))
}

/// `serde_json::from_str` into a `serde_json::Value`: reads a JSON document. The document, or
/// the text of the error, is given the name `json_of_text`. A document that is nested deeper than
/// the reader's limit is refused.
#[verifier::external_body]
pub(crate) fn parse_json(text: &str) -> (r: Result<serde_json::Value, String>)
    ensures
        match r {
            Ok(value) => json_of_text(text@) == Ok::<_, Seq<char>>(content(value)) && content(
                value,
            ).fits(depth_limit(), false),
            Err(e) => json_of_text(text@) == Err::<Json, _>(e@),
        },
{
    serde_json::from_str::<serde_json::Value>(text).map_err(|e| e.to_string())
}

/// `serde_json::to_string` of a `serde_json::Value`, which is also how the value is displayed:
/// writes a JSON document without spaces. It does not fail on a value. Reading the text gives
/// the document back, where its nesting is within the reader's limit. A number that is not whole
/// is read as such a number; that it has the same value is not said, since the reader rounds.
#[verifier::external_body]
pub(crate) fn compact_text(value: &serde_json::Value) -> (r: String)
    ensures
        r@ == json_compact(content(*value)),
        content(*value).fits(depth_limit(), false) ==> reads_like(r@, content(*value)),
{
    serde_json::to_string(value).expect("a JSON value has text keys only")
}

/// `serde_json::to_string_pretty` of a `serde_json::Value`: writes a JSON document with one
/// member to a line. It does not fail on a value. Reading the text gives the document back,
/// where its nesting is within the reader's limit. A number that is not whole is read as such a
/// number; that it has the same value is not said, since the reader rounds.
#[verifier::external_body]
pub(crate) fn pretty_text(value: &serde_json::Value) -> (r: String)
    ensures
        r@ == json_pretty(content(*value)),
        content(*value).fits(depth_limit(), false) ==> reads_like(r@, content(*value)),
{
    serde_json::to_string_pretty(value).expect("a JSON value has text keys only")
}

/// `serde_json::Value::get` with a text: what an object holds under `key`; nothing, where the
/// value is no object or has no such member.
#[verifier::external_body]
pub(crate) fn member<'a>(value: &'a serde_json::Value, key: &str) -> (r: Option<
    &'a serde_json::Value,
>)
    ensures
        match r {
            Some(item) => content(*value).get(key@) == Some(content(*item)),
            None => content(*value).get(key@) is None,
        },
{
    value.get(key)
}

/// `serde_json::Value` indexed mutably by a text: the place of `key` in an object, which holds
/// null where the object had no such member. Null is made an object; any other value is
/// refused with a panic, which the precondition rules out.
#[verifier::external_body]
pub(crate) fn member_mut<'a>(value: &'a mut serde_json::Value, key: &str) -> (r:
    &'a mut serde_json::Value)
    requires
        content(*old(value)).settable(),
    ensures
        content(*r) == content(*old(value)).get_or_null(key@),
        content(*final(value)) == content(*old(value)).with(key@, content(*final(r))),
{
    &mut value[key]
}

/// `serde_json::Value::as_str`: the text, where the value is one.
#[verifier::external_body]
pub(crate) fn text_in(value: &serde_json::Value) -> (r: Option<String>)
    ensures
        match r {
            Some(text) => content(*value).as_text() == Some(text@),
            None => content(*value).as_text() is None,
        },
{
    value.as_str().map(String::from)
}

/// `serde_json::Value::as_u64`: the number, where the value is a whole one that is not negative
/// and fits 64 bits.
#[verifier::external_body]
pub(crate) fn number_in(value: &serde_json::Value) -> (r: Option<u64>)
    ensures
        r == content(*value).as_number(),
{
    value.as_u64()
}

/// `serde_json::Value::as_array`: the items, where the value is a list.
#[verifier::external_body]
pub(crate) fn list_in<'a>(value: &'a serde_json::Value) -> (r: Option<&'a Vec<serde_json::Value>>)
    ensures
        match r {
            Some(items) => content(*value).as_list() == Some(contents(items@)),
            None => content(*value).as_list() is None,
        },
{
    value.as_array()
}

/// `serde_json::Value::is_object`: whether the value is an object.
#[verifier::external_body]
pub(crate) fn is_object(value: &serde_json::Value) -> (r: bool)
    ensures
        r == (content(*value) is Object),
{
    value.is_object()
}

/// `serde_json::Value::is_null`: whether the value is null.
#[verifier::external_body]
pub(crate) fn is_null(value: &serde_json::Value) -> (r: bool)
    ensures
        r == (content(*value) is Null),
{
    value.is_null()
}

/// `serde_json::Value::Object` of an empty `serde_json::Map`: the object without members.
#[verifier::external_body]
pub(crate) fn json_object() -> (r: serde_json::Value)
    ensures
        content(r) == Json::Object(Map::empty()),
{
    serde_json::Value::Object(serde_json::Map::new())
}

/// `serde_json::Value::Null`.
#[verifier::external_body]
pub(crate) fn json_null() -> (r: serde_json::Value)
    ensures
        content(r) == Json::Null,
{
    serde_json::Value::Null
}

/// `serde_json::Value::from` a text.
#[verifier::external_body]
pub(crate) fn json_text(text: &str) -> (r: serde_json::Value)
    ensures
        content(r) == Json::Text(text@),
{
    serde_json::Value::from(text)
}

/// `serde_json::Value::from` a number.
#[verifier::external_body]
pub(crate) fn json_number(n: u64) -> (r: serde_json::Value)
    ensures
        content(r) == Json::Int(n as int),
{
    serde_json::Value::from(n)
}

/// `serde_json::Value::from` a vector of values.
#[verifier::external_body]
pub(crate) fn json_list(items: Vec<serde_json::Value>) -> (r: serde_json::Value)
    ensures
        content(r) == Json::List(contents(items@)),
{
    serde_json::Value::from(items)
}

/// A document whose numbers are whole agrees with no other.
proof fn lemma_whole_agrees(found: Json, document: Json, depth: nat)
    requires
        document.fits(depth, true),
        found.agrees(document, depth),
    ensures
        found == document,
    decreases depth,
{
    match (found, document) {
        (Json::List(items), Json::List(others)) => {
            assert forall|i: int| 0 <= i < items.len() implies items[i] == others[i] by {
                assert(items[i].agrees(others[i], (depth - 1) as nat));
                lemma_whole_agrees(items[i], others[i], (depth - 1) as nat);
            }
            assert(items =~= others);
        },
        (Json::Object(fields), Json::Object(others)) => {
            assert forall|key: Seq<char>| fields.contains_key(key) implies fields[key]
                == others[key] by {
                assert(others.contains_key(key));
                lemma_whole_agrees(fields[key], others[key], (depth - 1) as nat);
            }
            assert(fields =~= others);
        },
        _ => {},
    }
}

/// A document with whole numbers alone also fits where any number is admitted.
pub(crate) proof fn lemma_fits_any(document: Json, depth: nat)
    requires
        document.fits(depth, true),
    ensures
        document.fits(depth, false),
    decreases depth,
{
    match document {
        Json::List(items) => {
            assert forall|i: int| 0 <= i < items.len() implies (#[trigger] items[i]).fits(
                (depth - 1) as nat,
                false,
            ) by {
                lemma_fits_any(items[i], (depth - 1) as nat);
            }
        },
        Json::Object(fields) => {
            assert forall|key: Seq<char>| #[trigger] fields.contains_key(key) implies fields[key].fits(
                (depth - 1) as nat,
                false,
            ) by {
                lemma_fits_any(fields[key], (depth - 1) as nat);
            }
        },
        _ => {},
    }
}

/// A text that was written of a document with whole numbers alone is read as that document.
pub proof fn law_whole_read_back(text: Seq<char>, document: Json)
    requires
        reads_like(text, document),
        document.fits(depth_limit(), true),
    ensures
        reads_as(text, document),
{
    lemma_whole_agrees(json_of_text(text)->Ok_0, document, depth_limit());
}

/// Whether members of the value can be set.
pub(crate) fn can_set(value: &serde_json::Value) -> (r: bool)
    ensures
        r == content(*value).settable(),
{
    is_object(value) || is_null(value)
}

/// Whether members of what stands under `key` can be set.
pub(crate) fn can_set_below(value: &serde_json::Value, key: &str) -> (r: bool)
    ensures
        r == (content(*value).settable() && content(*value).get_or_null(key@).settable()),
{
    can_set(value) && match member(value, key) {
        Some(item) => can_set(item),
        None => true,
    }
}

/// Sets a member of an object.
pub(crate) fn put(value: &mut serde_json::Value, key: &str, item: serde_json::Value)
    requires
        content(*old(value)).settable(),
    ensures
        content(*final(value)) == content(*old(value)).with(key@, content(item)),
{
    *member_mut(value, key) = item;
}

/// Sets a member of an object that is itself a member.
pub(crate) fn put_below(value: &mut serde_json::Value, key: &str, below: &str, item: serde_json::Value)
    requires
        content(*old(value)).settable(),
        content(*old(value)).get_or_null(key@).settable(),
    ensures
        content(*final(value)) == content(*old(value)).with(
            key@,
            content(*old(value)).get_or_null(key@).with(below@, content(item)),
        ),
{
    *member_mut(member_mut(value, key), below) = item;
}

/// The list of some bytes as numbers.
pub open spec fn byte_list(bytes: Seq<u8>) -> Json {
    Json::List(Seq::new(bytes.len(), |i: int| Json::Int(bytes[i] as int)))
}

/// The list of some texts.
pub open spec fn text_list(items: Seq<Seq<char>>) -> Json {
    Json::List(Seq::new(items.len(), |i: int| Json::Text(items[i])))
}

/// The list of some bytes as numbers.
pub(crate) fn json_bytes(bytes: &[u8]) -> (r: serde_json::Value)
    ensures
        content(r) == byte_list(bytes@),
{
    let mut items: Vec<serde_json::Value> = Vec::new();
    let mut i: usize = 0;
    while i < bytes.len()
        invariant
            i <= bytes.len(),
            items.len() == i,
            forall|j: int| 0 <= j < i ==> content(#[trigger] items@[j]) == Json::Int(bytes@[j] as int),
        decreases bytes.len() - i,
    {
        items.push(json_number(bytes[i] as u64));
        i += 1;
    }
    assert(contents(items@) =~= byte_list(bytes@)->List_0);
    json_list(items)
}

/// The list of some texts.
pub(crate) fn json_texts(texts: &Vec<String>) -> (r: serde_json::Value)
    ensures
        content(r) == text_list(crate::path::texts(texts@)),
{
    let mut items: Vec<serde_json::Value> = Vec::new();
    let mut i: usize = 0;
    while i < texts.len()
        invariant
            i <= texts.len(),
            items.len() == i,
            forall|j: int| 0 <= j < i ==> content(#[trigger] items@[j]) == Json::Text(texts@[j]@),
        decreases texts.len() - i,
    {
        items.push(json_text(texts[i].as_str()));
        i += 1;
    }
    assert(contents(items@) =~= text_list(crate::path::texts(texts@))->List_0);
    json_list(items)
}

/// What is set under a key of an object, or of null, is found there, and nothing else changes; null
/// becomes an object that has it alone. Only an object has members.
pub proof fn law_members(document: Json, key: Seq<char>, item: Json, other: Seq<char>)
    ensures
        document is Object || document is Null ==> {
            &&& document.with(key, item) is Object
            &&& document.with(key, item).get(key) == Some(item)
            &&& other != key ==> document.with(key, item).get(other) == document.get(other)
            &&& document.settable()
        },
        document !is Object ==> document.get(key) is None,
        document !is Object && document !is Null ==> !document.settable(),
        document.get_two(key, other) is Some <==> document.get(key) is Some && document.get(
            key,
        )->0.get(other) is Some,
        document.get_two(key, other) is Some ==> document.get_two(key, other) == document.get(
            key,
        )->0.get(other),
{
}

/// What is read of a value: a text as it is, a whole number that is not negative and fits 64 bits, and
/// a list with its items in their order. Nothing else is read as one of these.
pub proof fn law_values(value: Json, text: Seq<char>, n: u64, items: Seq<Json>)
    ensures
        value.as_text() == Some(text) <==> value == Json::Text(text),
        value.as_number() == Some(n) <==> value == Json::Int(n as int),
        value.as_list() == Some(items) <==> value == Json::List(items),
{
}

} // verus!
