//! JSON values as plain data.
use vstd::prelude::*;
use vstd::string::*;

use crate::ids::hex_digit;
use crate::text::{joined, owned, same, texts};

verus! {

/// A JSON value. An object keeps its members in the order in which they are walked.
pub enum Json {
    Null,
    Bool(bool),
    /// A number that is a 64-bit signed integer.
    Int(i64),
    /// Any other number.
    Real,
    Str(String),
    Array(Vec<Json>),
    Object(Vec<(String, Json)>),
}

/// The contents of a JSON value.
pub ghost enum JsonValue {
    Null,
    Bool(bool),
    Int(i64),
    Real,
    Str(Seq<char>),
    Array(Seq<JsonValue>),
    Object(Seq<(Seq<char>, JsonValue)>),
}

/// The contents of a value.
pub open spec fn contents(j: Json) -> JsonValue
    decreases j, 0nat,
{
    match j {
        Json::Null => JsonValue::Null,
        Json::Bool(b) => JsonValue::Bool(b),
        Json::Int(i) => JsonValue::Int(i),
        Json::Real => JsonValue::Real,
        Json::Str(s) => JsonValue::Str(s@),
        Json::Array(items) => JsonValue::Array(item_contents(items@)),
        Json::Object(members) => JsonValue::Object(member_contents(members@)),
    }
}

/// The contents of an array's items.
pub open spec fn item_contents(items: Seq<Json>) -> Seq<JsonValue>
    decreases items, items.len(),
{
    if items.len() == 0 {
        seq![]
    } else {
        item_contents(items.drop_last()).push(contents(items.last()))
    }
}

/// The contents of an object's members.
pub open spec fn member_contents(members: Seq<(String, Json)>) -> Seq<(Seq<char>, JsonValue)>
    decreases members, members.len(),
{
    if members.len() == 0 {
        seq![]
    } else {
        member_contents(members.drop_last()).push(
            (members.last().0@, contents(members.last().1)),
        )
    }
}

impl View for Json {
    type V = JsonValue;

    open spec fn view(&self) -> JsonValue {
        contents(*self)
    }
}

/// The contents of an object, member by member.
pub proof fn lemma_member_contents(members: Seq<(String, Json)>)
    ensures
        member_contents(members).len() == members.len(),
        forall|k: int|
            0 <= k < members.len() ==> #[trigger] member_contents(members)[k] == (
                members[k].0@,
                members[k].1@,
            ),
    decreases members.len(),
{
    if members.len() > 0 {
        lemma_member_contents(members.drop_last());
    }
}

/// The contents of an array, item by item.
pub proof fn lemma_item_contents(items: Seq<Json>)
    ensures
        item_contents(items).len() == items.len(),
        forall|k: int| 0 <= k < items.len() ==> #[trigger] item_contents(items)[k] == items[k]@,
    decreases items.len(),
{
    if items.len() > 0 {
        lemma_item_contents(items.drop_last());
    }
}

/// A value of `serde_json`, as its parser builds it.
#[verifier::external_type_specification]
#[verifier::external_body]
pub struct ExValue(serde_json::Value);

/// What a value of `serde_json` holds.
pub uninterp spec fn json_contents(v: serde_json::Value) -> JsonValue;

/// What `serde_json::from_str` makes of a text: a value, or the text of its error.
pub uninterp spec fn parsed_json(text: Seq<char>) -> Result<JsonValue, Seq<char>>;

/// Parses a text with `serde_json::from_str`. The result depends on the text alone.
#[verifier::external_body]
fn value_from_text(text: &str) -> (r: Result<serde_json::Value, String>)
    ensures
        match r {
            Ok(v) => parsed_json(text@) == Ok::<JsonValue, Seq<char>>(json_contents(v)),
            Err(e) => parsed_json(text@) == Err::<JsonValue, Seq<char>>(e@),
        },
{
    serde_json::from_str::<serde_json::Value>(text).map_err(|e| e.to_string())
}

/// The same value as plain data: each variant of `serde_json::Value` with what it holds, an
/// object's members in the order in which `serde_json::Map` walks them.
#[verifier::external_body]
fn json_from_value(v: serde_json::Value) -> (j: Json)
    ensures
        j@ == json_contents(v),
{
    match v {
        serde_json::Value::Null => Json::Null,
        serde_json::Value::Bool(b) => Json::Bool(b),
        serde_json::Value::Number(n) => n.as_i64().map(Json::Int).unwrap_or(Json::Real),
        serde_json::Value::String(s) => Json::Str(s),
        serde_json::Value::Array(a) => Json::Array(a.into_iter().map(json_from_value).collect()),
        serde_json::Value::Object(m) => Json::Object(
            m.into_iter().map(|(k, x)| (k, json_from_value(x))).collect(),
        ),
    }
}

/// Parses a JSON text.
pub fn parse_json(text: &str) -> (r: Result<Json, String>)
    ensures
        match r {
            Ok(j) => parsed_json(text@) == Ok::<JsonValue, Seq<char>>(j@),
            Err(e) => parsed_json(text@) == Err::<JsonValue, Seq<char>>(e@),
        },
{
    match value_from_text(text) {
        Ok(v) => Ok(json_from_value(v)),
        Err(e) => Err(e),
    }
}

/// The first member of that name.
pub open spec fn lookup(members: Seq<(Seq<char>, JsonValue)>, key: Seq<char>) -> Option<JsonValue>
    decreases members.len(),
{
    if members.len() == 0 {
        None
    } else if members[0].0 == key {
        Some(members[0].1)
    } else {
        lookup(members.skip(1), key)
    }
}

impl JsonValue {
    /// The member of that name, where the value is an object that has one.
    pub open spec fn member(self, key: Seq<char>) -> Option<JsonValue> {
        match self {
            JsonValue::Object(members) => lookup(members, key),
            _ => None,
        }
    }

    /// The string at that member.
    pub open spec fn str_member(self, key: Seq<char>) -> Option<Seq<char>> {
        match self.member(key) {
            Some(JsonValue::Str(s)) => Some(s),
            _ => None,
        }
    }

    /// The boolean at that member.
    pub open spec fn bool_member(self, key: Seq<char>) -> Option<bool> {
        match self.member(key) {
            Some(JsonValue::Bool(b)) => Some(b),
            _ => None,
        }
    }
}

impl Json {
    /// The member of that name, where the value is an object that has one.
    pub fn get(&self, key: &str) -> (r: Option<&Json>)
        ensures
            match r {
                Some(j) => self@.member(key@) == Some(j@),
                None => self@.member(key@) is None,
            },
    {
        match self {
            Json::Object(members) => {
                let n: usize = members.len();
                let mut i: usize = 0;
                let ghost all = member_contents(members@);
                proof {
                    lemma_member_contents(members@);
                    assert(all.skip(0) =~= all);
                }
                while i < n
                    invariant
                        i <= n == members@.len() == all.len(),
                        self@ == JsonValue::Object(all),
                        forall|k: int|
                            0 <= k < n ==> #[trigger] all[k] == (members@[k].0@, members@[k].1@),
                        lookup(all, key@) == lookup(all.skip(i as int), key@),
                    decreases n - i,
                {
                    assert(all.skip(i as int)[0] == all[i as int]);
                    if same(members[i].0.as_str(), key) {
                        return Some(&members[i].1);
                    }
                    assert(all.skip(i as int).skip(1) =~= all.skip(i + 1));
                    i += 1;
                }
                None
            },
            _ => None,
        }
    }

    /// The string, where the value is one.
    pub fn as_str(&self) -> (r: Option<&str>)
        ensures
            match r {
                Some(s) => self@ == JsonValue::Str(s@),
                None => !(self@ is Str),
            },
    {
        match self {
            Json::Str(s) => Some(s.as_str()),
            _ => None,
        }
    }

    /// The boolean, where the value is one.
    pub fn as_bool(&self) -> (r: Option<bool>)
        ensures
            match r {
                Some(b) => self@ == JsonValue::Bool(b),
                None => !(self@ is Bool),
            },
    {
        match self {
            Json::Bool(b) => Some(*b),
            _ => None,
        }
    }

    /// The string at that member.
    pub fn get_str(&self, key: &str) -> (r: Option<&str>)
        ensures
            match r {
                Some(s) => self@.str_member(key@) == Some(s@),
                None => self@.str_member(key@) is None,
            },
    {
        match self.get(key) {
            Some(j) => j.as_str(),
            None => None,
        }
    }

    /// The boolean at that member.
    pub fn get_bool(&self, key: &str) -> (r: Option<bool>)
        ensures
            r == self@.bool_member(key@),
    {
        match self.get(key) {
            Some(j) => j.as_bool(),
            None => None,
        }
    }
}

/// The first string under the name `key`: an object's own member before those inside its members,
/// which are searched in order, as an array's items are.
pub open spec fn find_string(v: JsonValue, key: Seq<char>) -> Option<Seq<char>>
    decreases v, 0nat,
{
    match v {
        JsonValue::Object(members) => match v.str_member(key) {
            Some(s) => Some(s),
            None => find_in_members(members, key),
        },
        JsonValue::Array(items) => find_in_items(items, key),
        _ => None,
    }
}

pub open spec fn find_in_items(items: Seq<JsonValue>, key: Seq<char>) -> Option<Seq<char>>
    decreases items, items.len(),
{
    if items.len() == 0 {
        None
    } else {
        match find_string(items[0], key) {
            Some(s) => Some(s),
            None => find_in_items(items.skip(1), key),
        }
    }
}

pub open spec fn find_in_members(
    members: Seq<(Seq<char>, JsonValue)>,
    key: Seq<char>,
) -> Option<Seq<char>>
    decreases members, members.len(),
{
    if members.len() == 0 {
        None
    } else {
        match find_string(members[0].1, key) {
            Some(s) => Some(s),
            None => find_in_members(members.skip(1), key),
        }
    }
}

/// Searches a value for the first string under the name `key`.
pub fn find_string_recursive(value: &Json, key: &str) -> (r: Option<String>)
    ensures
        match r {
            Some(s) => find_string(value@, key@) == Some(s@),
            None => find_string(value@, key@) is None,
        },
    decreases value,
{
    match value {
        Json::Object(members) => {
            match value.get_str(key) {
                Some(s) => {
                    return Some(owned(s));
                },
                None => {},
            }
            let n: usize = members.len();
            let mut i: usize = 0;
            let ghost all = member_contents(members@);
            proof {
                lemma_member_contents(members@);
                assert(all.skip(0) =~= all);
            }
            while i < n
                invariant
                    i <= n == members@.len() == all.len(),
                    *value == Json::Object(*members),
                    value@ == JsonValue::Object(all),
                    value@.str_member(key@) is None,
                    forall|k: int|
                        0 <= k < n ==> #[trigger] all[k] == (members@[k].0@, members@[k].1@),
                    find_string(value@, key@) == find_in_members(all.skip(i as int), key@),
                decreases n - i,
            {
                assert(all.skip(i as int)[0] == all[i as int]);
                match find_string_recursive(&members[i].1, key) {
                    Some(s) => {
                        return Some(s);
                    },
                    None => {},
                }
                assert(all.skip(i as int).skip(1) =~= all.skip(i + 1));
                i += 1;
            }
            None
        },
        Json::Array(items) => {
            let n: usize = items.len();
            let mut i: usize = 0;
            let ghost all = item_contents(items@);
            proof {
                lemma_item_contents(items@);
                assert(all.skip(0) =~= all);
            }
            while i < n
                invariant
                    i <= n == items@.len() == all.len(),
                    *value == Json::Array(*items),
                    value@ == JsonValue::Array(all),
                    forall|k: int| 0 <= k < n ==> #[trigger] all[k] == items@[k]@,
                    find_string(value@, key@) == find_in_items(all.skip(i as int), key@),
                decreases n - i,
            {
                assert(all.skip(i as int)[0] == all[i as int]);
                match find_string_recursive(&items[i], key) {
                    Some(s) => {
                        return Some(s);
                    },
                    None => {},
                }
                assert(all.skip(i as int).skip(1) =~= all.skip(i + 1));
                i += 1;
            }
            None
        },
        _ => None,
    }
}

/// A character inside a JSON string.
pub open spec fn escaped(c: char) -> Seq<char> {
    if c == '"' || c == '\\' {
        seq!['\\', c]
    } else if c == '\u{8}' {
        seq!['\\', 'b']
    } else if c == '\u{9}' {
        seq!['\\', 't']
    } else if c == '\u{a}' {
        seq!['\\', 'n']
    } else if c == '\u{c}' {
        seq!['\\', 'f']
    } else if c == '\u{d}' {
        seq!['\\', 'r']
    } else if c <= '\u{1f}' {
        seq!['\\', 'u', '0', '0', hex_digit(c as int / 16), hex_digit(c as int % 16)]
    } else {
        seq![c]
    }
}

/// A text inside a JSON string.
pub open spec fn all_escaped(s: Seq<char>) -> Seq<char>
    decreases s.len(),
{
    if s.len() == 0 {
        seq![]
    } else {
        all_escaped(s.drop_last()) + escaped(s.last())
    }
}

/// A text as a JSON string.
pub open spec fn quoted(s: Seq<char>) -> Seq<char> {
    seq!['"'] + all_escaped(s) + seq!['"']
}

/// Writes a text as a JSON string, as `serde_json::Value` displays itself: quotes, backslashes and
/// control characters are escaped, everything else stands as it is.
#[verifier::external_body]
pub(crate) fn quote(text: &str) -> (r: String)
    ensures
        r@ == quoted(text@),
{
    serde_json::Value::from(text).to_string()
}

/// A list of texts as an indented JSON array: each on a line of its own.
pub open spec fn indented_list(items: Seq<Seq<char>>) -> Seq<char> {
    if items.len() == 0 {
        "[]"@
    } else {
        "[\n  "@ + joined(items.map_values(|s: Seq<char>| quoted(s)), ",\n  "@) + "\n]"@
    }
}

/// Writes texts as an indented JSON array with `serde_json::to_string_pretty`: always, since texts
/// have nothing that it refuses. Parsing the result gives the same texts back.
#[verifier::external_body]
pub(crate) fn list_text(items: &[String]) -> (r: Result<String, String>)
    ensures
        match r {
            Ok(text) => {
                &&& text@ == indented_list(texts(items@))
                &&& parsed_json(text@) == Ok::<JsonValue, Seq<char>>(
                    JsonValue::Array(texts(items@).map_values(|s: Seq<char>| JsonValue::Str(s))),
                )
            },
            Err(_) => false,
        },
{
    serde_json::to_string_pretty(items).map_err(|e| e.to_string())
}

/// A text as a JSON string, or `null`.
pub open spec fn quoted_or_null(s: Option<Seq<char>>) -> Seq<char> {
    match s {
        Some(t) => quoted(t),
        None => "null"@,
    }
}

/// Writes a text as a JSON string, or `null`.
pub fn quote_or_null(text: Option<&str>) -> (r: String)
    ensures
        r@ == quoted_or_null(
            match text {
                Some(t) => Some(t@),
                None => None,
            },
        ),
{
    match text {
        Some(t) => quote(t),
        None => owned("null"),
    }
}

/// `true` or `false`.
pub open spec fn bool_text(b: bool) -> Seq<char> {
    if b {
        "true"@
    } else {
        "false"@
    }
}

/// Writes `true` or `false`.
pub fn json_bool(b: bool) -> (r: &'static str)
    ensures
        r@ == bool_text(b),
{
    if b {
        "true"
    } else {
        "false"
    }
}

/// A member is looked up by its name: the first one of that name counts, and none is found where
/// none has it.
pub proof fn law_first_member_counts(
    members: Seq<(Seq<char>, JsonValue)>,
    key: Seq<char>,
    i: int,
)
    requires
        0 <= i <= members.len(),
        forall|j: int| 0 <= j < i ==> (#[trigger] members[j]).0 != key,
        i < members.len() ==> members[i].0 == key,
    ensures
        i < members.len() ==> JsonValue::Object(members).member(key) == Some(members[i].1),
        i == members.len() ==> JsonValue::Object(members).member(key) is None,
    decreases i,
{
    if i > 0 {
        let rest = members.skip(1);
        assert forall|j: int| 0 <= j < i - 1 implies (#[trigger] rest[j]).0 != key by {
            assert(rest[j] == members[j + 1]);
        }
        law_first_member_counts(rest, key, i - 1);
    }
}

/// Only an object has members, and a member counts as text or as a truth value only where it is
/// one.
pub proof fn law_members_have_their_kinds(v: JsonValue, key: Seq<char>)
    ensures
        !(v is Object) ==> v.member(key) is None,
        v.str_member(key) is Some <==> (v.member(key) matches Some(m) && m is Str),
        v.member(key) matches Some(JsonValue::Str(s)) ==> v.str_member(key) == Some(s),
        v.bool_member(key) is Some <==> (v.member(key) matches Some(m) && m is Bool),
        v.member(key) matches Some(JsonValue::Bool(b)) ==> v.bool_member(key) == Some(b),
{
}

/// A text is searched for in an object's own member first, then inside its members, and inside an
/// array's items, always from the front: what is found in the first of two parts counts, and the
/// second is searched only where the first has nothing.
pub proof fn law_search_goes_from_the_front(
    first: Seq<JsonValue>,
    second: Seq<JsonValue>,
    key: Seq<char>,
)
    ensures
        find_string(JsonValue::Array(first + second), key) == match find_string(
            JsonValue::Array(first),
            key,
        ) {
            Some(s) => Some(s),
            None => find_string(JsonValue::Array(second), key),
        },
        find_string(JsonValue::Array(Seq::empty()), key) is None,
    decreases first.len(),
{
    reveal_with_fuel(find_string, 2);
    reveal_with_fuel(find_in_items, 2);
    if first.len() == 0 {
        assert(first + second =~= second);
    } else {
        law_search_goes_from_the_front(first.skip(1), second, key);
        assert((first + second).skip(1) =~= first.skip(1) + second);
        assert((first + second)[0] == first[0]);
    }
}

/// An object's own text under the name is found before any inside its members; without one, the
/// first member that holds one inside counts.
pub proof fn law_own_member_is_found_first(
    members: Seq<(Seq<char>, JsonValue)>,
    key: Seq<char>,
    i: int,
)
    requires
        0 <= i < members.len(),
    ensures
        JsonValue::Object(members).str_member(key) matches Some(s) ==> find_string(
            JsonValue::Object(members),
            key,
        ) == Some(s),
        JsonValue::Object(members).str_member(key) is None && (forall|j: int|
            0 <= j < i ==> find_string((#[trigger] members[j]).1, key) is None) && find_string(
            members[i].1,
            key,
        ) is Some ==> find_string(JsonValue::Object(members), key) == find_string(
            members[i].1,
            key,
        ),
    decreases i,
{
    if (forall|j: int| 0 <= j < i ==> find_string((#[trigger] members[j]).1, key) is None)
        && find_string(members[i].1, key) is Some {
        lemma_found_in_members(members, key, i);
    }
}

proof fn lemma_found_in_members(members: Seq<(Seq<char>, JsonValue)>, key: Seq<char>, i: int)
    requires
        0 <= i < members.len(),
        forall|j: int| 0 <= j < i ==> find_string((#[trigger] members[j]).1, key) is None,
        find_string(members[i].1, key) is Some,
    ensures
        find_in_members(members, key) == find_string(members[i].1, key),
    decreases i,
{
    if i > 0 {
        let rest = members.skip(1);
        assert forall|j: int| 0 <= j < i - 1 implies find_string(
            (#[trigger] rest[j]).1,
            key,
        ) is None by {
            assert(rest[j] == members[j + 1]);
        }
        assert(rest[i - 1] == members[i]);
        lemma_found_in_members(rest, key, i - 1);
        assert(find_string(members[0].1, key) is None);
    }
}

/// A text that is missing is `null`, which no text is written as; truth values are written as such.
pub proof fn law_missing_text_is_null(s: Seq<char>)
    ensures
        quoted_or_null(None) == "null"@,
        quoted_or_null(Some(s)) == quoted(s),
        quoted(s)[0] == '"',
        quoted(s).last() == '"',
        bool_text(true) == "true"@,
        bool_text(false) == "false"@,
{
}

/// Inside a JSON string no control character is left, and a text is written as its parts are: each
/// character that needs no escape as itself, each other one after a backslash.
pub proof fn law_escapes_hide_control_characters(first: Seq<char>, second: Seq<char>, c: char)
    ensures
        all_escaped(first + second) == all_escaped(first) + all_escaped(second),
        c > '\u{1f}' && c != '"' && c != '\\' ==> escaped(c) == seq![c],
        c <= '\u{1f}' || c == '"' || c == '\\' ==> escaped(c).len() >= 2 && escaped(c)[0] == '\\',
        forall|i: int| 0 <= i < escaped(c).len() ==> #[trigger] escaped(c)[i] > '\u{1f}',
    decreases second.len(),
{
    if second.len() == 0 {
        assert(first + second =~= first);
        assert(all_escaped(first) + all_escaped(second) =~= all_escaped(first));
    } else {
        law_escapes_hide_control_characters(first, second.drop_last(), c);
        assert((first + second).drop_last() =~= first + second.drop_last());
        assert(all_escaped(first) + all_escaped(second.drop_last()) + escaped(second.last())
            =~= all_escaped(first) + (all_escaped(second.drop_last()) + escaped(second.last())));
    }
}

} // verus!
