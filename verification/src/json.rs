//! JSON values, and the calls that read and write their text.
use vstd::prelude::*;
use crate::table::ascending;
use crate::text::same;

verus! {

/// A JSON value. The members of an object stand in the order of their names.
#[derive(Debug)]
pub enum Json {
    Null,
    Bool(bool),
    /// A number as it is written: an integer in decimal, or a fraction with its point.
    Number(String),
    Text(String),
    Array(Vec<Json>),
    Object(Vec<Member>),
}

/// A member of an object.
#[derive(Debug)]
pub struct Member {
    pub name: String,
    pub value: Json,
}

/// What a JSON value says.
pub enum JsonView {
    Null,
    Bool(bool),
    Number(Seq<char>),
    Text(Seq<char>),
    Array(Seq<JsonView>),
    Object(Seq<MemberView>),
}

/// What a member of an object says.
pub struct MemberView {
    pub name: Seq<char>,
    pub value: JsonView,
}

/// The number that is written: a negative zero is zero.
pub open spec fn number_value(written: Seq<char>) -> Seq<char> {
    if written == "-0.0"@ {
        "0.0"@
    } else {
        written
    }
}

impl View for Json {
    type V = JsonView;

    open spec fn view(&self) -> JsonView
        decreases self,
    {
        match *self {
            Json::Null => JsonView::Null,
            Json::Bool(b) => JsonView::Bool(b),
            Json::Number(n) => JsonView::Number(number_value(n@)),
            Json::Text(s) => JsonView::Text(s@),
            Json::Array(items) => JsonView::Array(
                Seq::new(
                    items@.len(),
                    |i: int|
                        if 0 <= i < items@.len() {
                            items@[i].view()
                        } else {
                            JsonView::Null
                        },
                ),
            ),
            Json::Object(members) => JsonView::Object(
                Seq::new(
                    members@.len(),
                    |i: int|
                        if 0 <= i < members@.len() {
                            MemberView { name: members@[i].name@, value: members@[i].value.view() }
                        } else {
                            MemberView { name: Seq::empty(), value: JsonView::Null }
                        },
                ),
            ),
        }
    }
}

/// What a list of values says.
pub open spec fn items_view(items: Seq<Json>) -> Seq<JsonView> {
    items.map_values(|v: Json| v@)
}

/// What a list of members says.
pub open spec fn members_view(members: Seq<Member>) -> Seq<MemberView> {
    members.map_values(|m: Member| MemberView { name: m.name@, value: m.value@ })
}

/// The value of the first member with a name.
pub open spec fn member(members: Seq<MemberView>, name: Seq<char>) -> Option<JsonView>
    decreases members.len(),
{
    if members.len() == 0 {
        None
    } else if members[0].name == name {
        Some(members[0].value)
    } else {
        member(members.drop_first(), name)
    }
}

/// The members without those of a name.
pub open spec fn without(
    members: Seq<MemberView>,
    name: Seq<char>,
) -> Seq<MemberView>
    decreases members.len(),
{
    if members.len() == 0 {
        members
    } else if members.last().name == name {
        without(members.drop_last(), name)
    } else {
        without(members.drop_last(), name).push(members.last())
    }
}

/// The names of members.
pub open spec fn names(members: Seq<MemberView>) -> Seq<Seq<char>> {
    members.map_values(|m: MemberView| m.name)
}

/// The members of every object in a value stand in the order of their names, each name once.
pub open spec fn ordered(value: JsonView) -> bool
    decreases value,
{
    match value {
        JsonView::Array(items) => forall|i: int|
            0 <= i < items.len() ==> ordered(#[trigger] items[i]),
        JsonView::Object(members) => ascending(names(members)) && forall|i: int|
            0 <= i < members.len() ==> ordered((#[trigger] members[i]).value),
        _ => true,
    }
}

impl JsonView {
    /// The member of an object; nothing else has members.
    pub open spec fn field(self, name: Seq<char>) -> Option<JsonView> {
        match self {
            JsonView::Object(members) => member(members, name),
            _ => None,
        }
    }

    /// The text that this value is, if it is one.
    pub open spec fn text(self) -> Option<Seq<char>> {
        match self {
            JsonView::Text(s) => Some(s),
            _ => None,
        }
    }
}

/// The text that a value is, if there is a value and it is a text.
pub open spec fn text_in(value: Option<JsonView>) -> Option<Seq<char>> {
    match value {
        Some(v) => v.text(),
        None => None,
    }
}

/// The member of a value, if there is a value and it has that member.
pub open spec fn field_in(value: Option<JsonView>, name: Seq<char>) -> Option<JsonView> {
    match value {
        Some(v) => v.field(name),
        None => None,
    }
}

/// The view of an array or an object is that of its parts.
pub broadcast proof fn parts_make_the_view(v: Json)
    ensures
        #![trigger v@]
        v matches Json::Array(items) ==> v@ == JsonView::Array(items_view(items@)),
        v matches Json::Object(members) ==> v@ == JsonView::Object(members_view(members@)),
{
    match v {
        Json::Array(items) => {
            assert(v@->Array_0 =~= items_view(items@));
        },
        Json::Object(members) => {
            assert(v@->Object_0 =~= members_view(members@));
        },
        _ => {},
    }
}

/// The value of the first member with a name.
pub fn find_member<'a>(members: &'a Vec<Member>, name: &str) -> (r: Option<&'a Json>)
    ensures
        match r {
            Some(v) => member(members_view(members@), name@) == Some(v@),
            None => member(members_view(members@), name@) is None,
        },
{
    let ghost all = members_view(members@);
    let mut i: usize = 0;
    assert(all.skip(0) =~= all);
    while i < members.len()
        invariant
            i <= members@.len(),
            all == members_view(members@),
            member(all, name@) == member(all.skip(i as int), name@),
        decreases members@.len() - i,
    {
        proof {
            assert(all.skip(i as int)[0] == members_view(members@)[i as int]);
            assert(all.skip(i as int).drop_first() =~= all.skip(i + 1));
        }
        if same(members[i].name.as_str(), name) {
            return Some(&members[i].value);
        }
        i += 1;
    }
    None
}

impl Json {
    /// The member of an object; nothing else has members.
    pub fn field(&self, name: &str) -> (r: Option<&Json>)
        ensures
            match r {
                Some(v) => self@.field(name@) == Some(v@),
                None => self@.field(name@) is None,
            },
    {
        broadcast use parts_make_the_view;

        match self {
            Json::Object(members) => find_member(members, name),
            _ => None,
        }
    }

    /// The text that this value is, if it is one.
    pub fn text(&self) -> (r: Option<&str>)
        ensures
            match r {
                Some(s) => self@.text() == Some(s@),
                None => self@.text() is None,
            },
    {
        match self {
            Json::Text(s) => Some(s.as_str()),
            _ => None,
        }
    }

    /// Whether two values say the same.
    pub fn same_as(&self, other: &Json) -> (r: bool)
        ensures
            r == (self@ == other@),
        decreases self,
    {
        broadcast use parts_make_the_view;

        match (self, other) {
            (Json::Null, Json::Null) => true,
            (Json::Bool(a), Json::Bool(b)) => *a == *b,
            (Json::Number(a), Json::Number(b)) => same_number(a.as_str(), b.as_str()),
            (Json::Text(a), Json::Text(b)) => same(a.as_str(), b.as_str()),
            (Json::Array(a), Json::Array(b)) => {
                if a.len() != b.len() {
                    assert(items_view(a@).len() != items_view(b@).len());
                    return false;
                }
                let mut i: usize = 0;
                while i < a.len()
                    invariant
                        *self == Json::Array(*a),
                        *other == Json::Array(*b),
                        a@.len() == b@.len(),
                        i <= a@.len(),
                        forall|j: int| 0 <= j < i ==> (#[trigger] a@[j])@ == b@[j]@,
                    decreases a@.len() - i,
                {
                    broadcast use parts_make_the_view;

                    assert(decreases_to!(self => self->Array_0));
                    assert(decreases_to!(self->Array_0 => self->Array_0[i as int]));
                    if !a[i].same_as(&b[i]) {
                        assert(items_view(a@)[i as int] != items_view(b@)[i as int]);
                        return false;
                    }
                    i += 1;
                }
                assert(items_view(a@) =~= items_view(b@));
                true
            },
            (Json::Object(a), Json::Object(b)) => {
                if a.len() != b.len() {
                    assert(members_view(a@).len() != members_view(b@).len());
                    return false;
                }
                let mut i: usize = 0;
                while i < a.len()
                    invariant
                        *self == Json::Object(*a),
                        *other == Json::Object(*b),
                        a@.len() == b@.len(),
                        i <= a@.len(),
                        forall|j: int|
                            0 <= j < i ==> (#[trigger] a@[j]).name@ == b@[j].name@ && a@[j].value@
                                == b@[j].value@,
                    decreases a@.len() - i,
                {
                    broadcast use parts_make_the_view;

                    assert(decreases_to!(self => self->Object_0));
                    assert(decreases_to!(self->Object_0 => self->Object_0[i as int]));
                    if !same(a[i].name.as_str(), b[i].name.as_str()) || !a[i].value.same_as(&b[i].value) {
                        assert(members_view(a@)[i as int] != members_view(b@)[i as int]);
                        return false;
                    }
                    i += 1;
                }
                assert(members_view(a@) =~= members_view(b@));
                true
            },
            _ => false,
        }
    }
}

/// Whether two written numbers are the same number.
fn same_number(a: &str, b: &str) -> (r: bool)
    ensures
        r == (number_value(a@) == number_value(b@)),
{
    let a_value = if same(a, "-0.0") {
        "0.0"
    } else {
        a
    };
    let b_value = if same(b, "-0.0") {
        "0.0"
    } else {
        b
    };
    same(a_value, b_value)
}

impl Clone for Json {
    fn clone(&self) -> (r: Json)
        ensures
            r@ == self@,
        decreases self,
    {
        broadcast use parts_make_the_view;

        match self {
            Json::Null => Json::Null,
            Json::Bool(b) => Json::Bool(*b),
            Json::Number(n) => Json::Number(n.clone()),
            Json::Text(s) => Json::Text(s.clone()),
            Json::Array(items) => {
                let mut copy: Vec<Json> = Vec::new();
                let mut i: usize = 0;
                while i < items.len()
                    invariant
                        *self == Json::Array(*items),
                        i <= items@.len(),
                        items_view(copy@) == items_view(items@).take(i as int),
                    decreases items@.len() - i,
                {
                    assert(decreases_to!(self => self->Array_0));
                    assert(decreases_to!(self->Array_0 => self->Array_0[i as int]));
                    let ghost copied = items_view(copy@);
                    copy.push(items[i].clone());
                    assert(items_view(copy@) =~= copied.push(items_view(items@)[i as int]));
                    assert(items_view(copy@) =~= items_view(items@).take(i + 1));
                    i += 1;
                }
                assert(items_view(copy@) =~= items_view(items@));
                Json::Array(copy)
            },
            Json::Object(members) => {
                let mut copy: Vec<Member> = Vec::new();
                let mut i: usize = 0;
                while i < members.len()
                    invariant
                        *self == Json::Object(*members),
                        i <= members@.len(),
                        members_view(copy@) == members_view(members@).take(i as int),
                    decreases members@.len() - i,
                {
                    assert(decreases_to!(self => self->Object_0));
                    assert(decreases_to!(self->Object_0 => self->Object_0[i as int]));
                    let ghost copied = members_view(copy@);
                    let value = members[i].value.clone();
                    copy.push(Member { name: members[i].name.clone(), value });
                    assert(members_view(copy@) =~= copied.push(members_view(members@)[i as int]));
                    assert(members_view(copy@) =~= members_view(members@).take(i + 1));
                    i += 1;
                }
                assert(members_view(copy@) =~= members_view(members@));
                Json::Object(copy)
            },
        }
    }
}

/// Copies the members of an object, leaving out those of a name.
pub fn copy_without(members: &Vec<Member>, name: &str) -> (r: Vec<Member>)
    ensures
        members_view(r@) == without(members_view(members@), name@),
{
    let ghost all = members_view(members@);
    let mut copy: Vec<Member> = Vec::new();
    let mut i: usize = 0;
    assert(members_view(copy@) =~= without(all.take(0), name@));
    while i < members.len()
        invariant
            i <= members@.len(),
            all == members_view(members@),
            members_view(copy@) == without(all.take(i as int), name@),
        decreases members@.len() - i,
    {
        proof {
            assert(all.take(i + 1).drop_last() =~= all.take(i as int));
            assert(all.take(i + 1).last() == members_view(members@)[i as int]);
        }
        if !same(members[i].name.as_str(), name) {
            let ghost kept = members_view(copy@);
            let value = members[i].value.clone();
            copy.push(Member { name: members[i].name.clone(), value });
            assert(members_view(copy@) =~= kept.push(all[i as int]));
        }
        i += 1;
    }
    assert(all.take(members@.len() as int) =~= all);
    copy
}

/// An object whose only member `outer` is an object whose only member `inner` is a text.
pub open spec fn nested_object(outer: Seq<char>, inner: Seq<char>, value: Seq<char>) -> JsonView {
    let held = JsonView::Object(seq![MemberView { name: inner, value: JsonView::Text(value) }]);
    JsonView::Object(seq![MemberView { name: outer, value: held }])
}

// ---------------------------------------------------------------------------------------------
// The outside calls

/// A value of the `serde_json` crate, as it comes out of its parser.
#[verifier::external_type_specification]
#[verifier::external_body]
pub struct ExValue(serde_json::Value);

/// What `serde_json::from_str` makes of a text: a value, or the text of an error.
pub uninterp spec fn json_of_text(text: Seq<char>) -> Result<JsonView, Seq<char>>;

/// What `serde_json::from_slice` makes of bytes: a value, or the text of an error.
pub uninterp spec fn json_of_bytes(bytes: Seq<u8>) -> Result<JsonView, Seq<char>>;

/// What the `Display` of a `serde_json::Value` writes for a nested object.
pub uninterp spec fn nested_object_text(
    outer: Seq<char>,
    inner: Seq<char>,
    value: Seq<char>,
) -> Seq<char>;

/// `serde_json::from_str` reads a text as a value.
pub open spec fn reads_as(text: Seq<char>, value: JsonView) -> bool {
    json_of_text(text) == Ok::<JsonView, Seq<char>>(value)
}

/// Moves a `serde_json::Value` variant by variant into a `Json`; a number becomes what its
/// `Display` writes.
#[verifier::external_body]
fn from_value(value: serde_json::Value) -> Json {
    match value {
        serde_json::Value::Null => Json::Null,
        serde_json::Value::Bool(b) => Json::Bool(b),
        serde_json::Value::Number(n) => Json::Number(n.to_string()),
        serde_json::Value::String(s) => Json::Text(s),
        serde_json::Value::Array(items) => Json::Array(items.into_iter().map(from_value).collect()),
        serde_json::Value::Object(members) => Json::Object(
            members.into_iter().map(|(name, value)| Member { name, value: from_value(value) }).collect(),
        ),
    }
}

/// `serde_json::from_str` reads a text as a `serde_json::Value`. What it gives is a function of
/// the text alone: the value that the text writes, or an error with its message. The members of an
/// object come in the order of their names, each name once: a `serde_json::Map` is a `BTreeMap`.
#[verifier::external_body]
pub(crate) fn read_text(text: &str) -> (r: Result<Json, String>)
    ensures
        match r {
            Ok(v) => json_of_text(text@) == Ok::<JsonView, Seq<char>>(v@) && ordered(v@),
            Err(e) => json_of_text(text@) == Err::<JsonView, Seq<char>>(e@),
        },
{
    match serde_json::from_str::<serde_json::Value>(text) {
        Ok(value) => Ok(from_value(value)),
        Err(error) => Err(error.to_string()),
    }
}

/// `serde_json::from_slice` reads bytes as a `serde_json::Value`. What it gives is a function of
/// the bytes alone: the value that they write, or an error with its message.
#[verifier::external_body]
pub(crate) fn read_bytes(bytes: &[u8]) -> (r: Result<Json, String>)
    ensures
        match r {
            Ok(v) => json_of_bytes(bytes@) == Ok::<JsonView, Seq<char>>(v@),
            Err(e) => json_of_bytes(bytes@) == Err::<JsonView, Seq<char>>(e@),
        },
{
    match serde_json::from_slice::<serde_json::Value>(bytes) {
        Ok(value) => Ok(from_value(value)),
        Err(error) => Err(error.to_string()),
    }
}

/// The `Display` of a `serde_json::Value` writes its compact text. That text is a function of the
/// names and the value given here, and `serde_json::from_str` reads back the same object.
#[verifier::external_body]
pub(crate) fn write_nested(outer: &str, inner: &str, value: &str) -> (r: String)
    ensures
        r@ == nested_object_text(outer@, inner@, value@),
        reads_as(r@, nested_object(outer@, inner@, value@)),
{
    let mut members = serde_json::Map::new();
    members.insert(inner.to_owned(), serde_json::Value::from(value));
    let mut object = serde_json::Map::new();
    object.insert(outer.to_owned(), serde_json::Value::Object(members));
    serde_json::Value::Object(object).to_string()
}

} // verus!
