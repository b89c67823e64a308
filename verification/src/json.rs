//! JSON values as the control plane reads and writes them.

use vstd::prelude::*;
use crate::text::same_text;

verus! {

/// One member of an object.
#[derive(Debug, PartialEq, Eq)]
pub struct Member {
    pub key: String,
    pub value: Json,
}

/// A JSON value. A number is an unsigned integer, a negative integer, or a
/// double given by its bits.
#[derive(Debug, PartialEq, Eq)]
pub enum Json {
    Null,
    Bool(bool),
    PosInt(u64),
    NegInt(i64),
    Float(u64),
    Str(String),
    Array(Vec<Json>),
    Object(Vec<Member>),
}

/// What a JSON value holds: texts as sequences of characters, and the
/// members of an object in their order.
pub enum JsonView {
    Null,
    Bool(bool),
    PosInt(u64),
    NegInt(i64),
    Float(u64),
    Str(Seq<char>),
    Array(Seq<JsonView>),
    Object(Seq<(Seq<char>, JsonView)>),
}

impl View for Member {
    type V = (Seq<char>, JsonView);

    open spec fn view(&self) -> (Seq<char>, JsonView) {
        (self.key@, self.value@)
    }
}

impl View for Json {
    type V = JsonView;

    open spec fn view(&self) -> JsonView {
        self.model()
    }
}

impl Json {
    /// What the value holds.
    pub open spec fn model(&self) -> JsonView
        decreases self,
    {
        match self {
            Json::Null => JsonView::Null,
            Json::Bool(b) => JsonView::Bool(*b),
            Json::PosInt(n) => JsonView::PosInt(*n),
            Json::NegInt(n) => JsonView::NegInt(*n),
            Json::Float(bits) => JsonView::Float(*bits),
            Json::Str(s) => JsonView::Str(s@),
            Json::Array(items) => JsonView::Array(
                Seq::new(
                    items@.len(),
                    |i: int|
                        if 0 <= i < items@.len() {
                            items@[i].model()
                        } else {
                            JsonView::Null
                        },
                ),
            ),
            Json::Object(members) => JsonView::Object(
                Seq::new(
                    members@.len(),
                    |i: int|
                        if 0 <= i < members@.len() {
                            (members@[i].key@, members@[i].value.model())
                        } else {
                            (Seq::empty(), JsonView::Null)
                        },
                ),
            ),
        }
    }
}

/// The members of an object as the contracts speak of them.
pub open spec fn members_view(members: Seq<Member>) -> Seq<(Seq<char>, JsonView)> {
    Seq::new(members.len(), |i: int| members[i]@)
}

/// The values of an array as the contracts speak of them.
pub open spec fn items_view(items: Seq<Json>) -> Seq<JsonView> {
    Seq::new(items.len(), |i: int| items[i]@)
}

/// An object holds the views of its members, in order.
pub proof fn lemma_object_view(members: Vec<Member>)
    ensures
        Json::Object(members)@ == JsonView::Object(members_view(members@)),
{
    let a = Json::Object(members)@->Object_0;
    assert(Json::Object(members)@ is Object);
    assert(a.len() == members@.len());
    assert forall|i: int| 0 <= i < a.len() implies a[i] == members_view(members@)[i] by {
        assert(a[i] == (members@[i].key@, members@[i].value.model()));
    }
    assert(a =~= members_view(members@));
}

/// An array holds the views of its items, in order.
pub proof fn lemma_array_view(items: Vec<Json>)
    ensures
        Json::Array(items)@ == JsonView::Array(items_view(items@)),
{
    let a = Json::Array(items)@->Array_0;
    assert(a =~= items_view(items@));
}

/// `i` is the first place in `ms` at which `key` stands.
pub open spec fn is_first(ms: Seq<(Seq<char>, JsonView)>, key: Seq<char>, i: int) -> bool {
    &&& 0 <= i < ms.len()
    &&& ms[i].0 == key
    &&& forall|j: int| 0 <= j < i ==> (#[trigger] ms[j]).0 != key
}

/// Whether some member of `ms` has the key `key`.
pub open spec fn has_key(ms: Seq<(Seq<char>, JsonView)>, key: Seq<char>) -> bool {
    exists|i: int| 0 <= i < ms.len() && (#[trigger] ms[i]).0 == key
}

/// The first place in `ms` at which `key` stands.
pub open spec fn first_index(ms: Seq<(Seq<char>, JsonView)>, key: Seq<char>) -> int {
    choose|i: int| is_first(ms, key, i)
}

/// The value of the first member of `ms` with the key `key`.
pub open spec fn member_of(ms: Seq<(Seq<char>, JsonView)>, key: Seq<char>) -> Option<JsonView> {
    if exists|i: int| is_first(ms, key, i) {
        Some(ms[first_index(ms, key)].1)
    } else {
        None
    }
}

/// `ms` with the value of `key` set: in place where the key stands already,
/// else as a new last member.
pub open spec fn with_member(
    ms: Seq<(Seq<char>, JsonView)>,
    key: Seq<char>,
    value: JsonView,
) -> Seq<(Seq<char>, JsonView)> {
    if exists|i: int| is_first(ms, key, i) {
        ms.update(first_index(ms, key), (key, value))
    } else {
        ms.push((key, value))
    }
}

/// `ms` without the first member that has the key `key`.
pub open spec fn without_member(ms: Seq<(Seq<char>, JsonView)>, key: Seq<char>) -> Seq<
    (Seq<char>, JsonView),
> {
    if exists|i: int| is_first(ms, key, i) {
        ms.remove(first_index(ms, key))
    } else {
        ms
    }
}

/// A first place is the only first place.
pub proof fn lemma_first_is_unique(ms: Seq<(Seq<char>, JsonView)>, key: Seq<char>, i: int)
    requires
        is_first(ms, key, i),
    ensures
        first_index(ms, key) == i,
        member_of(ms, key) == Some(ms[i].1),
{
    let c = first_index(ms, key);
    assert(is_first(ms, key, c));
    if c < i {
        assert(ms[c].0 != key);
    }
    if i < c {
        assert(ms[i].0 != key);
    }
}

/// Where no member has the key, there is no first place.
pub proof fn lemma_absent(ms: Seq<(Seq<char>, JsonView)>, key: Seq<char>)
    requires
        forall|j: int| 0 <= j < ms.len() ==> (#[trigger] ms[j]).0 != key,
    ensures
        member_of(ms, key) is None,
        !has_key(ms, key),
        !(exists|i: int| is_first(ms, key, i)),
{
}

impl JsonView {
    /// The member `key` of an object; nothing for any other value.
    pub open spec fn field(self, key: Seq<char>) -> Option<JsonView> {
        match self {
            JsonView::Object(ms) => member_of(ms, key),
            _ => None,
        }
    }

    /// The text of a string; nothing for any other value.
    pub open spec fn text(self) -> Option<Seq<char>> {
        match self {
            JsonView::Str(s) => Some(s),
            _ => None,
        }
    }
}

/// The first place in `members` at which `key` stands.
pub fn find_member(members: &Vec<Member>, key: &str) -> (r: Option<usize>)
    ensures
        match r {
            Some(i) => is_first(members_view(members@), key@, i as int),
            None => !(exists|i: int| is_first(members_view(members@), key@, i)),
        },
        r is Some == member_of(members_view(members@), key@) is Some,
{
    let mut i: usize = 0;
    while i < members.len()
        invariant
            0 <= i <= members@.len(),
            forall|j: int| 0 <= j < i ==> (#[trigger] members_view(members@)[j]).0 != key@,
        decreases members@.len() - i,
    {
        if same_text(members[i].key.as_str(), key) {
            proof {
                lemma_first_is_unique(members_view(members@), key@, i as int);
            }
            return Some(i);
        }
        i = i + 1;
    }
    proof {
        lemma_absent(members_view(members@), key@);
    }
    None
}

impl Json {
    /// The member `key` of an object; nothing for any other value.
    pub fn get(&self, key: &str) -> (r: Option<&Json>)
        ensures
            r is Some == self@.field(key@) is Some,
            r is Some ==> r->Some_0@ == self@.field(key@)->Some_0,
    {
        match self {
            Json::Object(members) => {
                proof {
                    lemma_object_view(*members);
                }
                match find_member(members, key) {
                    Some(i) => {
                        proof {
                            lemma_first_is_unique(members_view(members@), key@, i as int);
                        }
                        Some(&members[i].value)
                    },
                    None => None,
                }
            },
            _ => None,
        }
    }

    /// The text of a string; nothing for any other value.
    pub fn as_str(&self) -> (r: Option<&str>)
        ensures
            r is Some == self@.text() is Some,
            r is Some ==> r->Some_0@ == self@.text()->Some_0,
    {
        match self {
            Json::Str(s) => Some(s.as_str()),
            _ => None,
        }
    }

    /// The members of an object; nothing for any other value.
    pub fn as_object(&self) -> (r: Option<&Vec<Member>>)
        ensures
            r is Some == self@ is Object,
            r is Some ==> self@ == JsonView::Object(members_view(r->Some_0@)),
    {
        match self {
            Json::Object(members) => {
                proof {
                    lemma_object_view(*members);
                }
                Some(members)
            },
            _ => None,
        }
    }

    /// An object with the given members.
    pub fn object(members: Vec<Member>) -> (r: Json)
        ensures
            r@ == JsonView::Object(members_view(members@)),
    {
        proof {
            lemma_object_view(members);
        }
        Json::Object(members)
    }

    /// A string with the given text.
    pub fn string(text: &str) -> (r: Json)
        ensures
            r@ == JsonView::Str(text@),
    {
        Json::Str(String::from_str(text))
    }
}

/// A member with the given key and value.
pub fn member(key: &str, value: Json) -> (m: Member)
    ensures
        m@ == (key@, value@),
{
    Member { key: String::from_str(key), value }
}

/// Sets the value of `key`: in place where the key stands already, else as a
/// new last member.
pub fn set_member(members: &mut Vec<Member>, key: &str, value: Json)
    ensures
        members_view(final(members)@) == with_member(members_view(old(members)@), key@, value@),
{
    let found = find_member(members, key);
    let m = member(key, value);
    match found {
        Some(i) => {
            proof {
                lemma_first_is_unique(members_view(members@), key@, i as int);
            }
            members.set(i, m);
            assert(members_view(members@) =~= with_member(
                members_view(old(members)@),
                key@,
                value@,
            ));
        },
        None => {
            members.push(m);
            assert(members_view(members@) =~= with_member(
                members_view(old(members)@),
                key@,
                value@,
            ));
        },
    }
}

/// Takes out the first member that has the key `key`, and hands its value back.
pub fn remove_member(members: &mut Vec<Member>, key: &str) -> (r: Option<Json>)
    ensures
        members_view(final(members)@) == without_member(members_view(old(members)@), key@),
        r is Some == member_of(members_view(old(members)@), key@) is Some,
        r is Some ==> r->Some_0@ == member_of(members_view(old(members)@), key@)->Some_0,
{
    match find_member(members, key) {
        Some(i) => {
            proof {
                lemma_first_is_unique(members_view(members@), key@, i as int);
            }
            let m = members.remove(i);
            assert(members_view(members@) =~= without_member(members_view(old(members)@), key@));
            Some(m.value)
        },
        None => None,
    }
}

} // verus!
