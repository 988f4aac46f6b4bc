//! JSON values as the library reads and writes them.
//!
//! Numbers are whole numbers only: nothing in the library reads a number,
//! and the ones it writes are counts.

use vstd::prelude::*;
use crate::text::{owned, str_eq};

verus! {

/// What a JSON value is, as plain values.
pub enum JsonView {
    Null,
    Bool(bool),
    Integer(int),
    Text(Seq<char>),
    Array(Seq<JsonView>),
    /// The members of an object, in the order in which they were written.
    Object(Seq<(Seq<char>, JsonView)>),
}

/// The value of the first member called `key` among `members`.
pub open spec fn lookup(members: Seq<(Seq<char>, JsonView)>, key: Seq<char>) -> Option<JsonView>
    decreases members.len(),
{
    if members.len() == 0 {
        None
    } else if members[0].0 == key {
        Some(members[0].1)
    } else {
        lookup(members.drop_first(), key)
    }
}

impl JsonView {
    /// The member called `key`, where the value is an object that has one.
    pub open spec fn member(self, key: Seq<char>) -> Option<JsonView> {
        match self {
            JsonView::Object(members) => lookup(members, key),
            _ => None,
        }
    }

    /// The characters of the value, where it is a string.
    pub open spec fn text(self) -> Option<Seq<char>> {
        match self {
            JsonView::Text(s) => Some(s),
            _ => None,
        }
    }

    /// The items of the value, where it is an array.
    pub open spec fn items(self) -> Option<Seq<JsonView>> {
        match self {
            JsonView::Array(items) => Some(items),
            _ => None,
        }
    }

    /// The member called `key`, where the value is an object whose member
    /// of that name is an object itself.
    pub open spec fn object_at(self, key: Seq<char>) -> Option<JsonView> {
        match self.member(key) {
            Some(v) => if v is Object {
                Some(v)
            } else {
                None
            },
            None => None,
        }
    }

    /// The characters of the member called `key`, where the value is an
    /// object whose member of that name is a string.
    pub open spec fn text_at(self, key: Seq<char>) -> Option<Seq<char>> {
        match self.member(key) {
            Some(v) => v.text(),
            None => None,
        }
    }

    /// The items of the member called `key`, where the value is an object
    /// whose member of that name is an array.
    pub open spec fn items_at(self, key: Seq<char>) -> Option<Seq<JsonView>> {
        match self.member(key) {
            Some(v) => v.items(),
            None => None,
        }
    }
}

/// A JSON value.
#[derive(Debug)]
pub enum Json {
    Null,
    Bool(bool),
    Integer(i64),
    String(String),
    Array(Vec<Json>),
    Object(Vec<(String, Json)>),
}

/// The views of a list of values, in order.
pub open spec fn json_views(items: Seq<Json>) -> Seq<JsonView> {
    Seq::new(items.len(), |i: int| items[i]@)
}

/// The views of the members of an object, in order.
pub open spec fn member_views(members: Seq<(String, Json)>) -> Seq<(Seq<char>, JsonView)> {
    Seq::new(members.len(), |i: int| (members[i].0@, members[i].1@))
}

impl Json {
    /// The value as plain values.
    pub open spec fn view(&self) -> JsonView
        decreases self,
    {
        match self {
            Json::Null => JsonView::Null,
            Json::Bool(b) => JsonView::Bool(*b),
            Json::Integer(n) => JsonView::Integer(*n as int),
            Json::String(s) => JsonView::Text(s@),
            Json::Array(items) => JsonView::Array(
                Seq::new(
                    items@.len(),
                    |i: int|
                        if 0 <= i < items@.len() {
                            items@[i]@
                        } else {
                            JsonView::Null
                        },
                ),
            ),
            Json::Object(members) => JsonView::Object(
                Seq::new(
                    members@.len(),
                    |i: int|
                        if 0 <= i < members@.len() {
                            (members@[i].0@, members@[i].1@)
                        } else {
                            (Seq::empty(), JsonView::Null)
                        },
                ),
            ),
        }
    }

    /// A JSON string with the characters of `s`.
    pub fn text(s: &str) -> (r: Json)
        ensures
            r@ == JsonView::Text(s@),
    {
        Json::String(owned(s))
    }

    /// A JSON array of the given items.
    pub fn array(items: Vec<Json>) -> (r: Json)
        ensures
            r@ == JsonView::Array(json_views(items@)),
    {
        let r = Json::Array(items);
        assert(r@->Array_0 =~= json_views(items@));
        r
    }

    /// A JSON object of the given members.
    pub fn object(members: Vec<(String, Json)>) -> (r: Json)
        ensures
            r@ == JsonView::Object(member_views(members@)),
    {
        let r = Json::Object(members);
        assert(r@->Object_0 =~= member_views(members@));
        r
    }

    /// The member called `key`, where the value is an object that has one.
    pub fn member(&self, key: &str) -> (r: Option<&Json>)
        ensures
            r is Some <==> self@.member(key@) is Some,
            r matches Some(v) ==> Some(v@) == self@.member(key@),
    {
        match self {
            Json::Object(members) => {
                let ghost all = member_views(members@);
                assert(self@->Object_0 =~= all);
                let mut i: usize = 0;
                assert(all.subrange(0, all.len() as int) =~= all);
                while i < members.len()
                    invariant
                        i <= members@.len(),
                        all == member_views(members@),
                        self@.member(key@) == lookup(all, key@),
                        lookup(all, key@) == lookup(all.subrange(i as int, all.len() as int), key@),
                    decreases members@.len() - i,
                {
                    let ghost rest = all.subrange(i as int, all.len() as int);
                    assert(rest[0] == all[i as int]);
                    if str_eq(members[i].0.as_str(), key) {
                        return Some(&members[i].1);
                    }
                    assert(rest.drop_first() =~= all.subrange(i + 1, all.len() as int));
                    i += 1;
                }
                None
            },
            _ => None,
        }
    }

    /// The characters of the value, where it is a string.
    pub fn as_str(&self) -> (r: Option<&str>)
        ensures
            r is Some <==> self@.text() is Some,
            r matches Some(s) ==> Some(s@) == self@.text(),
    {
        match self {
            Json::String(s) => Some(s.as_str()),
            _ => None,
        }
    }

    /// The items of the value, where it is an array.
    pub fn as_array(&self) -> (r: Option<&Vec<Json>>)
        ensures
            r is Some <==> self@.items() is Some,
            r matches Some(items) ==> Some(json_views(items@)) == self@.items(),
    {
        match self {
            Json::Array(items) => {
                assert(self@->Array_0 =~= json_views(items@));
                Some(items)
            },
            _ => None,
        }
    }

    /// The member called `key`, where it is an object.
    pub fn object_at(&self, key: &str) -> (r: Option<&Json>)
        ensures
            r is Some <==> self@.object_at(key@) is Some,
            r matches Some(v) ==> Some(v@) == self@.object_at(key@),
    {
        match self.member(key) {
            Some(v) => match v {
                Json::Object(_) => Some(v),
                _ => None,
            },
            None => None,
        }
    }

    /// The characters of the member called `key`, where it is a string.
    pub fn str_at(&self, key: &str) -> (r: Option<&str>)
        ensures
            r is Some <==> self@.text_at(key@) is Some,
            r matches Some(s) ==> Some(s@) == self@.text_at(key@),
    {
        match self.member(key) {
            Some(v) => v.as_str(),
            None => None,
        }
    }

    /// The items of the member called `key`, where it is an array.
    pub fn array_at(&self, key: &str) -> (r: Option<&Vec<Json>>)
        ensures
            r is Some <==> self@.items_at(key@) is Some,
            r matches Some(items) ==> Some(json_views(items@)) == self@.items_at(key@),
    {
        match self.member(key) {
            Some(v) => v.as_array(),
            None => None,
        }
    }
}

} // verus!
