//! JSON documents as the node sends them, and how the client's records are
//! read out of them.
//!
//! The transport hands the library a document that it has already parsed; this
//! module holds that document as a tree and looks values up in it.

use vstd::prelude::*;
use vstd::string::*;
use crate::decimal::{parse_u64, read_u64};

verus! {

/// A JSON document.
#[derive(Debug)]
pub enum Json {
    /// `null`.
    Null,
    /// `true` or `false`.
    Bool(bool),
    /// A number, held as the text that writes it.
    Number(String),
    /// A string.
    Text(String),
    /// An array, in order.
    List(Vec<Json>),
    /// An object: its members in order, each a name and a value.
    Object(Vec<(String, Json)>),
}

/// The value of the first of `members` that is called `name`.
pub open spec fn lookup(members: Seq<(String, Json)>, name: Seq<char>) -> Option<Json>
    decreases members.len(),
{
    if members.len() == 0 {
        None
    } else if members[0].0@ == name {
        Some(members[0].1)
    } else {
        lookup(members.drop_first(), name)
    }
}

/// A lookup finds the member at `k` where that one has the name and none
/// before it has.
pub proof fn lemma_lookup_at(members: Seq<(String, Json)>, name: Seq<char>, k: int)
    requires
        0 <= k < members.len(),
        members[k].0@ == name,
        forall|j: int| 0 <= j < k ==> members[j].0@ != name,
    ensures
        lookup(members, name) == Some(members[k].1),
    decreases k,
{
    if k > 0 {
        let rest = members.drop_first();
        assert(rest[k - 1] == members[k]);
        assert forall|j: int| 0 <= j < k - 1 implies rest[j].0@ != name by {
            assert(rest[j] == members[j + 1]);
        }
        lemma_lookup_at(rest, name, k - 1);
    }
}

/// The view of each record of a list.
pub open spec fn views<T: View>(records: Seq<T>) -> Seq<T::V> {
    records.map_values(|record: T| record@)
}

/// A record that can be read out of a JSON document.
///
/// `parsed` says, as a view, which record a document holds, if it holds one;
/// `from_json` reads it.
pub trait FromJson: View + Sized {
    /// The record that `json` holds, or nothing where `json` has not its shape.
    spec fn parsed(json: Json) -> Option<Self::V>;

    /// Reads the record that `json` holds.
    fn from_json(json: &Json) -> (r: Option<Self>)
        ensures
            match r {
                Some(record) => Self::parsed(*json) == Some(record@),
                None => Self::parsed(*json) is None,
            },
    ;
}

/// The records that the documents `items` hold, in order, or nothing where one
/// of them holds none.
pub open spec fn parsed_items<T: FromJson>(items: Seq<Json>) -> Option<Seq<T::V>>
    decreases items.len(),
{
    if items.len() == 0 {
        Some(Seq::empty())
    } else {
        match (parsed_items::<T>(items.drop_last()), T::parsed(items.last())) {
            (Some(front), Some(last)) => Some(front.push(last)),
            _ => None,
        }
    }
}

/// Where one document of a list holds no record, the list holds none.
pub proof fn lemma_parsed_items_none<T: FromJson>(items: Seq<Json>, k: int)
    requires
        0 <= k < items.len(),
        T::parsed(items[k]) is None,
    ensures
        parsed_items::<T>(items) is None,
    decreases items.len(),
{
    if k < items.len() - 1 {
        lemma_parsed_items_none::<T>(items.drop_last(), k);
    }
}

impl Json {
    /// The member called `name`, where this is an object that has one.
    pub open spec fn member(self, name: Seq<char>) -> Option<Json> {
        match self {
            Json::Object(members) => lookup(members@, name),
            _ => None,
        }
    }

    /// The characters of this string; nothing for any other document.
    pub open spec fn text(self) -> Option<Seq<char>> {
        match self {
            Json::Text(text) => Some(text@),
            _ => None,
        }
    }

    /// The documents of this array; nothing for any other document.
    pub open spec fn items(self) -> Option<Seq<Json>> {
        match self {
            Json::List(items) => Some(items@),
            _ => None,
        }
    }

    /// The characters of the string member called `name`.
    pub open spec fn text_member(self, name: Seq<char>) -> Option<Seq<char>> {
        match self.member(name) {
            Some(value) => value.text(),
            None => None,
        }
    }

    /// The number that the string member called `name` writes in decimal.
    pub open spec fn u64_member(self, name: Seq<char>) -> Option<u64> {
        match self.text_member(name) {
            Some(text) => parse_u64(text),
            None => None,
        }
    }

    /// The record that the member called `name` holds.
    pub open spec fn record_member<T: FromJson>(self, name: Seq<char>) -> Option<T::V> {
        match self.member(name) {
            Some(value) => T::parsed(value),
            None => None,
        }
    }

    /// The records that the array member called `name` holds, in order.
    pub open spec fn list_member<T: FromJson>(self, name: Seq<char>) -> Option<Seq<T::V>> {
        match self.member(name) {
            Some(value) => match value.items() {
                Some(items) => parsed_items::<T>(items),
                None => None,
            },
            None => None,
        }
    }

    /// The number below 256 that this JSON number writes in plain digits;
    /// nothing for a string, a fraction, a negative or a larger number.
    pub open spec fn small_number(self) -> Option<u8> {
        match self {
            Json::Number(text) => if text@.len() > 0 && text@[0] != '+' {
                match parse_u64(text@) {
                    Some(n) => if n <= u8::MAX {
                        Some(n as u8)
                    } else {
                        None
                    },
                    None => None,
                }
            } else {
                None
            },
            _ => None,
        }
    }

    /// Looks up the member called `name`.
    pub fn get(&self, name: &str) -> (r: Option<&Json>)
        ensures
            match r {
                Some(value) => self.member(name@) == Some(*value),
                None => self.member(name@) is None,
            },
    {
        match self {
            Json::Object(members) => {
                let wanted = String::from_str(name);
                let mut i: usize = 0;
                assert(members@.skip(0) =~= members@);
                while i < members.len()
                    invariant
                        i <= members.len(),
                        wanted@ == name@,
                        self.member(name@) == lookup(members@.skip(i as int), name@),
                    decreases members.len() - i,
                {
                    assert(members@.skip(i as int)[0] == members@[i as int]);
                    if members[i].0 == wanted {
                        return Some(&members[i].1);
                    }
                    assert(members@.skip(i as int).drop_first() =~= members@.skip(i as int + 1));
                    i = i + 1;
                }
                None
            },
            _ => None,
        }
    }

    /// The string that this document is.
    pub fn as_text(&self) -> (r: Option<&String>)
        ensures
            match r {
                Some(text) => self.text() == Some(text@),
                None => self.text() is None,
            },
    {
        match self {
            Json::Text(text) => Some(text),
            _ => None,
        }
    }

    /// The array that this document is.
    pub fn as_list(&self) -> (r: Option<&Vec<Json>>)
        ensures
            match r {
                Some(items) => self.items() == Some(items@),
                None => self.items() is None,
            },
    {
        match self {
            Json::List(items) => Some(items),
            _ => None,
        }
    }

    /// The string member called `name`.
    pub fn get_text(&self, name: &str) -> (r: Option<&String>)
        ensures
            match r {
                Some(text) => self.text_member(name@) == Some(text@),
                None => self.text_member(name@) is None,
            },
    {
        match self.get(name) {
            Some(value) => value.as_text(),
            None => None,
        }
    }

    /// A copy of the string member called `name`.
    pub fn get_string(&self, name: &str) -> (r: Option<String>)
        ensures
            match r {
                Some(text) => self.text_member(name@) == Some(text@),
                None => self.text_member(name@) is None,
            },
    {
        match self.get_text(name) {
            Some(text) => Some(text.clone()),
            None => None,
        }
    }

    /// The number that the string member called `name` writes in decimal.
    pub fn get_u64(&self, name: &str) -> (r: Option<u64>)
        ensures
            r == self.u64_member(name@),
    {
        match self.get_text(name) {
            Some(text) => read_u64(text.as_str()),
            None => None,
        }
    }

    /// Reads the record that the member called `name` holds.
    pub fn get_record<T: FromJson>(&self, name: &str) -> (r: Option<T>)
        ensures
            match r {
                Some(record) => self.record_member::<T>(name@) == Some(record@),
                None => self.record_member::<T>(name@) is None,
            },
    {
        match self.get(name) {
            Some(value) => T::from_json(value),
            None => None,
        }
    }

    /// Reads the records that the array member called `name` holds.
    pub fn get_list<T: FromJson>(&self, name: &str) -> (r: Option<Vec<T>>)
        ensures
            match r {
                Some(records) => self.list_member::<T>(name@) == Some(views(records@)),
                None => self.list_member::<T>(name@) is None,
            },
    {
        match self.get(name) {
            Some(value) => value.read_list::<T>(),
            None => None,
        }
    }

    /// The number below 256 that this JSON number writes.
    pub fn as_small_number(&self) -> (r: Option<u8>)
        ensures
            r == self.small_number(),
    {
        match self {
            Json::Number(text) => {
                let digits = text.as_str();
                if digits.unicode_len() == 0 || digits.get_char(0) == '+' {
                    return None;
                }
                match read_u64(digits) {
                    Some(n) => if n <= 255 {
                        Some(n as u8)
                    } else {
                        None
                    },
                    None => None,
                }
            },
            _ => None,
        }
    }

    /// Reads every document of this array as a record of one kind.
    pub fn read_list<T: FromJson>(&self) -> (r: Option<Vec<T>>)
        ensures
            match r {
                Some(records) => self.items() is Some && parsed_items::<T>(self.items().unwrap())
                    == Some(views(records@)),
                None => self.items() is None || parsed_items::<T>(self.items().unwrap()) is None,
            },
    {
        match self {
            Json::List(items) => {
                let mut records: Vec<T> = Vec::new();
                let mut i: usize = 0;
                assert(items@.take(0) =~= Seq::<Json>::empty());
                assert(views(records@) =~= Seq::<T::V>::empty());
                while i < items.len()
                    invariant
                        i <= items.len(),
                        self.items() == Some(items@),
                        parsed_items::<T>(items@.take(i as int)) == Some(views(records@)),
                    decreases items.len() - i,
                {
                    match T::from_json(&items[i]) {
                        Some(record) => {
                            proof {
                                let next = items@.take(i as int + 1);
                                assert(next.drop_last() =~= items@.take(i as int));
                                assert(next.last() == items@[i as int]);
                                assert(views(records@.push(record)) =~= views(records@).push(
                                    record@,
                                ));
                            }
                            records.push(record);
                        },
                        None => {
                            proof {
                                lemma_parsed_items_none::<T>(items@, i as int);
                            }
                            return None;
                        },
                    }
                    i = i + 1;
                }
                assert(items@.take(items.len() as int) =~= items@);
                Some(records)
            },
            _ => None,
        }
    }
}

} // verus!
