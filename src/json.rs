//! A JSON value as the library reads it, and lookup of object members.
use vstd::prelude::*;

verus! {

/// A parsed JSON document.
///
/// Numbers are kept when they are integers in the range of `i64`; any other
/// number is `OtherNumber`, which no integer field of a record accepts.
#[derive(Debug)]
pub enum Json {
    Null,
    Bool(bool),
    Integer(i64),
    OtherNumber,
    Str(String),
    Array(Vec<Json>),
    Object(Vec<(String, Json)>),
}

/// The value of the first entry named `key`, if any.
pub open spec fn entry_value(entries: Seq<(String, Json)>, key: Seq<char>) -> Option<Json>
    decreases entries.len(),
{
    if entries.len() == 0 {
        None
    } else if entries[0].0@ == key {
        Some(entries[0].1)
    } else {
        entry_value(entries.drop_first(), key)
    }
}

/// The member `key` of an object, where a member holding `null` counts as absent.
pub open spec fn member(j: Json, key: Seq<char>) -> Option<Json> {
    match j {
        Json::Object(entries) => match entry_value(entries@, key) {
            Some(Json::Null) => None,
            v => v,
        },
        _ => None,
    }
}

proof fn lemma_entry_value_skip(entries: Seq<(String, Json)>, key: Seq<char>, i: int)
    requires
        0 <= i < entries.len(),
        entries[i].0@ != key,
    ensures
        entry_value(entries.skip(i), key) == entry_value(entries.skip(i + 1), key),
{
    assert(entries.skip(i).drop_first() =~= entries.skip(i + 1));
}

impl Json {
    /// The member `key` of this value, if it is an object that has one that is not `null`.
    pub fn member(&self, key: &str) -> (r: Option<&Json>)
        ensures
            match r {
                Some(v) => member(*self, key@) == Some(*v),
                None => member(*self, key@).is_none(),
            },
    {
        match self {
            Json::Object(entries) => {
                let k = String::from_str(key);
                let mut i: usize = 0;
                proof {
                    assert(entries@.skip(0) =~= entries@);
                }
                while i < entries.len()
                    invariant
                        0 <= i <= entries.len(),
                        k@ == key@,
                        *self == Json::Object(*entries),
                        entry_value(entries@.skip(i as int), key@) == entry_value(entries@, key@),
                    decreases entries.len() - i,
                {
                    let e = &entries[i];
                    proof {
                        assert(entries@.skip(i as int)[0] == entries@[i as int]);
                    }
                    if e.0 == k {
                        proof {
                            assert(entry_value(entries@, key@) == Some(e.1));
                        }
                        match &e.1 {
                            Json::Null => {
                                return None;
                            },
                            v => {
                                return Some(v);
                            },
                        }
                    }
                    proof {
                        lemma_entry_value_skip(entries@, key@, i as int);
                    }
                    i = i + 1;
                }
                None
            },
            _ => None,
        }
    }

    /// The value is an object.
    pub fn is_object(&self) -> (r: bool)
        ensures
            r == (*self is Object),
    {
        match self {
            Json::Object(_) => true,
            _ => false,
        }
    }
}

} // verus!
