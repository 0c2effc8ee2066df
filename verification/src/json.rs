//! JSON documents as plain values.

use vstd::prelude::*;

verus! {

/// A parsed JSON document.
#[derive(Debug)]
pub enum JsonValue {
    Null,
    Bool(bool),
    /// A number, as the decimal text that `f64`'s `Display` writes for its
    /// value (what a JSON reader's `as_f64` gives, written out).
    Number(String),
    Str(String),
    Array(Vec<JsonValue>),
    /// The members of an object, in document order, keys distinct.
    Object(Vec<JsonMember>),
}

/// One `"key": value` member of a JSON object.
#[derive(Debug)]
pub struct JsonMember {
    pub key: String,
    pub value: JsonValue,
}

/// Index of the first member whose key is `key`.
pub open spec fn member_index(members: Seq<JsonMember>, key: Seq<char>) -> Option<int>
    decreases members.len(),
{
    if members.len() == 0 {
        None
    } else if members[0].key@ == key {
        Some(0)
    } else {
        match member_index(members.drop_first(), key) {
            Some(i) => Some(i + 1),
            None => None,
        }
    }
}

/// What `member_index` returns is the index of the first member with that key.
pub proof fn lemma_member_index(members: Seq<JsonMember>, key: Seq<char>)
    ensures
        match member_index(members, key) {
            Some(i) => 0 <= i < members.len() && members[i].key@ == key && forall|k: int|
                0 <= k < i ==> members[k].key@ != key,
            None => forall|k: int| 0 <= k < members.len() ==> members[k].key@ != key,
        },
    decreases members.len(),
{
    if members.len() > 0 {
        lemma_member_index(members.drop_first(), key);
        if members[0].key@ != key {
            assert forall|k: int| 1 <= k < members.len() implies members[k] == members.drop_first()[k - 1] by {}
        }
    }
}

/// The value of the member named `key`, when `v` is an object that has one.
pub open spec fn member(v: JsonValue, key: Seq<char>) -> Option<JsonValue> {
    match v {
        JsonValue::Object(members) => match member_index(members@, key) {
            Some(i) => Some(members@[i].value),
            None => None,
        },
        _ => None,
    }
}

impl JsonValue {
    /// The value of the member named `key`, when this is an object that has one.
    pub fn get(&self, key: &str) -> (r: Option<&JsonValue>)
        ensures
            match r {
                Some(x) => member(*self, key@) == Some(*x),
                None => member(*self, key@) is None,
            },
    {
        match self {
            JsonValue::Object(members) => {
                let k = key.to_owned();
                proof {
                    lemma_member_index(members@, key@);
                }
                let mut i: usize = 0;
                while i < members.len()
                    invariant
                        i <= members@.len(),
                        k@ == key@,
                        member(*self, key@) == match member_index(members@, key@) {
                            Some(x) => Some(members@[x].value),
                            None => None,
                        },
                        forall|j: int| 0 <= j < i ==> members@[j].key@ != key@,
                        match member_index(members@, key@) {
                            Some(x) => i <= x < members@.len() && members@[x].key@ == key@
                                && forall|j: int| 0 <= j < x ==> members@[j].key@ != key@,
                            None => forall|j: int|
                                0 <= j < members@.len() ==> members@[j].key@ != key@,
                        },
                    decreases members@.len() - i,
                {
                    if members[i].key == k {
                        return Some(&members[i].value);
                    }
                    i += 1;
                }
                None
            },
            _ => None,
        }
    }
}

/// A member's value is smaller than the object holding it.
pub proof fn lemma_member_decreases(v: JsonValue, key: Seq<char>)
    ensures
        member(v, key) matches Some(x) ==> decreases_to!(v => x),
{
    if let JsonValue::Object(members) = v {
        lemma_member_index(members@, key);
        if let Some(i) = member_index(members@, key) {
            assert(decreases_to!(v => members));
            assert(decreases_to!(members => members@));
            assert(decreases_to!(members@ => members@[i]));
            assert(decreases_to!(members@[i] => members@[i].value));
        }
    }
}

} // verus!
