use vstd::prelude::*;

verus! {

/// A JSON document as the controller reads it: the values that arrive from the
/// embedded engine and the values written to the window-state file.
#[derive(Debug, PartialEq)]
pub enum JsonValue {
    Null,
    Bool(bool),
    /// A number without fraction or exponent.
    Int(i128),
    /// Any other number, kept in its decimal text form.
    Decimal(String),
    Str(String),
    Array(Vec<JsonValue>),
    /// The members of an object, in document order.
    Object(Vec<(String, JsonValue)>),
}

/// Whether two strings hold the same characters.
pub fn str_equal(a: &str, b: &str) -> (r: bool)
    ensures
        r == (a@ == b@),
{
    let n: usize = a.unicode_len();
    if n != b.unicode_len() {
        return false;
    }
    let mut i: usize = 0;
    while i < n
        invariant
            n == a@.len(),
            n == b@.len(),
            0 <= i <= n,
            forall|j: int| 0 <= j < i ==> a@[j] == b@[j],
        decreases n - i,
    {
        if a.get_char(i) != b.get_char(i) {
            return false;
        }
        i = i + 1;
    }
    assert(a@ =~= b@);
    true
}

/// The position of the first member named `key`.
pub open spec fn key_position(members: Seq<(String, JsonValue)>, key: Seq<char>) -> Option<int>
    decreases members.len(),
{
    if members.len() == 0 {
        None
    } else {
        match key_position(members.drop_last(), key) {
            Some(i) => Some(i),
            None => if members.last().0@ == key {
                Some(members.len() - 1)
            } else {
                None
            },
        }
    }
}

/// The value of the first member named `key`, if `v` is an object that has one.
pub open spec fn field_spec(v: JsonValue, key: Seq<char>) -> Option<JsonValue> {
    match v {
        JsonValue::Object(members) => match key_position(members@, key) {
            Some(i) => Some(members@[i].1),
            None => None,
        },
        _ => None,
    }
}

proof fn lemma_key_position_bounds(members: Seq<(String, JsonValue)>, key: Seq<char>)
    ensures
        key_position(members, key) matches Some(i) ==> 0 <= i < members.len() && members[i].0@
            == key,
    decreases members.len(),
{
    if members.len() > 0 {
        lemma_key_position_bounds(members.drop_last(), key);
    }
}

proof fn lemma_key_position_prefix(members: Seq<(String, JsonValue)>, key: Seq<char>, n: int)
    requires
        0 <= n <= members.len(),
        key_position(members.subrange(0, n), key) is Some,
    ensures
        key_position(members, key) == key_position(members.subrange(0, n), key),
    decreases members.len(),
{
    if n < members.len() {
        assert(members.drop_last().subrange(0, n) =~= members.subrange(0, n));
        lemma_key_position_prefix(members.drop_last(), key, n);
    } else {
        assert(members.subrange(0, n) =~= members);
    }
}

/// The first member named `key` is the one that `key_position` gives.
pub proof fn lemma_key_position_first(members: Seq<(String, JsonValue)>, key: Seq<char>, i: int)
    requires
        0 <= i < members.len(),
        members[i].0@ == key,
        forall|j: int| 0 <= j < i ==> members[j].0@ != key,
    ensures
        key_position(members, key) == Some(i),
    decreases members.len(),
{
    if i < members.len() - 1 {
        lemma_key_position_first(members.drop_last(), key, i);
    } else {
        lemma_key_position_none(members.drop_last(), key);
    }
}

proof fn lemma_key_position_none(members: Seq<(String, JsonValue)>, key: Seq<char>)
    requires
        forall|j: int| 0 <= j < members.len() ==> members[j].0@ != key,
    ensures
        key_position(members, key) is None,
    decreases members.len(),
{
    if members.len() > 0 {
        lemma_key_position_none(members.drop_last(), key);
    }
}

/// Finds the first member named `key`.
pub fn find_member(members: &Vec<(String, JsonValue)>, key: &str) -> (r: Option<usize>)
    ensures
        r matches Some(i) ==> key_position(members@, key@) == Some(i as int),
        r is None ==> key_position(members@, key@) is None,
{
    let mut i: usize = 0;
    while i < members.len()
        invariant
            0 <= i <= members@.len(),
            key_position(members@.subrange(0, i as int), key@) is None,
        decreases members@.len() - i,
    {
        assert(members@.subrange(0, i as int + 1).drop_last() =~= members@.subrange(0, i as int));
        if str_equal(members[i].0.as_str(), key) {
            proof {
                lemma_key_position_prefix(members@, key@, i as int + 1);
            }
            return Some(i);
        }
        i = i + 1;
    }
    assert(members@.subrange(0, members@.len() as int) =~= members@);
    None
}

pub open spec fn i32_of(v: Option<JsonValue>) -> Option<i32> {
    match v {
        Some(JsonValue::Int(n)) => if i32::MIN <= n <= i32::MAX {
            Some(n as i32)
        } else {
            None
        },
        _ => None,
    }
}

pub open spec fn u32_of(v: Option<JsonValue>) -> Option<u32> {
    match v {
        Some(JsonValue::Int(n)) => if 0 <= n <= u32::MAX {
            Some(n as u32)
        } else {
            None
        },
        _ => None,
    }
}

pub open spec fn usize_of(v: Option<JsonValue>) -> Option<usize> {
    match v {
        Some(JsonValue::Int(n)) => if 0 <= n <= usize::MAX {
            Some(n as usize)
        } else {
            None
        },
        _ => None,
    }
}

pub open spec fn bool_of(v: Option<JsonValue>) -> Option<bool> {
    match v {
        Some(JsonValue::Bool(b)) => Some(b),
        _ => None,
    }
}

pub open spec fn string_of(v: Option<JsonValue>) -> Option<String> {
    match v {
        Some(JsonValue::Str(s)) => Some(s),
        _ => None,
    }
}

impl JsonValue {
    /// The value of the first member named `key`, if this is an object that has one.
    pub fn get(&self, key: &str) -> (r: Option<&JsonValue>)
        ensures
            r is Some == field_spec(*self, key@) is Some,
            r matches Some(x) ==> *x == field_spec(*self, key@)->0,
    {
        match self {
            JsonValue::Object(members) => match find_member(members, key) {
                Some(i) => {
                    proof {
                        lemma_key_position_bounds(members@, key@);
                    }
                    Some(&members[i].1)
                },
                None => None,
            },
            _ => None,
        }
    }

    /// Takes out the value of the first member named `key`, if this is an object
    /// that has one.
    pub fn take(self, key: &str) -> (r: Option<JsonValue>)
        ensures
            r == field_spec(self, key@),
    {
        match self {
            JsonValue::Object(mut members) => match find_member(&members, key) {
                Some(i) => {
                    proof {
                        lemma_key_position_bounds(members@, key@);
                    }
                    let (_, v) = members.remove(i);
                    Some(v)
                },
                None => None,
            },
            _ => None,
        }
    }

    /// The text of a string value.
    pub fn as_str(&self) -> (r: Option<&String>)
        ensures
            r is Some == self is Str,
            r matches Some(s) ==> self == &JsonValue::Str(*s),
    {
        match self {
            JsonValue::Str(s) => Some(s),
            _ => None,
        }
    }

    /// A boolean value.
    pub fn as_bool(&self) -> (r: Option<bool>)
        ensures
            r == (match self {
                JsonValue::Bool(b) => Some(*b),
                _ => None,
            }),
    {
        match self {
            JsonValue::Bool(b) => Some(*b),
            _ => None,
        }
    }

    /// An integer value, if it is an integer at all.
    pub open spec fn int_spec(&self) -> Option<int> {
        match self {
            JsonValue::Int(n) => Some(*n as int),
            _ => None,
        }
    }

    /// An integer value that fits in `u64`.
    pub fn as_u64(&self) -> (r: Option<u64>)
        ensures
            r == (match self.int_spec() {
                Some(n) => if 0 <= n <= u64::MAX {
                    Some(n as u64)
                } else {
                    None
                },
                None => None,
            }),
    {
        match self {
            JsonValue::Int(n) => if 0 <= *n && *n <= u64::MAX as i128 {
                Some(*n as u64)
            } else {
                None
            },
            _ => None,
        }
    }

    /// An integer value that fits in `usize`.
    pub fn as_usize(&self) -> (r: Option<usize>)
        ensures
            r == usize_of(Some(*self)),
    {
        match self {
            JsonValue::Int(n) => if 0 <= *n && *n <= usize::MAX as i128 {
                Some(*n as usize)
            } else {
                None
            },
            _ => None,
        }
    }

    /// An integer value that fits in `u32`.
    pub fn as_u32(&self) -> (r: Option<u32>)
        ensures
            r == (match self.int_spec() {
                Some(n) => if 0 <= n <= u32::MAX {
                    Some(n as u32)
                } else {
                    None
                },
                None => None,
            }),
    {
        match self {
            JsonValue::Int(n) => if 0 <= *n && *n <= u32::MAX as i128 {
                Some(*n as u32)
            } else {
                None
            },
            _ => None,
        }
    }

    /// An integer value that fits in `i32`.
    pub fn as_i32(&self) -> (r: Option<i32>)
        ensures
            r == (match self.int_spec() {
                Some(n) => if i32::MIN <= n <= i32::MAX {
                    Some(n as i32)
                } else {
                    None
                },
                None => None,
            }),
    {
        match self {
            JsonValue::Int(n) => if i32::MIN as i128 <= *n && *n <= i32::MAX as i128 {
                Some(*n as i32)
            } else {
                None
            },
            _ => None,
        }
    }
}

} // verus!
