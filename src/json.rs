use vstd::prelude::*;

verus! {

/// A JSON value as the protocol engine handles it. A number keeps the text it
/// was written with, so that it passes through unchanged.
#[derive(Debug, PartialEq, Eq)]
pub enum Json {
    Null,
    Bool(bool),
    Number(String),
    Str(String),
    Array(Vec<Json>),
    Object(Vec<(String, Json)>),
}

/// The value stored under `key` in an object's member list: the first member
/// with that key, if any.
pub open spec fn field_of(fields: Seq<(String, Json)>, key: Seq<char>) -> Option<Json>
    decreases fields.len(),
{
    if fields.len() == 0 {
        None
    } else if fields[0].0@ == key {
        Some(fields[0].1)
    } else {
        field_of(fields.drop_first(), key)
    }
}

/// An optional member whose `null` counts as absent.
pub open spec fn present(o: Option<Json>) -> Option<Json> {
    match o {
        Some(Json::Null) => None,
        _ => o,
    }
}

/// The characters of `j` when it is a JSON string.
pub open spec fn string_value(j: Json) -> Option<Seq<char>> {
    match j {
        Json::Str(s) => Some(s@),
        _ => None,
    }
}

/// `j` is a JSON string holding exactly `s`.
pub open spec fn is_str(j: Json, s: Seq<char>) -> bool {
    string_value(j) == Some(s)
}

/// `j` is an object with no members.
pub open spec fn is_empty_object(j: Json) -> bool {
    match j {
        Json::Object(f) => f@.len() == 0,
        _ => false,
    }
}

/// Compares two strings by their characters.
pub fn eq_str(a: &str, b: &str) -> (r: bool)
    ensures
        r == (a@ == b@),
{
    String::from_str(a) == String::from_str(b)
}

/// The index of the first name in `names` equal to `key`.
fn position(names: &Vec<String>, key: &String) -> (r: Option<usize>)
    ensures
        match r {
            Some(j) => j < names@.len() && names@[j as int]@ == key@ && forall|i: int|
                0 <= i < j ==> names@[i]@ != key@,
            None => forall|i: int| 0 <= i < names@.len() ==> names@[i]@ != key@,
        },
{
    let mut j: usize = 0;
    while j < names.len()
        invariant
            j <= names@.len(),
            forall|i: int| 0 <= i < j ==> names@[i]@ != key@,
        decreases names@.len() - j,
    {
        if names[j] == *key {
            return Some(j);
        }
        j = j + 1;
    }
    None
}

/// Takes an object's members apart: entry `i` of the result is the value of
/// the member named `names[i]`, moved out of `fields`.
pub fn take_fields(fields: Vec<(String, Json)>, names: &Vec<String>) -> (r: Vec<Option<Json>>)
    requires
        forall|i: int, j: int|
            0 <= i < j < names@.len() ==> names@[i]@ != names@[j]@,
    ensures
        r@.len() == names@.len(),
        forall|i: int| 0 <= i < names@.len() ==> r@[i] == field_of(fields@, names@[i]@),
{
    let ghost orig = fields@;
    let mut fields = fields;
    let mut slots: Vec<Option<Json>> = Vec::new();
    let mut k: usize = 0;
    while k < names.len()
        invariant
            k <= names@.len(),
            slots@.len() == k,
            forall|i: int| 0 <= i < k ==> slots@[i] is None,
        decreases names@.len() - k,
    {
        slots.push(None);
        k = k + 1;
    }
    proof {
        assert(orig.subrange(orig.len() as int, orig.len() as int).len() == 0);
        assert(orig.subrange(0, orig.len() as int) =~= orig);
    }
    while fields.len() > 0
        invariant
            fields@ == orig.subrange(0, fields@.len() as int),
            fields@.len() <= orig.len(),
            slots@.len() == names@.len(),
            forall|i: int, j: int|
                0 <= i < j < names@.len() ==> names@[i]@ != names@[j]@,
            forall|i: int|
                0 <= i < names@.len() ==> slots@[i] == field_of(
                    orig.subrange(fields@.len() as int, orig.len() as int),
                    names@[i]@,
                ),
        decreases fields@.len(),
    {
        let ghost rest = orig.subrange(fields@.len() as int, orig.len() as int);
        let entry = fields.pop().unwrap();
        let ghost m = fields@.len() as int;
        let ghost tail = orig.subrange(m, orig.len() as int);
        proof {
            assert(entry == orig[m]);
            assert(fields@ =~= orig.subrange(0, m));
            assert(tail.drop_first() =~= rest);
            assert(tail[0] == entry);
        }
        let (key, value) = entry;
        match position(names, &key) {
            Some(j) => {
                slots.set(j, Some(value));
            },
            None => {},
        }
        proof {
            assert forall|i: int| 0 <= i < names@.len() implies slots@[i] == field_of(
                tail,
                names@[i]@,
            ) by {
                assert(tail.len() > 0);
            }
        }
    }
    proof {
        assert(orig.subrange(0, orig.len() as int) =~= orig);
    }
    slots
}

} // verus!
