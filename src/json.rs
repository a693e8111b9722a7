use vstd::prelude::*;

verus! {

/// A JSON value as the service sends and receives it. Objects keep their
/// entries in order; numbers that are not integers are kept as their text,
/// since the client never reads them.
#[derive(Debug, PartialEq)]
pub enum JsonValue {
    Null,
    Bool(bool),
    /// A non-negative integer.
    UInt(u64),
    /// A negative integer.
    Int(i64),
    /// Any other number, as written in the JSON text.
    Decimal(String),
    Str(String),
    Array(Vec<JsonValue>),
    Object(Vec<(String, JsonValue)>),
}

/// The value of the first entry named `key`, if any.
pub open spec fn entry_of(entries: Seq<(String, JsonValue)>, key: Seq<char>) -> Option<JsonValue>
    decreases entries.len(),
{
    if entries.len() == 0 {
        None
    } else if entries[0].0@ == key {
        Some(entries[0].1)
    } else {
        entry_of(entries.drop_first(), key)
    }
}

/// The field `key` of an object; nothing for any other value.
pub open spec fn field_of(v: JsonValue, key: Seq<char>) -> Option<JsonValue> {
    match v {
        JsonValue::Object(entries) => entry_of(entries@, key),
        _ => None,
    }
}

proof fn lemma_entry_of_skip(entries: Seq<(String, JsonValue)>, key: Seq<char>, i: int)
    requires
        0 <= i < entries.len(),
        entries[i].0@ != key,
    ensures
        entry_of(entries.subrange(i, entries.len() as int), key) == entry_of(
            entries.subrange(i + 1, entries.len() as int),
            key,
        ),
{
    assert(entries.subrange(i, entries.len() as int).drop_first() =~= entries.subrange(
        i + 1,
        entries.len() as int,
    ));
}

/// The lookup finds the first entry that carries the key.
pub proof fn lemma_entry_of_first(entries: Seq<(String, JsonValue)>, key: Seq<char>, i: int)
    requires
        0 <= i < entries.len(),
        entries[i].0@ == key,
        forall|j: int| 0 <= j < i ==> (#[trigger] entries[j]).0@ != key,
    ensures
        entry_of(entries, key) == Some(entries[i].1),
    decreases i,
{
    if i > 0 {
        let rest = entries.drop_first();
        assert forall|j: int| 0 <= j < i - 1 implies (#[trigger] rest[j]).0@ != key by {
            assert(rest[j] == entries[j + 1]);
        }
        lemma_entry_of_first(rest, key, i - 1);
    }
}

/// Takes the field `key` out of an object, consuming it.
pub fn take_field(v: JsonValue, key: &str) -> (r: Option<JsonValue>)
    ensures
        r == field_of(v, key@),
{
    match v {
        JsonValue::Object(entries) => {
            let ghost all = entries@;
            let mut entries = entries;
            let name = String::from_str(key);
            let n = entries.len();
            let mut i: usize = 0;
            assert(all.subrange(0, n as int) =~= all);
            while i < n
                invariant
                    entries@ == all,
                    n == all.len(),
                    0 <= i <= n,
                    name@ == key@,
                    field_of(v, key@) == entry_of(all.subrange(i as int, n as int), key@),
                decreases n - i,
            {
                if entries[i].0 == name {
                    assert(all.subrange(i as int, n as int)[0] == all[i as int]);
                    let (_, found) = entries.remove(i);
                    return Some(found);
                }
                proof {
                    lemma_entry_of_skip(all, key@, i as int);
                }
                i = i + 1;
            }
            None
        },
        _ => None,
    }
}

} // verus!
