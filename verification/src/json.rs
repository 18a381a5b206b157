//! JSON values as the library builds and reads them.
//!
//! Numbers are kept as their JSON text. `Raw` holds JSON text that was
//! accepted by the JSON parser and is passed on as it is.
use vstd::prelude::*;

verus! {

/// A JSON value.
#[derive(Debug, PartialEq, Eq)]
pub enum Json {
    Null,
    Bool(bool),
    Number(String),
    Str(String),
    Array(Vec<Json>),
    Object(Vec<(String, Json)>),
    Raw(String),
}

/// The mathematical form of a JSON value.
pub enum JsonV {
    Null,
    Bool(bool),
    Number(Seq<char>),
    Str(Seq<char>),
    Array(Seq<JsonV>),
    Object(Seq<(Seq<char>, JsonV)>),
    Raw(Seq<char>),
}

/// The mathematical form of `j`.
pub open spec fn jv(j: Json) -> JsonV
    decreases j,
{
    match j {
        Json::Null => JsonV::Null,
        Json::Bool(b) => JsonV::Bool(b),
        Json::Number(n) => JsonV::Number(n@),
        Json::Str(s) => JsonV::Str(s@),
        Json::Array(items) => JsonV::Array(
            Seq::new(
                items@.len(),
                |i: int|
                    if 0 <= i < items@.len() {
                        jv(items@[i])
                    } else {
                        JsonV::Null
                    },
            ),
        ),
        Json::Object(entries) => JsonV::Object(
            Seq::new(
                entries@.len(),
                |i: int|
                    if 0 <= i < entries@.len() {
                        (entries@[i].0@, jv(entries@[i].1))
                    } else {
                        (Seq::empty(), JsonV::Null)
                    },
            ),
        ),
        Json::Raw(t) => JsonV::Raw(t@),
    }
}

impl View for Json {
    type V = JsonV;

    open spec fn view(&self) -> JsonV {
        jv(*self)
    }
}

/// The views of a list of values.
pub open spec fn jvs(items: Seq<Json>) -> Seq<JsonV> {
    Seq::new(items.len(), |i: int| jv(items[i]))
}

/// The views of a list of object entries.
pub open spec fn entries_view(entries: Seq<(String, Json)>) -> Seq<(Seq<char>, JsonV)> {
    Seq::new(entries.len(), |i: int| (entries[i].0@, jv(entries[i].1)))
}

pub proof fn lemma_array_view(items: Vec<Json>)
    ensures
        jv(Json::Array(items)) == JsonV::Array(jvs(items@)),
{
    let j = Json::Array(items);
    let v = jv(j);
    assert(v is Array);
    let s = v->Array_0;
    assert(s.len() == items@.len());
    assert forall|i: int| 0 <= i < s.len() implies s[i] == jvs(items@)[i] by {}
    assert(s =~= jvs(items@));
}

pub proof fn lemma_object_view(entries: Vec<(String, Json)>)
    ensures
        jv(Json::Object(entries)) == JsonV::Object(entries_view(entries@)),
{
    let j = Json::Object(entries);
    let v = jv(j);
    assert(v is Object);
    let s = v->Object_0;
    assert(s.len() == entries@.len());
    assert forall|i: int| 0 <= i < s.len() implies s[i] == entries_view(entries@)[i] by {}
    assert(s =~= entries_view(entries@));
}

/// The value stored under `key` in `entries`: the first entry with that key.
pub open spec fn lookup(entries: Seq<(Seq<char>, JsonV)>, key: Seq<char>) -> Option<JsonV>
    decreases entries.len(),
{
    if entries.len() == 0 {
        None
    } else if entries[0].0 == key {
        Some(entries[0].1)
    } else {
        lookup(entries.drop_first(), key)
    }
}

/// `Value::get(key)`: the member `key` of an object, `None` for anything else.
pub open spec fn get_key(v: JsonV, key: Seq<char>) -> Option<JsonV> {
    match v {
        JsonV::Object(entries) => lookup(entries, key),
        _ => None,
    }
}

/// `Value::as_str`: the text of a string value.
pub open spec fn as_text(v: Option<JsonV>) -> Option<Seq<char>> {
    match v {
        Some(JsonV::Str(s)) => Some(s),
        _ => None,
    }
}

/// A JSON string value.
pub fn json_str(s: &str) -> (r: Json)
    ensures
        r@ == JsonV::Str(s@),
{
    Json::Str(crate::text::from_chars(&crate::text::to_chars(s)))
}

/// A JSON number.
pub fn json_u64(n: u64) -> (r: Json)
    ensures
        r@ == JsonV::Number(crate::num::decimal(n as nat)),
{
    Json::Number(crate::num::u64_to_text(n))
}

/// The member `key` of `value`, when `value` is an object holding it.
pub fn get<'a>(value: &'a Json, key: &str) -> (r: Option<&'a Json>)
    ensures
        match (r, get_key(value@, key@)) {
            (Some(x), Some(y)) => x@ == y,
            (None, None) => true,
            _ => false,
        },
{
    match value {
        Json::Object(entries) => {
            proof {
                lemma_object_view(*entries);
            }
            let ghost all = entries_view(entries@);
            let mut i: usize = 0;
            assert(all.skip(0) =~= all);
            while i < entries.len()
                invariant
                    i <= entries@.len(),
                    all == entries_view(entries@),
                    get_key(value@, key@) == lookup(all, key@),
                    lookup(all, key@) == lookup(all.skip(i as int), key@),
                decreases entries@.len() - i,
            {
                proof {
                    assert(all.skip(i as int)[0] == (entries@[i as int].0@, jv(entries@[i as int].1)));
                    assert(all.skip(i as int).drop_first() =~= all.skip(i + 1));
                }
                if crate::text::chars_eq_str(&crate::text::to_chars(entries[i].0.as_str()), key) {
                    proof {
                        assert(all.skip(i as int)[0].0 == key@);
                        assert(lookup(all.skip(i as int), key@) == Some(jv(entries@[i as int].1)));
                    }
                    return Some(&entries[i].1);
                }
                i = i + 1;
            }
            None
        },
        _ => None,
    }
}

/// The text of `value` when it is a string.
pub fn as_str(value: Option<&Json>) -> (r: Option<&str>)
    ensures
        match (r, value) {
            (Some(s), Some(v)) => v@ == JsonV::Str(s@),
            (None, Some(v)) => !(v@ is Str),
            (None, None) => true,
            (Some(_), None) => false,
        },
{
    match value {
        Some(Json::Str(s)) => Some(s.as_str()),
        _ => None,
    }
}

/// `serde_json::from_str::<Value>(s)` followed by `Value::to_string`: the
/// compact text of the JSON value that `s` holds, `None` when `s` is not JSON.
pub uninterp spec fn json_reserialized(s: Seq<char>) -> Option<Seq<char>>;

/// Parses `s` as JSON with `serde_json` and writes the value back compactly.
/// Claimed: the result is the named result for `s`; nothing is claimed of
/// which texts parse or of the compact form.
#[verifier::external_body]
pub(crate) fn reserialize_json(s: &str) -> (r: Option<String>)
    ensures
        match (r, json_reserialized(s@)) {
            (Some(t), Some(u)) => t@ == u,
            (None, None) => true,
            _ => false,
        },
{
    serde_json::from_str::<serde_json::Value>(s).ok().map(|v| v.to_string())
}

/// The first index of an entry with key `k`.
pub open spec fn key_index(e: Seq<(Seq<char>, JsonV)>, k: Seq<char>) -> Option<int>
    decreases e.len(),
{
    if e.len() == 0 {
        None
    } else if e[0].0 == k {
        Some(0)
    } else {
        match key_index(e.drop_first(), k) {
            Some(i) => Some(i + 1),
            None => None,
        }
    }
}

/// `e` with the value under `k` set to `v`: the first entry with that key is
/// replaced, or a new entry is appended, as a map insertion does.
pub open spec fn upsert(e: Seq<(Seq<char>, JsonV)>, k: Seq<char>, v: JsonV) -> Seq<
    (Seq<char>, JsonV),
> {
    match key_index(e, k) {
        Some(i) => e.update(i, (k, v)),
        None => e.push((k, v)),
    }
}

/// `key_index` is `n` when no entry before `n` has the key and entry `n` has it
/// (or `n` is the length and none has it).
pub proof fn lemma_key_index_is(e: Seq<(Seq<char>, JsonV)>, k: Seq<char>, n: int)
    requires
        0 <= n <= e.len(),
        forall|j: int| 0 <= j < n ==> e[j].0 != k,
        n < e.len() ==> e[n].0 == k,
    ensures
        key_index(e, k) == (if n < e.len() {
            Some(n)
        } else {
            None::<int>
        }),
    decreases n,
{
    if e.len() > 0 && n > 0 {
        let t = e.drop_first();
        assert forall|j: int| 0 <= j < n - 1 implies t[j].0 != k by {
            assert(t[j] == e[j + 1]);
        }
        if n < e.len() {
            assert(t[n - 1] == e[n]);
        }
        lemma_key_index_is(t, k, n - 1);
    }
}

/// Sets the value under `key` in `entries`, keeping the first position of the key.
pub fn upsert_entry(entries: &mut Vec<(String, Json)>, key: String, value: Json)
    ensures
        entries_view(final(entries)@) == upsert(entries_view(old(entries)@), key@, value@),
{
    let ghost before = entries_view(entries@);
    let ghost kv = key@;
    let ghost vv = value@;
    let kc = crate::text::to_chars(key.as_str());
    let mut i: usize = 0;
    while i < entries.len()
        invariant
            i <= entries@.len(),
            before == entries_view(entries@),
            before == entries_view(old(entries)@),
            kc@ == kv,
            key@ == kv,
            value@ == vv,
            forall|j: int| 0 <= j < i ==> before[j].0 != kv,
        decreases entries@.len() - i,
    {
        if crate::text::chars_eq_str(&kc, entries[i].0.as_str()) {
            proof {
                lemma_key_index_is(before, kv, i as int);
            }
            entries.set(i, (key, value));
            assert(entries_view(entries@) =~= before.update(i as int, (kv, vv))) by {
                assert(entries@[i as int].0@ == kv);
                assert(jv(entries@[i as int].1) == vv);
            }
            return;
        }
        i = i + 1;
    }
    proof {
        lemma_key_index_is(before, kv, before.len() as int);
    }
    entries.push((key, value));
    assert(entries_view(entries@) =~= before.push((kv, vv)));
}


/// The member that `lookup` finds is the entry at `key_index`.
pub proof fn lemma_lookup_index(e: Seq<(Seq<char>, JsonV)>, k: Seq<char>)
    ensures
        match key_index(e, k) {
            Some(i) => 0 <= i < e.len() && e[i].0 == k && lookup(e, k) == Some(e[i].1),
            None => lookup(e, k) is None,
        },
    decreases e.len(),
{
    if e.len() > 0 && e[0].0 != k {
        lemma_lookup_index(e.drop_first(), k);
    }
}

} // verus!
