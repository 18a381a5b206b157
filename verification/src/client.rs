//! What the GitCode REST client decides: request bodies, query strings,
//! headers, endpoints, pagination and the messages of failed requests.
use vstd::prelude::*;
use crate::error::GdError;
use crate::json::{Json, JsonV, as_text, entries_view, get_key, jv, jvs, upsert, upsert_entry};
use crate::num::{all_digits, decimal, digits_value};
use crate::text::{
    has_sub, append_str, from_chars, has_prefix, is_blank, split_all, split_once, to_chars, trim,
    trim_end_char, trim_start_char,
};
use crate::weburl::{url_join_text, url_parses, url_text};
use vstd::string::StringSliceAdditionalSpecFns;

verus! {

/// An HTTP method.
#[derive(Debug, Clone, Copy, PartialEq, Eq, Structural)]
pub enum HttpMethod {
    Get,
    Post,
    Patch,
    Put,
    Delete,
}

/// A request to send: method, endpoint (a path under the api base, or an
/// absolute URL), query pairs and an optional JSON body.
#[derive(Debug, PartialEq, Eq)]
pub struct Request {
    pub method: HttpMethod,
    pub endpoint: String,
    pub query: Vec<(String, String)>,
    pub body: Option<Json>,
}

/// The pairs whose value is not empty, in order.
pub open spec fn nonempty_pairs(q: Seq<(Seq<char>, Seq<char>)>) -> Seq<(Seq<char>, Seq<char>)>
    decreases q.len(),
{
    if q.len() == 0 {
        seq![]
    } else if q.last().1.len() == 0 {
        nonempty_pairs(q.drop_last())
    } else {
        nonempty_pairs(q.drop_last()).push(q.last())
    }
}

/// The body of a request, as a value.
pub open spec fn body_view(b: Option<Json>) -> Option<JsonV> {
    match b {
        Some(j) => Some(j@),
        None => None,
    }
}

impl Request {
    /// A request; query pairs with an empty value are left out, as the
    /// client leaves them out of the URL.
    pub fn new(method: HttpMethod, endpoint: String, query: Vec<(String, String)>, body: Option<
        Json,
    >) -> (r: Request)
        ensures
            r.method == method,
            r.endpoint@ == endpoint@,
            r.query.deep_view() == nonempty_pairs(query.deep_view()),
            body_view(r.body) == body_view(body),
    {
        let ghost all = query.deep_view();
        let mut kept: Vec<(String, String)> = Vec::new();
        let mut i: usize = 0;
        assert(all.take(0) =~= Seq::<(Seq<char>, Seq<char>)>::empty());
        assert(kept.deep_view() =~= Seq::<(Seq<char>, Seq<char>)>::empty());
        while i < query.len()
            invariant
                i <= query@.len(),
                all == query.deep_view(),
                kept.deep_view() == nonempty_pairs(all.take(i as int)),
            decreases query@.len() - i,
        {
            assert(all.take(i + 1).drop_last() =~= all.take(i as int));
            assert(all.take(i + 1).last() == all[i as int]);
            if query[i].1.as_str().unicode_len() > 0 {
                let ghost before = kept.deep_view();
                let a = from_chars(&to_chars(query[i].0.as_str()));
                let b = from_chars(&to_chars(query[i].1.as_str()));
                let ghost p = (a@, b@);
                kept.push((a, b));
                assert(kept.deep_view() =~= before.push(p));
            } else {
                assert(all[i as int].1.len() == 0);
            }
            i = i + 1;
        }
        assert(all.take(all.len() as int) =~= all);
        Request { method, endpoint, query: kept, body }
    }
}

/// A request of `gd api`.
#[derive(Debug, Clone, PartialEq, Eq)]
pub struct ApiRequest {
    pub method: String,
    pub endpoint: String,
    pub headers: Vec<String>,
    pub raw_fields: Vec<String>,
    pub fields: Vec<String>,
    pub input: Option<String>,
    pub paginate: bool,
}

/// Splits `key=value` at its first `=`.
pub fn split_field(field: &str) -> (r: Result<(String, String), GdError>)
    ensures
        match (r, split_once(field@, '=')) {
            (Ok((k, v)), Some((a, b))) => k@ == a && v@ == b,
            (Err(e), None) => e matches GdError::FieldForm { field: f } && f@ == field@,
            _ => false,
        },
{
    match crate::text::split_once_chars(&to_chars(field), '=') {
        Some((k, v)) => Ok((from_chars(&k), from_chars(&v))),
        None => Err(GdError::FieldForm { field: from_chars(&to_chars(field)) }),
    }
}

/// The integer that `s` writes as `i64::from_str` reads it: an optional
/// sign, then decimal digits, within the range of `i64`.
pub open spec fn int_value(s: Seq<char>) -> Option<int> {
    if s.len() > 0 && (s[0] == '+' || s[0] == '-') {
        let d = s.skip(1);
        if d.len() > 0 && all_digits(d) {
            let n = if s[0] == '-' {
                -(digits_value(d) as int)
            } else {
                digits_value(d) as int
            };
            if i64::MIN <= n <= i64::MAX {
                Some(n)
            } else {
                None
            }
        } else {
            None
        }
    } else if s.len() > 0 && all_digits(s) && digits_value(s) <= i64::MAX {
        Some(digits_value(s) as int)
    } else {
        None
    }
}

/// The decimal text of an integer, with `-` when it is negative.
pub open spec fn int_text(n: int) -> Seq<char> {
    if n < 0 {
        "-"@ + decimal((-n) as nat)
    } else {
        decimal(n as nat)
    }
}

/// The values of optional JSON values.
pub open spec fn json_opt(o: Option<Json>) -> Option<JsonV> {
    match o {
        Some(j) => Some(j@),
        None => None,
    }
}

/// A typed field value: `true`, `false` and `null` are themselves, an
/// integer is a number, else the float reading of the text when there is one
/// (`float`), else the text as a string.
pub open spec fn typed_value(v: Seq<char>, float: Option<JsonV>) -> JsonV {
    if v == "true"@ {
        JsonV::Bool(true)
    } else if v == "false"@ {
        JsonV::Bool(false)
    } else if v == "null"@ {
        JsonV::Null
    } else {
        match int_value(v) {
            Some(n) => JsonV::Number(int_text(n)),
            None => match float {
                Some(f) => f,
                None => JsonV::Str(v),
            },
        }
    }
}

/// The decimal text of the integer that `s` writes, when it writes one.
fn int_text_of(s: &str) -> (r: Option<String>)
    ensures
        match (r, int_value(s@)) {
            (Some(t), Some(n)) => t@ == int_text(n),
            (None, None) => true,
            _ => false,
        },
{
    let c = to_chars(s);
    if c.len() > 0 && (c[0] == '+' || c[0] == '-') {
        let d = crate::text::slice_chars(&c, 1, c.len());
        assert(d@ == s@.skip(1));
        if d.len() == 0 {
            return None;
        }
        let m = match crate::num::parse_u64_digits(&d) {
            Some(m) => m,
            None => {
                assert(!all_digits(d@) || digits_value(d@) > u64::MAX);
                return None;
            },
        };
        if c[0] == '-' {
            if m > 9223372036854775808 {
                return None;
            }
            if m == 0 {
                return Some(crate::num::u64_to_text(0));
            }
            let mut out = to_chars("-");
            let t = crate::num::u64_to_text(m);
            append_str(&mut out, t.as_str());
            Some(from_chars(&out))
        } else {
            if m > 9223372036854775807 {
                return None;
            }
            Some(crate::num::u64_to_text(m))
        }
    } else {
        match crate::num::parse_u64_digits(&c) {
            Some(m) => if m <= 9223372036854775807 {
                Some(crate::num::u64_to_text(m))
            } else {
                None
            },
            None => None,
        }
    }
}

/// The JSON value of a typed field value `value`; `float_value` is what
/// reading `value` as a floating point number gives, when it reads as one.
pub fn parse_typed_value(value: &str, float_value: Option<Json>) -> (r: Json)
    ensures
        r@ == typed_value(value@, json_opt(float_value)),
{
    let c = to_chars(value);
    if crate::text::chars_eq_str(&c, "true") {
        Json::Bool(true)
    } else if crate::text::chars_eq_str(&c, "false") {
        Json::Bool(false)
    } else if crate::text::chars_eq_str(&c, "null") {
        Json::Null
    } else {
        match int_text_of(value) {
            Some(t) => Json::Number(t),
            None => match float_value {
                Some(f) => f,
                None => Json::Str(from_chars(&c)),
            },
        }
    }
}

/// `e` with the raw fields `fields` set as strings, in order; the first
/// field without `=` is the error.
pub open spec fn with_raw_fields(e: Seq<(Seq<char>, JsonV)>, fields: Seq<Seq<char>>) -> Result<
    Seq<(Seq<char>, JsonV)>,
    Seq<char>,
>
    decreases fields.len(),
{
    if fields.len() == 0 {
        Ok(e)
    } else {
        match with_raw_fields(e, fields.drop_last()) {
            Err(f) => Err(f),
            Ok(e2) => match split_once(fields.last(), '=') {
                None => Err(fields.last()),
                Some((k, v)) => Ok(upsert(e2, k, JsonV::Str(v))),
            },
        }
    }
}

/// `e` with the typed fields set, each with its float reading.
pub open spec fn with_typed_fields(
    e: Seq<(Seq<char>, JsonV)>,
    fields: Seq<(Seq<char>, Option<JsonV>)>,
) -> Result<Seq<(Seq<char>, JsonV)>, Seq<char>>
    decreases fields.len(),
{
    if fields.len() == 0 {
        Ok(e)
    } else {
        match with_typed_fields(e, fields.drop_last()) {
            Err(f) => Err(f),
            Ok(e2) => match split_once(fields.last().0, '=') {
                None => Err(fields.last().0),
                Some((k, v)) => Ok(upsert(e2, k, typed_value(v, fields.last().1))),
            },
        }
    }
}

/// The typed fields with their float readings, as values.
pub open spec fn typed_view(fields: Seq<(String, Option<Json>)>) -> Seq<(Seq<char>, Option<JsonV>)> {
    Seq::new(fields.len(), |i: int| (fields[i].0@, json_opt(fields[i].1)))
}

/// The body of `gd api` built from fields: none without fields; else an
/// object with the raw fields as strings and then the typed fields as typed
/// values, a later field replacing an earlier one of the same key.
pub open spec fn api_fields_body(raw: Seq<Seq<char>>, typed: Seq<(Seq<char>, Option<JsonV>)>) -> Result<
    Option<JsonV>,
    Seq<char>,
> {
    if raw.len() == 0 && typed.len() == 0 {
        Ok(None)
    } else {
        match with_raw_fields(seq![], raw) {
            Err(f) => Err(f),
            Ok(e1) => match with_typed_fields(e1, typed) {
                Err(f) => Err(f),
                Ok(e2) => Ok(Some(JsonV::Object(e2))),
            },
        }
    }
}

/// The body of `gd api` built from `-f` fields (`raw_fields`) and `-F`
/// fields (`typed_fields`, each with the float reading of its value).
pub fn api_body(raw_fields: &Vec<String>, typed_fields: &Vec<(String, Option<Json>)>) -> (r: Result<
    Option<Json>,
    GdError,
>)
    ensures
        match (r, api_fields_body(raw_fields.deep_view(), typed_view(typed_fields@))) {
            (Ok(Some(j)), Ok(Some(v))) => j@ == v,
            (Ok(None), Ok(None)) => true,
            (Err(e), Err(f)) => e matches GdError::FieldForm { field } && field@ == f,
            _ => false,
        },
{
    if raw_fields.len() == 0 && typed_fields.len() == 0 {
        return Ok(None);
    }
    let ghost raw = raw_fields.deep_view();
    let ghost typed = typed_view(typed_fields@);
    let mut entries: Vec<(String, Json)> = Vec::new();
    let mut i: usize = 0;
    assert(raw.take(0) =~= Seq::<Seq<char>>::empty());
    assert(entries_view(entries@) =~= Seq::<(Seq<char>, JsonV)>::empty());
    while i < raw_fields.len()
        invariant
            i <= raw_fields@.len(),
            raw == raw_fields.deep_view(),
            with_raw_fields(seq![], raw.take(i as int)) == Ok::<
                Seq<(Seq<char>, JsonV)>,
                Seq<char>,
            >(entries_view(entries@)),
        decreases raw_fields@.len() - i,
    {
        assert(raw.take(i + 1).drop_last() =~= raw.take(i as int));
        assert(raw.take(i + 1).last() == raw_fields@[i as int]@);
        match split_field(raw_fields[i].as_str()) {
            Ok((k, v)) => {
                upsert_entry(&mut entries, k, Json::Str(v));
            },
            Err(e) => {
                proof {
                    lemma_raw_fail(raw, i as int);
                }
                return Err(e);
            },
        }
        i = i + 1;
    }
    assert(raw.take(raw.len() as int) =~= raw);
    let mut j: usize = 0;
    assert(typed.take(0) =~= Seq::<(Seq<char>, Option<JsonV>)>::empty());
    let ghost e1 = entries_view(entries@);
    while j < typed_fields.len()
        invariant
            j <= typed_fields@.len(),
            typed == typed_view(typed_fields@),
            raw == raw_fields.deep_view(),
            with_raw_fields(seq![], raw) == Ok::<Seq<(Seq<char>, JsonV)>, Seq<char>>(e1),
            with_typed_fields(e1, typed.take(j as int)) == Ok::<
                Seq<(Seq<char>, JsonV)>,
                Seq<char>,
            >(entries_view(entries@)),
        decreases typed_fields@.len() - j,
    {
        assert(typed.take(j + 1).drop_last() =~= typed.take(j as int));
        assert(typed.take(j + 1).last() == typed[j as int]);
        let f = &typed_fields[j];
        match split_field(f.0.as_str()) {
            Ok((k, v)) => {
                let fv = match &f.1 {
                    Some(x) => Some(copy_json(x)),
                    None => None,
                };
                let value = parse_typed_value(v.as_str(), fv);
                upsert_entry(&mut entries, k, value);
            },
            Err(e) => {
                proof {
                    lemma_typed_fail(e1, typed, j as int);
                    assert(typed[j as int].0 == typed_fields@[j as int].0@);
                    assert(with_typed_fields(e1, typed) is Err);
                    assert(api_fields_body(raw, typed) == Err::<Option<JsonV>, Seq<char>>(typed[j as int].0));
                }
                return Err(e);
            },
        }
        j = j + 1;
    }
    assert(typed.take(typed.len() as int) =~= typed);
    proof {
        crate::json::lemma_object_view(entries);
    }
    Ok(Some(Json::Object(entries)))
}

proof fn lemma_raw_fail(raw: Seq<Seq<char>>, i: int)
    requires
        0 <= i < raw.len(),
        with_raw_fields(seq![], raw.take(i)) is Ok,
        split_once(raw[i], '=') is None,
    ensures
        with_raw_fields(seq![], raw) == Err::<Seq<(Seq<char>, JsonV)>, Seq<char>>(raw[i]),
    decreases raw.len() - i,
{
    assert(raw.take(i + 1).drop_last() =~= raw.take(i));
    assert(raw.take(i + 1).last() == raw[i]);
    if i + 1 < raw.len() {
        lemma_raw_fail_extend(raw, i, i + 1);
    } else {
        assert(raw.take(i + 1) =~= raw);
    }
}

proof fn lemma_raw_fail_extend(raw: Seq<Seq<char>>, i: int, k: int)
    requires
        0 <= i < k <= raw.len(),
        with_raw_fields(seq![], raw.take(k)) == Err::<Seq<(Seq<char>, JsonV)>, Seq<char>>(raw[i]),
    ensures
        with_raw_fields(seq![], raw) == Err::<Seq<(Seq<char>, JsonV)>, Seq<char>>(raw[i]),
    decreases raw.len() - k,
{
    if k < raw.len() {
        assert(raw.take(k + 1).drop_last() =~= raw.take(k));
        lemma_raw_fail_extend(raw, i, k + 1);
    } else {
        assert(raw.take(k) =~= raw);
    }
}

proof fn lemma_typed_fail(e: Seq<(Seq<char>, JsonV)>, typed: Seq<(Seq<char>, Option<JsonV>)>, j: int)
    requires
        0 <= j < typed.len(),
        with_typed_fields(e, typed.take(j)) is Ok,
        split_once(typed[j].0, '=') is None,
    ensures
        with_typed_fields(e, typed) == Err::<Seq<(Seq<char>, JsonV)>, Seq<char>>(typed[j].0),
    decreases typed.len() - j,
{
    assert(typed.take(j + 1).drop_last() =~= typed.take(j));
    assert(typed.take(j + 1).last() == typed[j]);
    lemma_typed_fail_extend(e, typed, j, j + 1);
}

proof fn lemma_typed_fail_extend(
    e: Seq<(Seq<char>, JsonV)>,
    typed: Seq<(Seq<char>, Option<JsonV>)>,
    j: int,
    k: int,
)
    requires
        0 <= j < k <= typed.len(),
        with_typed_fields(e, typed.take(k)) == Err::<Seq<(Seq<char>, JsonV)>, Seq<char>>(
            typed[j].0,
        ),
    ensures
        with_typed_fields(e, typed) == Err::<Seq<(Seq<char>, JsonV)>, Seq<char>>(typed[j].0),
    decreases typed.len() - k,
{
    if k < typed.len() {
        assert(typed.take(k + 1).drop_last() =~= typed.take(k));
        lemma_typed_fail_extend(e, typed, j, k + 1);
    } else {
        assert(typed.take(k) =~= typed);
    }
}

/// A copy of a JSON value.
pub fn copy_json(j: &Json) -> (r: Json)
    ensures
        r@ == j@,
    decreases j,
{
    match j {
        Json::Null => Json::Null,
        Json::Bool(b) => Json::Bool(*b),
        Json::Number(n) => Json::Number(from_chars(&to_chars(n.as_str()))),
        Json::Str(s) => Json::Str(from_chars(&to_chars(s.as_str()))),
        Json::Raw(s) => Json::Raw(from_chars(&to_chars(s.as_str()))),
        Json::Array(items) => {
            let mut out: Vec<Json> = Vec::new();
            let mut i: usize = 0;
            while i < items.len()
                invariant
                    i <= items@.len(),
                    *j == Json::Array(*items),
                    jvs(out@) == jvs(items@.take(i as int)),
                decreases items@.len() - i,
            {
                proof {
                    assert(*j == Json::Array(*items));
                    assert(decreases_to!(*j => (*j)->Array_0));
                    assert(decreases_to!(*items => items@));
                    assert(decreases_to!(items@ => items@[i as int]));
                    assert(decreases_to!(*j => items@[i as int]));
                }
                let c = copy_json(&items[i]);
                let ghost before = out@;
                let ghost cv = c@;
                out.push(c);
                assert(out@ == before.push(c));
                assert(items@.take(i + 1) =~= items@.take(i as int).push(items@[i as int]));
                assert(jvs(out@) =~= jvs(before).push(cv));
                assert(jvs(items@.take(i + 1)) =~= jvs(items@.take(i as int)).push(items@[i as int]@));
                i = i + 1;
            }
            assert(items@.take(items@.len() as int) =~= items@);
            proof {
                crate::json::lemma_array_view(out);
                crate::json::lemma_array_view(*items);
            }
            Json::Array(out)
        },
        Json::Object(entries) => {
            let mut out: Vec<(String, Json)> = Vec::new();
            let mut i: usize = 0;
            while i < entries.len()
                invariant
                    i <= entries@.len(),
                    *j == Json::Object(*entries),
                    entries_view(out@) == entries_view(entries@.take(i as int)),
                decreases entries@.len() - i,
            {
                proof {
                    assert(*j == Json::Object(*entries));
                    assert(decreases_to!(*j => (*j)->Object_0));
                    assert(decreases_to!(*entries => entries@));
                    assert(decreases_to!(entries@ => entries@[i as int]));
                    assert(decreases_to!(entries@[i as int] => entries@[i as int].1));
                    assert(decreases_to!(*j => entries@[i as int].1));
                }
                let k = from_chars(&to_chars(entries[i].0.as_str()));
                let c = copy_json(&entries[i].1);
                let ghost before = out@;
                let ghost kv = (k@, c@);
                out.push((k, c));
                assert(entries@.take(i + 1) =~= entries@.take(i as int).push(entries@[i as int]));
                assert(entries_view(out@) =~= entries_view(before).push(kv));
                assert(entries_view(entries@.take(i + 1)) =~= entries_view(entries@.take(i as int)).push(
                    (entries@[i as int].0@, jv(entries@[i as int].1)),
                ));
                i = i + 1;
            }
            assert(entries@.take(entries@.len() as int) =~= entries@);
            proof {
                crate::json::lemma_object_view(out);
                crate::json::lemma_object_view(*entries);
            }
            Json::Object(out)
        },
    }
}

/// A response body (or the content read for `--input`): `null` for blank
/// text, else the JSON that `parsed` holds (the text read as JSON), else
/// the text as a string.
pub fn parse_response_body(content: &str, parsed: Option<Json>) -> (r: Json)
    ensures
        r@ == (if is_blank(content@) {
            JsonV::Null
        } else {
            match json_opt(parsed) {
                Some(v) => v,
                None => JsonV::Str(content@),
            }
        }),
{
    if crate::env::blank(content) {
        return Json::Null;
    }
    match parsed {
        Some(v) => v,
        None => Json::Str(from_chars(&to_chars(content))),
    }
}

/// The entries that have a value, in order.
pub open spec fn present(entries: Seq<(Seq<char>, Option<Seq<char>>)>) -> Seq<(Seq<char>, Seq<char>)>
    decreases entries.len(),
{
    if entries.len() == 0 {
        seq![]
    } else {
        match entries.last().1 {
            Some(v) => present(entries.drop_last()).push((entries.last().0, v)),
            None => present(entries.drop_last()),
        }
    }
}

/// Query or form entries, as values.
pub open spec fn entries_of(entries: Seq<(&str, Option<String>)>) -> Seq<(Seq<char>, Option<Seq<char>>)> {
    Seq::new(
        entries.len(),
        |i: int|
            (
                entries[i].0@,
                match entries[i].1 {
                    Some(v) => Some(v@),
                    None => None,
                },
            ),
    )
}

/// The query pairs that have a value, in order.
pub fn query(entries: Vec<(&str, Option<String>)>) -> (r: Vec<(String, String)>)
    ensures
        r.deep_view() == present(entries_of(entries@)),
{
    let ghost all = entries_of(entries@);
    let mut out: Vec<(String, String)> = Vec::new();
    let mut i: usize = 0;
    assert(all.take(0) =~= Seq::<(Seq<char>, Option<Seq<char>>)>::empty());
    assert(out.deep_view() =~= Seq::<(Seq<char>, Seq<char>)>::empty());
    while i < entries.len()
        invariant
            i <= entries@.len(),
            all == entries_of(entries@),
            out.deep_view() == present(all.take(i as int)),
        decreases entries@.len() - i,
    {
        assert(all.take(i + 1).drop_last() =~= all.take(i as int));
        assert(all.take(i + 1).last() == all[i as int]);
        let (k, v) = &entries[i];
        if let Some(v) = v {
            let ghost before = out.deep_view();
            let a = from_chars(&to_chars(k));
            let b = from_chars(&to_chars(v.as_str()));
            let ghost p = (a@, b@);
            out.push((a, b));
            assert(out.deep_view() =~= before.push(p));
        }
        i = i + 1;
    }
    assert(all.take(all.len() as int) =~= all);
    out
}

/// The form pairs as an object of strings, a later key replacing an earlier.
pub open spec fn form_object(pairs: Seq<(Seq<char>, Seq<char>)>) -> Seq<(Seq<char>, JsonV)>
    decreases pairs.len(),
{
    if pairs.len() == 0 {
        seq![]
    } else {
        upsert(form_object(pairs.drop_last()), pairs.last().0, JsonV::Str(pairs.last().1))
    }
}

/// A form body: an object of the entries that have a value.
pub fn form_body(entries: Vec<(&str, Option<String>)>) -> (r: Json)
    ensures
        r@ == JsonV::Object(form_object(present(entries_of(entries@)))),
{
    let pairs = query(entries);
    let ghost pv = pairs.deep_view();
    let mut out: Vec<(String, Json)> = Vec::new();
    let mut i: usize = 0;
    assert(pv.take(0) =~= Seq::<(Seq<char>, Seq<char>)>::empty());
    assert(entries_view(out@) =~= Seq::<(Seq<char>, JsonV)>::empty());
    while i < pairs.len()
        invariant
            i <= pairs@.len(),
            pv == pairs.deep_view(),
            entries_view(out@) == form_object(pv.take(i as int)),
        decreases pairs@.len() - i,
    {
        assert(pv.take(i + 1).drop_last() =~= pv.take(i as int));
        assert(pv.take(i + 1).last() == pv[i as int]);
        let k = from_chars(&to_chars(pairs[i].0.as_str()));
        let v = from_chars(&to_chars(pairs[i].1.as_str()));
        upsert_entry(&mut out, k, Json::Str(v));
        i = i + 1;
    }
    assert(pv.take(pv.len() as int) =~= pv);
    proof {
        crate::json::lemma_object_view(out);
    }
    Json::Object(out)
}

/// The items that a list of pages contributes: the items of a page that is
/// an array, a page that is not an array as one item.
pub open spec fn merged_items(pages: Seq<JsonV>) -> Seq<JsonV>
    decreases pages.len(),
{
    if pages.len() == 0 {
        seq![]
    } else {
        let head = match pages[0] {
            JsonV::Array(items) => items,
            other => seq![other],
        };
        head + merged_items(pages.drop_first())
    }
}

/// The pages of a paginated response as one value: a single page as it is,
/// else one array of every page's items.
pub fn merge_pages(pages: Vec<Json>) -> (r: Json)
    ensures
        r@ == (if pages@.len() == 1 {
            pages@[0]@
        } else {
            JsonV::Array(merged_items(jvs(pages@)))
        }),
{
    let ghost orig = jvs(pages@);
    let mut pages = pages;
    if pages.len() == 1 {
        return pages.remove(0);
    }
    let mut items: Vec<Json> = Vec::new();
    assert(jvs(items@) =~= Seq::<JsonV>::empty());
    assert(jvs(pages@) == orig);
    assert(jvs(items@) + merged_items(jvs(pages@)) =~= merged_items(orig));
    while pages.len() > 0
        invariant
            jvs(items@) + merged_items(jvs(pages@)) == merged_items(orig),
        decreases pages@.len(),
    {
        let ghost rest_before = jvs(pages@);
        let page = pages.remove(0);
        assert(jvs(pages@) =~= rest_before.drop_first());
        assert(rest_before[0] == page@);
        match page {
            Json::Array(mut page_items) => {
                proof {
                    crate::json::lemma_array_view(page_items);
                }
                let ghost add = jvs(page_items@);
                let ghost base = jvs(items@);
                while page_items.len() > 0
                    invariant
                        jvs(items@) + jvs(page_items@) == base + add,
                    decreases page_items@.len(),
                {
                    let ghost pb = jvs(page_items@);
                    let ghost ib = jvs(items@);
                    let x = page_items.remove(0);
                    assert(jvs(page_items@) =~= pb.drop_first());
                    assert(pb[0] == x@);
                    items.push(x);
                    assert(jvs(items@) =~= ib.push(pb[0]));
                    assert(jvs(items@) + jvs(page_items@) =~= ib + pb);
                }
                assert(jvs(page_items@) =~= Seq::<JsonV>::empty());
                assert(jvs(items@) =~= base + add);
            },
            other => {
                let ghost ib = jvs(items@);
                let ghost ov = other@;
                items.push(other);
                assert(jvs(items@) =~= ib.push(ov));
                assert(jvs(items@) =~= ib + seq![ov]);
            },
        }
    }
    assert(jvs(pages@) =~= Seq::<JsonV>::empty());
    assert(jvs(items@) =~= merged_items(orig));
    proof {
        crate::json::lemma_array_view(items);
    }
    Json::Array(items)
}


/// A byte that may stand in a header name: a letter, a digit, or one of
/// ``!#$%&'*+-.^_`|~``, the token characters of HTTP.
pub open spec fn header_name_byte(b: u8) -> bool {
    (48 <= b && b <= 57) || (65 <= b && b <= 90) || (97 <= b && b <= 122) || b == 33 || (35 <= b
        && b <= 39) || b == 42 || b == 43 || b == 45 || b == 46 || (94 <= b && b <= 96) || b == 124
        || b == 126
}

/// A header name that `http::HeaderName::from_bytes` accepts: one to 65535
/// bytes, each a token character.
pub open spec fn header_name_ok(name: Seq<char>) -> bool {
    let bs = vstd::utf8::encode_utf8(name);
    &&& 1 <= bs.len() <= 65535
    &&& forall|i: int| 0 <= i < bs.len() ==> header_name_byte(#[trigger] bs[i])
}

/// `HeaderName::from_bytes(name.as_bytes())` of the `http` crate, as
/// re-exported by `reqwest`. Claimed: the name is accepted exactly when it
/// has one to 65535 bytes (`MAX_HEADER_NAME_LEN`) and each byte maps to a
/// character in the crate's `HEADER_CHARS` table, which holds the token
/// characters.
#[verifier::external_body]
fn check_header_name(name: &str) -> (r: bool)
    ensures
        r == header_name_ok(name@),
{
    reqwest::header::HeaderName::from_bytes(name.as_bytes()).is_ok()
}

/// A header value that `HeaderValue::from_str` accepts: no control
/// character but tab, and no DEL.
pub open spec fn header_value_ok(v: Seq<char>) -> bool {
    forall|i: int|
        0 <= i < v.len() ==> ((#[trigger] v[i] as u32) >= 32 && v[i] as u32 != 127) || v[i] == '\t'
}

/// Whether `v` is a valid header value.
fn check_header_value(v: &[char]) -> (r: bool)
    ensures
        r == header_value_ok(v@),
{
    let mut i: usize = 0;
    while i < v.len()
        invariant
            i <= v@.len(),
            forall|j: int|
                0 <= j < i ==> ((#[trigger] v@[j] as u32) >= 32 && v@[j] as u32 != 127) || v@[j]
                    == '\t',
        decreases v@.len() - i,
    {
        let c = v[i];
        let n = c as u32;
        if !((n >= 32 && n != 127) || c == '\t') {
            assert(!header_value_ok(v@)) by {
                assert(v@[i as int] == c);
            }
            return false;
        }
        i = i + 1;
    }
    true
}

/// Why a header line was refused.
pub enum HeaderFault {
    Form(Seq<char>),
    Name,
    Value,
}

/// The `Name: value` lines as trimmed pairs, in order; the first line
/// without `:`, with a bad name or with a bad value is the fault.
pub open spec fn headers_spec(lines: Seq<Seq<char>>) -> Result<Seq<(Seq<char>, Seq<char>)>, HeaderFault>
    decreases lines.len(),
{
    if lines.len() == 0 {
        Ok(seq![])
    } else {
        match headers_spec(lines.drop_last()) {
            Err(f) => Err(f),
            Ok(ps) => match split_once(lines.last(), ':') {
                None => Err(HeaderFault::Form(lines.last())),
                Some((n, v)) => if !header_name_ok(trim(n)) {
                    Err(HeaderFault::Name)
                } else if !header_value_ok(trim(v)) {
                    Err(HeaderFault::Value)
                } else {
                    Ok(ps.push((trim(n), trim(v))))
                },
            },
        }
    }
}

proof fn lemma_headers_fail(lines: Seq<Seq<char>>, i: int, k: int, f: HeaderFault)
    requires
        0 <= i < k <= lines.len(),
        headers_spec(lines.take(k)) == Err::<Seq<(Seq<char>, Seq<char>)>, HeaderFault>(f),
    ensures
        headers_spec(lines) == Err::<Seq<(Seq<char>, Seq<char>)>, HeaderFault>(f),
    decreases lines.len() - k,
{
    if k < lines.len() {
        assert(lines.take(k + 1).drop_last() =~= lines.take(k));
        lemma_headers_fail(lines, i, k + 1, f);
    } else {
        assert(lines.take(k) =~= lines);
    }
}

/// The request headers of `gd api`: each `Name: value` line split at its
/// first `:` and trimmed, in order.
pub fn parse_headers(headers: &Vec<String>) -> (r: Result<Vec<(String, String)>, GdError>)
    ensures
        match (r, headers_spec(headers.deep_view())) {
            (Ok(ps), Ok(qs)) => ps.deep_view() == qs,
            (Err(e), Err(HeaderFault::Form(h))) => e matches GdError::HeaderForm { header }
                && header@ == h,
            (Err(e), Err(HeaderFault::Name)) => e == GdError::InvalidHeaderName,
            (Err(e), Err(HeaderFault::Value)) => e == GdError::InvalidHeaderValue,
            _ => false,
        },
{
    let ghost lines = headers.deep_view();
    let mut out: Vec<(String, String)> = Vec::new();
    let mut i: usize = 0;
    assert(lines.take(0) =~= Seq::<Seq<char>>::empty());
    assert(out.deep_view() =~= Seq::<(Seq<char>, Seq<char>)>::empty());
    while i < headers.len()
        invariant
            i <= headers@.len(),
            lines == headers.deep_view(),
            headers_spec(lines.take(i as int)) == Ok::<
                Seq<(Seq<char>, Seq<char>)>,
                HeaderFault,
            >(out.deep_view()),
        decreases headers@.len() - i,
    {
        assert(lines.take(i + 1).drop_last() =~= lines.take(i as int));
        assert(lines.take(i + 1).last() == lines[i as int]);
        let line = to_chars(headers[i].as_str());
        match crate::text::split_once_chars(&line, ':') {
            None => {
                proof {
                    lemma_headers_fail(lines, i as int, i + 1, HeaderFault::Form(lines[i as int]));
                }
                return Err(GdError::HeaderForm { header: from_chars(&line) });
            },
            Some((n, v)) => {
                let name = crate::text::trim_chars(&n);
                let value = crate::text::trim_chars(&v);
                let name_s = from_chars(&name);
                if !check_header_name(name_s.as_str()) {
                    proof {
                        lemma_headers_fail(lines, i as int, i + 1, HeaderFault::Name);
                    }
                    return Err(GdError::InvalidHeaderName);
                }
                if !check_header_value(&value) {
                    proof {
                        lemma_headers_fail(lines, i as int, i + 1, HeaderFault::Value);
                    }
                    return Err(GdError::InvalidHeaderValue);
                }
                let ghost before = out.deep_view();
                let value_s = from_chars(&value);
                let ghost pair = (name_s@, value_s@);
                out.push((name_s, value_s));
                assert(out.deep_view() =~= before.push(pair));
            },
        }
        i = i + 1;
    }
    assert(lines.take(lines.len() as int) =~= lines);
    Ok(out)
}

/// The target of a `Link` entry: `<url>` trimmed of spaces and brackets.
pub open spec fn link_target(u: Seq<char>) -> Seq<char> {
    trim_end_char(trim_start_char(trim(u), '<'), '>')
}

/// The first `rel="next"` target among the `Link` entries `parts` that
/// parses as a URL, as the parsed URL's text; `None` as soon as an entry
/// has no `;`.
pub open spec fn next_in(parts: Seq<Seq<char>>) -> Option<Seq<char>>
    decreases parts.len(),
{
    if parts.len() == 0 {
        None
    } else {
        match split_once(parts[0], ';') {
            None => None,
            Some((u, rel)) => if has_sub(rel, "rel=\"next\""@) && url_parses(link_target(u)) {
                Some(url_text(link_target(u)))
            } else {
                next_in(parts.drop_first())
            },
        }
    }
}

/// The next page named by a `Link` header value, when there is one.
pub fn next_link(link: Option<&str>) -> (r: Option<String>)
    ensures
        sview_opt(r) == match link {
            Some(l) => next_in(split_all(l@, ',')),
            None => None,
        },
{
    let l = match link {
        Some(l) => l,
        None => return None,
    };
    let parts = crate::text::split_all_chars(&to_chars(l), ',');
    let ghost ps = crate::text::views(parts@);
    let needle = to_chars("rel=\"next\"");
    let mut i: usize = 0;
    assert(ps.skip(0) =~= ps);
    while i < parts.len()
        invariant
            i <= parts@.len(),
            ps == crate::text::views(parts@),
            ps == split_all(l@, ','),
            link == Some(l),
            needle@ == "rel=\"next\""@,
            next_in(ps) == next_in(ps.skip(i as int)),
        decreases parts@.len() - i,
    {
        assert(ps.skip(i as int)[0] == parts@[i as int]@);
        assert(ps.skip(i as int).drop_first() =~= ps.skip(i + 1));
        match crate::text::split_once_chars(&parts[i], ';') {
            None => return None,
            Some((u, rel)) => {
                if crate::text::contains_chars(&rel, &needle) {
                    let t0 = crate::text::trim_chars(&u);
                    let t1 = crate::text::trim_start_char_chars(&t0, '<');
                    let t2 = crate::text::trim_end_char_chars(&t1, '>');
                    let target = from_chars(&t2);
                    match crate::weburl::parse_url(target.as_str()) {
                        Some(p) => return Some(p.text),
                        None => {},
                    }
                }
            },
        }
        i = i + 1;
    }
    None
}

/// The text of an optional string.
pub open spec fn sview_opt(o: Option<String>) -> Option<Seq<char>> {
    match o {
        Some(s) => Some(s@),
        None => None,
    }
}

/// `e` reports that `endpoint` is no URL.
pub open spec fn endpoint_url_error(e: GdError, endpoint: Seq<char>) -> bool {
    e matches GdError::InvalidEndpointUrl { endpoint: x } && x@ == endpoint
}

/// `e` reports that `base` is no URL.
pub open spec fn api_base_error(e: GdError, base: Seq<char>) -> bool {
    e matches GdError::InvalidApiBase { value } && value@ == base
}

/// `e` reports that `path` does not join onto the base; for the Actions api
/// when `actions` holds.
pub open spec fn path_error(e: GdError, path: Seq<char>, actions: bool) -> bool {
    if actions {
        e matches GdError::InvalidActionsEndpoint { path: p } && p@ == path
    } else {
        e matches GdError::InvalidEndpointPath { path: p } && p@ == path
    }
}

/// `r` is what joining `path`, without its leading slashes, onto `base`
/// gives: the joined URL's text, or the error for a base that is no URL or
/// a path that does not join.
pub open spec fn joined(base: Seq<char>, path: Seq<char>, actions: bool, r: Result<String, GdError>) -> bool {
    let p = trim_start_char(path, '/');
    match r {
        Ok(t) => url_parses(base) && url_join_text(base, p) == Some(t@),
        Err(e) => (!url_parses(base) && api_base_error(e, base)) || (url_parses(base)
            && url_join_text(base, p) is None && path_error(e, p, actions)),
    }
}

/// `endpoint` is an absolute http or https URL.
pub open spec fn absolute(endpoint: Seq<char>) -> bool {
    has_prefix(endpoint, "http://"@) || has_prefix(endpoint, "https://"@)
}

/// The URL of an endpoint: an absolute http or https endpoint parsed as it
/// is, else the endpoint without leading slashes joined onto the api base.
pub fn endpoint_url(api_base: &str, endpoint: &str) -> (r: Result<String, GdError>)
    ensures
        absolute(endpoint@) ==> match r {
            Ok(t) => url_parses(endpoint@) && t@ == url_text(endpoint@),
            Err(e) => !url_parses(endpoint@) && endpoint_url_error(e, endpoint@),
        },
        !absolute(endpoint@) ==> joined(api_base@, endpoint@, false, r),
{
    let ep = to_chars(endpoint);
    if crate::text::starts_with(&ep, &to_chars("http://")) || crate::text::starts_with(
        &ep,
        &to_chars("https://"),
    ) {
        return match crate::weburl::parse_url(endpoint) {
            Some(p) => Ok(p.text),
            None => Err(GdError::InvalidEndpointUrl { endpoint: from_chars(&ep) }),
        };
    }
    join_path(api_base, endpoint, false)
}

/// `path` without leading slashes joined onto `base`.
fn join_path(base: &str, path: &str, actions: bool) -> (r: Result<String, GdError>)
    ensures
        joined(base@, path@, actions, r),
{
    let p = from_chars(&crate::text::trim_start_char_chars(&to_chars(path), '/'));
    match crate::weburl::parse_url(base) {
        None => Err(GdError::InvalidApiBase { value: from_chars(&to_chars(base)) }),
        Some(_) => match crate::weburl::join_url(base, p.as_str()) {
            Some(t) => Ok(t),
            None => if actions {
                Err(GdError::InvalidActionsEndpoint { path: p })
            } else {
                Err(GdError::InvalidEndpointPath { path: p })
            },
        },
    }
}

/// The URL of an Actions api path: the path without leading slashes joined
/// onto the Actions api base.
pub fn actions_endpoint_url(api_base: &str, path: &str) -> (r: Result<String, GdError>)
    ensures
        joined(api_base@, path@, true, r),
{
    join_path(api_base, path, true)
}

/// The text of the string member `key` of `body`.
pub open spec fn text_field(body: JsonV, key: Seq<char>) -> Option<Seq<char>> {
    as_text(get_key(body, key))
}

/// The text of the string member `key` of `body`, when it has one.
pub fn text_field_of(body: &Json, key: &str) -> (r: Option<String>)
    ensures
        sview_opt(r) == text_field(body@, key@),
{
    match crate::json::as_str(crate::json::get(body, key)) {
        Some(s) => Some(from_chars(&to_chars(s))),
        None => None,
    }
}

/// The message of a failed GitCode api call: the `message` or `error`
/// member of the body when it is a string, else `body_text`, the body
/// written as JSON.
pub open spec fn api_error_text(status: Seq<char>, body: JsonV, body_text: Seq<char>) -> Seq<char> {
    let message = match text_field(body, "message"@) {
        Some(m) => m,
        None => match text_field(body, "error"@) {
            Some(m) => m,
            None => body_text,
        },
    };
    "GitCode API returned "@ + status + ": "@ + message
}

/// The error of a failed GitCode api call with status `status` (its code
/// and reason, as `StatusCode` shows them) and body `body`, written
/// `body_text` as JSON.
pub fn api_status_error(status: &str, body: &Json, body_text: &str) -> (r: String)
    ensures
        r@ == api_error_text(status@, body@, body_text@),
{
    let message = match text_field_of(body, "message") {
        Some(m) => m,
        None => match text_field_of(body, "error") {
            Some(m) => m,
            None => from_chars(&to_chars(body_text)),
        },
    };
    let mut out = to_chars("GitCode API returned ");
    append_str(&mut out, status);
    append_str(&mut out, ": ");
    append_str(&mut out, message.as_str());
    from_chars(&out)
}

/// The page that the paginated `gd api` fetches after a successful one:
/// the next page named by the `Link` header, when paginating.
pub fn next_page(paginate: bool, link: Option<&str>) -> (r: Option<String>)
    ensures
        sview_opt(r) == if paginate {
            match link {
                Some(l) => next_in(split_all(l@, ',')),
                None => None,
            }
        } else {
            None
        },
{
    if paginate {
        next_link(link)
    } else {
        None
    }
}

/// What `gd api` does with one reply: a failed status ends the exchange with
/// the api error message; a successful one yields the next page to fetch,
/// if paginating and the `Link` header names one.
pub fn api_reply_step(
    success: bool,
    status: &str,
    body: &Json,
    body_text: &str,
    paginate: bool,
    link: Option<&str>,
) -> (r: Result<Option<String>, String>)
    ensures
        !success ==> (r matches Err(m) && m@ == api_error_text(status@, body@, body_text@)),
        success ==> (r matches Ok(n) && sview_opt(n) == if paginate {
            match link {
                Some(l) => next_in(split_all(l@, ',')),
                None => None,
            }
        } else {
            None
        }),
{
    if !success {
        return Err(api_status_error(status, body, body_text));
    }
    Ok(next_page(paginate, link))
}

} // verus!

verus! {

/// The words `true`, `false` and `null` are typed as the JSON literals they
/// name, whatever the number reading gives; a typed value is a boolean only
/// for those two words, and a string only when it is none of the three
/// words and reads as no number, and then it is the text as given.
pub proof fn law_typed_literals(v: Seq<char>, float: Option<JsonV>)
    requires
        float matches Some(x) ==> x is Number,
    ensures
        v == "true"@ ==> typed_value(v, float) == JsonV::Bool(true),
        v == "false"@ ==> typed_value(v, float) == JsonV::Bool(false),
        v == "null"@ ==> typed_value(v, float) == JsonV::Null,
        typed_value(v, float) matches JsonV::Bool(b) ==> v == (if b {
            "true"@
        } else {
            "false"@
        }),
        typed_value(v, float) is Str ==> typed_value(v, float) == JsonV::Str(v) && v != "true"@
            && v != "false"@ && v != "null"@,
{
    reveal_strlit("true");
    reveal_strlit("false");
    reveal_strlit("null");
    assert("true"@ != "false"@) by {
        assert("true"@[0] != "false"@[0]);
    }
    assert("true"@ != "null"@) by {
        assert("true"@[0] != "null"@[0]);
    }
    assert("false"@ != "null"@) by {
        assert("false"@[0] != "null"@[0]);
    }
}

} // verus!
