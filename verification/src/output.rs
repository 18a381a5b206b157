//! How a response is summarized as text: which member stands for an
//! object, which fields make a row of a list. Writing values as JSON text
//! is left to the caller, which `Summary` tells what to write.
use vstd::prelude::*;
use crate::client::{sview_opt, text_field_of};
use crate::json::{Json, JsonV, get_key, jvs};
use crate::text::{append_str, from_chars, to_chars};

verus! {

/// The text summary of a value.
#[derive(Debug, PartialEq, Eq)]
pub enum Summary {
    /// This text.
    Text(String),
    /// The value written as indented JSON.
    Pretty,
    /// The value written as compact JSON.
    Compact,
    /// One line per item of an array.
    Rows(Vec<Row>),
}

/// The line of one item of an array.
#[derive(Debug, PartialEq, Eq)]
pub enum Row {
    /// These fields, joined by tabs.
    Fields(String),
    /// The item written as compact JSON.
    Compact,
}

/// The first of the members `keys` that `v` has, whatever its kind.
pub open spec fn first_member(v: JsonV, keys: Seq<Seq<char>>) -> Option<JsonV>
    decreases keys.len(),
{
    if keys.len() == 0 {
        None
    } else {
        match get_key(v, keys[0]) {
            Some(m) => Some(m),
            None => first_member(v, keys.drop_first()),
        }
    }
}

/// The text of a string value.
pub open spec fn str_of(v: Option<JsonV>) -> Option<Seq<char>> {
    match v {
        Some(JsonV::Str(s)) => Some(s),
        _ => None,
    }
}

/// The keys that name where an object lives.
pub open spec fn url_keys() -> Seq<Seq<char>> {
    seq!["html_url"@, "web_url"@, "url"@]
}

/// The keys that name an object.
pub open spec fn name_keys() -> Seq<Seq<char>> {
    seq!["full_name"@, "path_with_namespace"@, "name"@, "title"@]
}

/// The fields of a row, in order.
pub open spec fn row_keys() -> Seq<Seq<char>> {
    seq!["number"@, "id"@, "full_name"@, "name"@, "title"@, "state"@, "html_url"@]
}

/// A string, number or boolean as text.
pub open spec fn simple_text(v: Option<JsonV>) -> Option<Seq<char>> {
    match v {
        Some(JsonV::Str(s)) => Some(s),
        Some(JsonV::Number(n)) => Some(n),
        Some(JsonV::Bool(b)) => Some(
            if b {
                "true"@
            } else {
                "false"@
            },
        ),
        _ => None,
    }
}

/// The simple fields of an object among `keys`, in order.
pub open spec fn row_fields(v: JsonV, keys: Seq<Seq<char>>) -> Seq<Seq<char>>
    decreases keys.len(),
{
    if keys.len() == 0 {
        seq![]
    } else {
        match simple_text(get_key(v, keys.last())) {
            Some(t) => row_fields(v, keys.drop_last()).push(t),
            None => row_fields(v, keys.drop_last()),
        }
    }
}

/// The texts joined by tabs.
pub open spec fn tab_join(parts: Seq<Seq<char>>) -> Seq<char>
    decreases parts.len(),
{
    if parts.len() == 0 {
        seq![]
    } else if parts.len() == 1 {
        parts[0]
    } else {
        tab_join(parts.drop_last()) + "\t"@ + parts.last()
    }
}

/// `r` is the row of `v`: its simple fields joined by tabs; an object
/// without such fields, or anything else, as compact JSON.
pub open spec fn row_is(v: JsonV, r: Row) -> bool {
    match v {
        JsonV::Object(_) => if row_fields(v, row_keys()).len() > 0 {
            r matches Row::Fields(t) && t@ == tab_join(row_fields(v, row_keys()))
        } else {
            r == Row::Compact
        },
        _ => r == Row::Compact,
    }
}

/// `s` is the summary of `v`: an object by its URL member (the first of
/// `html_url`, `web_url`, `url` that it has) when that is a string, else
/// by its name member likewise, else as indented JSON; an array as one row
/// per item; `null` as empty text; anything else as compact JSON.
pub open spec fn summary_is(v: JsonV, s: Summary) -> bool {
    match v {
        JsonV::Object(_) => match str_of(first_member(v, url_keys())) {
            Some(u) => s matches Summary::Text(t) && t@ == u,
            None => match str_of(first_member(v, name_keys())) {
                Some(n) => s matches Summary::Text(t) && t@ == n,
                None => s == Summary::Pretty,
            },
        },
        JsonV::Array(items) => s matches Summary::Rows(rows) && rows@.len() == items.len() && forall|
            i: int,
        |
            0 <= i < items.len() ==> row_is(items[i], #[trigger] rows@[i]),
        JsonV::Null => s matches Summary::Text(t) && t@.len() == 0,
        _ => s == Summary::Compact,
    }
}

/// The first of three members that `v` has, as a string.
fn first_str3(v: &Json, a: &str, b: &str, c: &str) -> (r: Option<String>)
    ensures
        sview_opt(r) == str_of(first_member(v@, seq![a@, b@, c@])),
{
    let ghost keys = seq![a@, b@, c@];
    proof {
        reveal_with_fuel(first_member, 4);
    }
    let m = match crate::json::get(v, a) {
        Some(m) => Some(m),
        None => match crate::json::get(v, b) {
            Some(m) => Some(m),
            None => crate::json::get(v, c),
        },
    };
    assert(keys.drop_first() =~= seq![b@, c@]);
    assert(keys.drop_first().drop_first() =~= seq![c@]);
    assert(keys.drop_first().drop_first().drop_first() =~= Seq::<Seq<char>>::empty());
    match crate::json::as_str(m) {
        Some(s) => Some(from_chars(&to_chars(s))),
        None => None,
    }
}

/// The first of four members that `v` has, as a string.
fn first_str4(v: &Json, a: &str, b: &str, c: &str, d: &str) -> (r: Option<String>)
    ensures
        sview_opt(r) == str_of(first_member(v@, seq![a@, b@, c@, d@])),
{
    let ghost keys = seq![a@, b@, c@, d@];
    proof {
        reveal_with_fuel(first_member, 5);
    }
    let m = match crate::json::get(v, a) {
        Some(m) => Some(m),
        None => match crate::json::get(v, b) {
            Some(m) => Some(m),
            None => match crate::json::get(v, c) {
                Some(m) => Some(m),
                None => crate::json::get(v, d),
            },
        },
    };
    assert(keys.drop_first() =~= seq![b@, c@, d@]);
    assert(keys.drop_first().drop_first() =~= seq![c@, d@]);
    assert(keys.drop_first().drop_first().drop_first() =~= seq![d@]);
    assert(keys.drop_first().drop_first().drop_first().drop_first() =~= Seq::<Seq<char>>::empty());
    match crate::json::as_str(m) {
        Some(s) => Some(from_chars(&to_chars(s))),
        None => None,
    }
}

/// A string, number or boolean as text.
pub fn simple_value(v: Option<&Json>) -> (r: Option<String>)
    ensures
        sview_opt(r) == simple_text(
            match v {
                Some(j) => Some(j@),
                None => None,
            },
        ),
{
    match v {
        Some(Json::Str(s)) => Some(from_chars(&to_chars(s.as_str()))),
        Some(Json::Number(n)) => Some(from_chars(&to_chars(n.as_str()))),
        Some(Json::Bool(b)) => if *b {
            Some(from_chars(&to_chars("true")))
        } else {
            Some(from_chars(&to_chars("false")))
        },
        _ => None,
    }
}

/// The row of one array item.
pub fn row_summary(v: &Json) -> (r: Row)
    ensures
        row_is(v@, r),
{
    match v {
        Json::Object(_) => {
            let mut out: Vec<char> = Vec::new();
            let mut count: usize = 0;
            let keys: [&str; 7] = ["number", "id", "full_name", "name", "title", "state", "html_url"];
            let ghost ks = row_keys();
            proof {
                reveal_strlit("number");
            }
            let mut i: usize = 0;
            assert(ks.take(0) =~= Seq::<Seq<char>>::empty());
            assert(keys@.map_values(|k: &str| k@) =~= ks);
            while i < 7
                invariant
                    i <= 7,
                    keys@.len() == 7,
                    keys@.map_values(|k: &str| k@) == ks,
                    ks == row_keys(),
                    count == row_fields(v@, ks.take(i as int)).len(),
                    count <= i,
                    out@ == tab_join(row_fields(v@, ks.take(i as int))),
                decreases 7 - i,
            {
                assert(ks.take(i + 1).drop_last() =~= ks.take(i as int));
                assert(ks.take(i + 1).last() == ks[i as int]);
                assert(ks[i as int] == keys@[i as int]@);
                let field = simple_value(crate::json::get(v, keys[i]));
                if let Some(f) = field {
                    let ghost prev = row_fields(v@, ks.take(i as int));
                    if count > 0 {
                        append_str(&mut out, "\t");
                    }
                    append_str(&mut out, f.as_str());
                    proof {
                        let now = row_fields(v@, ks.take(i + 1));
                        assert(now == prev.push(f@));
                        if prev.len() == 0 {
                            assert(now.len() == 1);
                            assert(out@ =~= now[0]);
                        } else {
                            assert(now.drop_last() == prev);
                        }
                    }
                    count = count + 1;
                }
                i = i + 1;
            }
            assert(ks.take(7) =~= ks);
            if count > 0 {
                Row::Fields(from_chars(&out))
            } else {
                Row::Compact
            }
        },
        _ => Row::Compact,
    }
}

/// The text summary of a value.
pub fn text_summary(value: &Json) -> (r: Summary)
    ensures
        summary_is(value@, r),
{
    match value {
        Json::Object(_) => {
            if let Some(u) = first_str3(value, "html_url", "web_url", "url") {
                return Summary::Text(u);
            }
            if let Some(n) = first_str4(value, "full_name", "path_with_namespace", "name", "title") {
                return Summary::Text(n);
            }
            Summary::Pretty
        },
        Json::Array(items) => {
            proof {
                crate::json::lemma_array_view(*items);
            }
            let mut rows: Vec<Row> = Vec::new();
            let mut i: usize = 0;
            while i < items.len()
                invariant
                    i <= items@.len(),
                    rows@.len() == i,
                    forall|j: int| 0 <= j < i ==> row_is(items@[j]@, #[trigger] rows@[j]),
                decreases items@.len() - i,
            {
                let row = row_summary(&items[i]);
                rows.push(row);
                i = i + 1;
            }
            assert(jvs(items@).len() == items@.len());
            assert forall|j: int| 0 <= j < items@.len() implies row_is(
                jvs(items@)[j],
                #[trigger] rows@[j],
            ) by {
                assert(jvs(items@)[j] == items@[j]@);
            }
            Summary::Rows(rows)
        },
        Json::Null => Summary::Text(String::new()),
        _ => Summary::Compact,
    }
}


/// The texts joined by line breaks.
pub open spec fn line_join(parts: Seq<Seq<char>>) -> Seq<char>
    decreases parts.len(),
{
    if parts.len() == 0 {
        seq![]
    } else if parts.len() == 1 {
        parts[0]
    } else {
        line_join(parts.drop_last()) + "\n"@ + parts.last()
    }
}

/// The line of each row: its fields, or for a compact row the compact JSON
/// text of its item, taken from `compact`.
pub open spec fn row_lines(rows: Seq<Row>, compact: Seq<Seq<char>>) -> Seq<Seq<char>> {
    Seq::new(
        rows.len(),
        |i: int|
            match rows[i] {
                Row::Fields(t) => t@,
                Row::Compact => compact[i],
            },
    )
}

/// The text of the rows of an array summary: one line per row, joined by
/// line breaks, where `compact[i]` is the compact JSON text of item `i`.
pub fn rows_text(rows: &Vec<Row>, compact: &Vec<String>) -> (r: String)
    requires
        compact@.len() == rows@.len(),
    ensures
        r@ == line_join(row_lines(rows@, compact.deep_view())),
{
    let ghost lines = row_lines(rows@, compact.deep_view());
    let mut out: Vec<char> = Vec::new();
    let mut i: usize = 0;
    proof {
        reveal_strlit("\n");
        assert(lines.take(0) =~= Seq::<Seq<char>>::empty());
    }
    while i < rows.len()
        invariant
            i <= rows@.len(),
            compact@.len() == rows@.len(),
            lines == row_lines(rows@, compact.deep_view()),
            out@ == line_join(lines.take(i as int)),
        decreases rows@.len() - i,
    {
        let line: &str = match &rows[i] {
            Row::Fields(t) => t.as_str(),
            Row::Compact => compact[i].as_str(),
        };
        assert(line@ == lines[i as int]);
        let ghost prev = out@;
        if i > 0 {
            append_str(&mut out, "\n");
        }
        append_str(&mut out, line);
        proof {
            let now = lines.take(i + 1);
            assert(now.drop_last() =~= lines.take(i as int));
            assert(now.last() == lines[i as int]);
            if i == 0 {
                assert(out@ =~= now[0]);
            }
        }
        i = i + 1;
    }
    assert(lines.take(rows@.len() as int) =~= lines);
    from_chars(&out)
}

} // verus!
