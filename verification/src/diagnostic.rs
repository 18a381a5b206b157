//! What `gd` says about a command line it could not read: the message, how
//! far the commands matched, the token at fault, what was expected there,
//! a suggestion and the usage line.
use vstd::prelude::*;
use crate::args::{Grammar, OptKind, OptSpec, PosSpec};
use crate::distance::{edit_distance, lev};
use crate::scan::{
    Fault, ParseFailure, ParseFault, find_child, lookup_long, lookup_short, node_kids, node_opts,
    node_pos, opt_display, pos_display, sview,
};
use crate::text::{append_str, from_chars, has_char, has_prefix, to_chars};
use vstd::string::StringSliceAdditionalSpecFns;

verus! {

/// Whether the arguments ask for JSON output: `--json`, `--format=json`, or
/// `--format` followed by `json`.
pub open spec fn wants_json(args: Seq<Seq<char>>) -> bool {
    exists|i: int|
        0 <= i < args.len() && (#[trigger] args[i] == "--json"@ || args[i] == "--format=json"@ || (
        args[i] == "--format"@ && i + 1 < args.len() && args[i + 1] == "json"@))
}

/// Whether the arguments ask for JSON output.
pub fn wants_json_diagnostic(args: &Vec<String>) -> (r: bool)
    ensures
        r == wants_json(args.deep_view()),
{
    let ghost a = args.deep_view();
    let mut i: usize = 0;
    while i < args.len()
        invariant
            i <= args@.len(),
            a == args.deep_view(),
            forall|j: int|
                0 <= j < i ==> !(#[trigger] a[j] == "--json"@ || a[j] == "--format=json"@ || (a[j]
                    == "--format"@ && j + 1 < a.len() && a[j + 1] == "json"@)),
        decreases args@.len() - i,
    {
        let t = to_chars(args[i].as_str());
        let hit = crate::text::chars_eq_str(&t, "--json") || crate::text::chars_eq_str(
            &t,
            "--format=json",
        ) || (crate::text::chars_eq_str(&t, "--format") && i + 1 < args.len()
            && crate::text::chars_eq_str(&to_chars(args[i + 1].as_str()), "json"));
        if hit {
            assert(a[i as int] == t@);
            return true;
        }
        i = i + 1;
    }
    false
}

/// `gd` followed by the segments, separated by spaces.
pub open spec fn try_line(segments: Seq<Seq<char>>) -> Seq<char>
    decreases segments.len(),
{
    if segments.len() == 0 {
        "gd"@
    } else {
        try_line(segments.drop_last()) + " "@ + segments.last()
    }
}

/// The command line `gd` with the segments, separated by spaces.
pub fn command_try(segments: &Vec<String>) -> (r: String)
    ensures
        r@ == try_line(segments.deep_view()),
{
    let ghost s = segments.deep_view();
    let mut out = to_chars("gd");
    let mut i: usize = 0;
    assert(s.take(0) =~= Seq::<Seq<char>>::empty());
    while i < segments.len()
        invariant
            i <= segments@.len(),
            s == segments.deep_view(),
            out@ == try_line(s.take(i as int)),
        decreases segments@.len() - i,
    {
        assert(s.take(i + 1).drop_last() =~= s.take(i as int));
        assert(s.take(i + 1).last() == s[i as int]);
        append_str(&mut out, " ");
        append_str(&mut out, segments[i].as_str());
        i = i + 1;
    }
    assert(s.take(s.len() as int) =~= s);
    from_chars(&out)
}

/// Whether the option `o` takes a value.
pub open spec fn takes_value(o: Option<OptSpec>) -> bool {
    match o {
        Some(x) => x.kind != OptKind::Flag,
        None => false,
    }
}

/// How many tokens the option token at `i` spans while matching commands:
/// two when it names an option that takes a value and the value is not
/// attached, else one.
pub open spec fn option_width_spec(g: Grammar, node: int, toks: Seq<Seq<char>>, i: int) -> int {
    let t = toks[i];
    if i + 1 >= toks.len() || t == "--"@ {
        1
    } else if has_prefix(t, "--"@) {
        let name = t.skip(2);
        if has_char(name, '=') {
            1
        } else if takes_value(lookup_long(g, node, name)) || takes_value(lookup_long(g, 0, name)) {
            2
        } else {
            1
        }
    } else if t.len() == 2 && (takes_value(lookup_short(g, node, t[1])) || takes_value(
        lookup_short(g, 0, t[1]),
    )) {
        2
    } else {
        1
    }
}

/// The commands that the tokens from `i` on name, starting at `node` with
/// the names in `path`: options are skipped with their values, and the walk
/// stops at `--` or at a word that is no subcommand of a command that has
/// subcommands.
pub open spec fn walk(g: Grammar, toks: Seq<Seq<char>>, i: int, node: int, path: Seq<Seq<char>>) -> (
    int,
    Seq<Seq<char>>,
)
    decreases toks.len() - i,
{
    if i < 0 || i >= toks.len() {
        (node, path)
    } else if toks[i] == "--"@ {
        (node, path)
    } else if toks[i].len() > 0 && toks[i][0] == '-' {
        walk(g, toks, i + option_width_spec(g, node, toks, i), node, path)
    } else {
        match find_child(g, node_kids(g, node), toks[i]) {
            Some(c) => walk(g, toks, i + 1, c, path.push(g.nodes@[c].name@)),
            None => if node_kids(g, node).len() > 0 {
                (node, path)
            } else {
                walk(g, toks, i + 1, node, path)
            },
        }
    }
}


/// How many tokens the option token at `i` spans while matching commands.
fn option_width(g: &Grammar, node: usize, toks: &Vec<String>, i: usize) -> (r: usize)
    requires
        i < toks@.len(),
    ensures
        r as int == option_width_spec(*g, node as int, toks.deep_view(), i as int),
{
    let n = toks.len();
    let t = to_chars(toks[i].as_str());
    assert(t@ == toks.deep_view()[i as int]);
    if i + 1 >= n || crate::text::chars_eq_str(&t, "--") {
        return 1;
    }
    proof {
        reveal_strlit("--");
    }
    if crate::text::starts_with(&t, &to_chars("--")) {
        let name = crate::text::slice_chars(&t, 2, t.len());
        if crate::text::contains_char(&name, '=') {
            return 1;
        }
        let a = crate::scan::lookup_long_exec(g, node, &name);
        let b = crate::scan::lookup_long_exec(g, 0, &name);
        let wa = match a {
            Some(o) => o.kind != OptKind::Flag,
            None => false,
        };
        let wb = match b {
            Some(o) => o.kind != OptKind::Flag,
            None => false,
        };
        if wa || wb {
            2
        } else {
            1
        }
    } else if t.len() == 2 {
        let a = crate::scan::lookup_short_exec(g, node, t[1]);
        let b = crate::scan::lookup_short_exec(g, 0, t[1]);
        let wa = match a {
            Some(o) => o.kind != OptKind::Flag,
            None => false,
        };
        let wb = match b {
            Some(o) => o.kind != OptKind::Flag,
            None => false,
        };
        if wa || wb {
            2
        } else {
            1
        }
    } else {
        1
    }
}

/// The commands that the tokens name, and the command reached.
pub fn matched_path(g: &Grammar, toks: &Vec<String>) -> (r: (usize, Vec<String>))
    ensures
        (r.0 as int, r.1.deep_view()) == walk(*g, toks.deep_view(), 0, 0, seq![]),
{
    let mut node: usize = 0;
    let mut path: Vec<String> = Vec::new();
    let mut i: usize = 0;
    assert(path.deep_view() =~= Seq::<Seq<char>>::empty());
    while i < toks.len()
        invariant
            walk(*g, toks.deep_view(), 0, 0, seq![]) == walk(
                *g,
                toks.deep_view(),
                i as int,
                node as int,
                path.deep_view(),
            ),
        decreases toks@.len() - i,
    {
        let n = toks.len();
        let t = to_chars(toks[i].as_str());
        assert(t@ == toks.deep_view()[i as int]);
        if crate::text::chars_eq_str(&t, "--") {
            return (node, path);
        }
        if t.len() > 0 && t[0] == '-' {
            let w = option_width(g, node, toks, i);
            i = i + w;
            continue;
        }
        let kids_len = if node < g.nodes.len() {
            g.nodes[node].children.len()
        } else {
            0
        };
        assert(kids_len == node_kids(*g, node as int).len());
        let found = if node < g.nodes.len() {
            crate::scan::find_child_exec(g, &g.nodes[node].children, toks[i].as_str())
        } else {
            assert(node_kids(*g, node as int) =~= Seq::<usize>::empty());
            None
        };
        proof {
            crate::scan::lemma_find_child_valid(*g, node_kids(*g, node as int), toks@[i as int]@);
        }
        match found {
            Some(c) => {
                let ghost before = path.deep_view();
                let name = from_chars(&to_chars(g.nodes[c].name.as_str()));
                let ghost nv = name@;
                path.push(name);
                assert(path.deep_view() =~= before.push(nv));
                node = c;
                i = i + 1;
            },
            None => {
                if kids_len > 0 {
                    return (node, path);
                }
                i = i + 1;
            },
        }
        assert(i <= n);
    }
    (node, path)
}


/// `a` sorts before `b`, character by character, a prefix first.
pub open spec fn seq_lt(a: Seq<char>, b: Seq<char>) -> bool
    decreases a.len(),
{
    if a.len() == 0 {
        b.len() > 0
    } else if b.len() == 0 {
        false
    } else if a[0] != b[0] {
        a[0] < b[0]
    } else {
        seq_lt(a.drop_first(), b.drop_first())
    }
}

/// No text sorts before itself, and two texts that differ sort one way.
pub proof fn lemma_lt_order(a: Seq<char>, b: Seq<char>)
    ensures
        !seq_lt(a, a),
        a != b ==> (seq_lt(a, b) != seq_lt(b, a)),
    decreases a.len(),
{
    if a.len() > 0 {
        lemma_lt_order(a.drop_first(), a.drop_first());
        if b.len() > 0 && a[0] == b[0] {
            lemma_lt_order(a.drop_first(), b.drop_first());
            if a.drop_first() == b.drop_first() {
                assert(a =~= seq![a[0]] + a.drop_first());
                assert(b =~= seq![b[0]] + b.drop_first());
            }
        }
    } else if b.len() == 0 {
        assert(a =~= b);
    }
}

/// Sorting before is transitive.
pub proof fn lemma_lt_trans(a: Seq<char>, b: Seq<char>, c: Seq<char>)
    requires
        seq_lt(a, b),
        seq_lt(b, c),
    ensures
        seq_lt(a, c),
    decreases a.len(),
{
    if a.len() > 0 && b.len() > 0 && c.len() > 0 && a[0] == b[0] && b[0] == c[0] {
        lemma_lt_trans(a.drop_first(), b.drop_first(), c.drop_first());
    }
}

/// Whether `a` sorts before `b`.
fn lt_exec(a: &[char], b: &[char]) -> (r: bool)
    ensures
        r == seq_lt(a@, b@),
{
    let mut i: usize = 0;
    assert(a@.skip(0) =~= a@);
    assert(b@.skip(0) =~= b@);
    while i < a.len() && i < b.len()
        invariant
            i <= a@.len(),
            i <= b@.len(),
            forall|j: int| 0 <= j < i ==> a@[j] == b@[j],
            seq_lt(a@, b@) == seq_lt(a@.skip(i as int), b@.skip(i as int)),
        decreases a@.len() - i,
    {
        assert(a@.skip(i as int)[0] == a@[i as int]);
        assert(b@.skip(i as int)[0] == b@[i as int]);
        if a[i] != b[i] {
            return a[i] < b[i];
        }
        assert(a@.skip(i as int).drop_first() =~= a@.skip(i + 1));
        assert(b@.skip(i as int).drop_first() =~= b@.skip(i + 1));
        i = i + 1;
    }
    i == a.len() && i < b.len()
}

/// The texts sort strictly upwards.
pub open spec fn sorted_set(s: Seq<Seq<char>>) -> bool {
    forall|i: int, j: int| 0 <= i < j < s.len() ==> seq_lt(#[trigger] s[i], #[trigger] s[j])
}

/// Adds `x` to the sorted texts `v`, unless it is there.
fn insert_term(v: &mut Vec<String>, x: String)
    requires
        sorted_set(old(v).deep_view()),
    ensures
        sorted_set(final(v).deep_view()),
        forall|y: Seq<char>|
            final(v).deep_view().contains(y) <==> (old(v).deep_view().contains(y) || y == x@),
{
    let ghost before = v.deep_view();
    let xc = to_chars(x.as_str());
    let mut k: usize = 0;
    while k < v.len() && lt_exec(&to_chars(v[k].as_str()), &xc)
        invariant
            k <= v@.len(),
            before == v.deep_view(),
            xc@ == x@,
            sorted_set(before),
            forall|j: int| 0 <= j < k ==> seq_lt(#[trigger] before[j], x@),
        decreases v@.len() - k,
    {
        k = k + 1;
    }
    if k < v.len() && crate::text::chars_eq_str(&xc, v[k].as_str()) {
        assert(before[k as int] == x@);
        assert forall|y: Seq<char>| before.contains(y) <==> (before.contains(y) || y == x@) by {
            if y == x@ {
                assert(before[k as int] == y);
            }
        }
        return;
    }
    proof {
        if k < before.len() {
            assert(!seq_lt(before[k as int], x@));
            lemma_lt_order(before[k as int], x@);
        }
    }
    let ghost xv = x@;
    v.insert(k, x);
    let ghost after = v.deep_view();
    assert(after =~= before.insert(k as int, xv));
    assert forall|i: int, j: int| 0 <= i < j < after.len() implies seq_lt(
        #[trigger] after[i],
        #[trigger] after[j],
    ) by {
        if j < k {
            assert(after[i] == before[i] && after[j] == before[j]);
        } else if j == k {
            assert(after[i] == before[i]);
        } else if i == k {
            assert(after[j] == before[j - 1]);
            if j - 1 > k {
                lemma_lt_trans(xv, before[k as int], before[j - 1]);
            }
        } else if i < k {
            assert(after[i] == before[i] && after[j] == before[j - 1]);
        } else {
            assert(after[i] == before[i - 1] && after[j] == before[j - 1]);
        }
    }
    assert forall|y: Seq<char>| after.contains(y) <==> (before.contains(y) || y == xv) by {
        if after.contains(y) {
            let i = choose|i: int| 0 <= i < after.len() && after[i] == y;
            if i < k {
                assert(before[i] == y);
            } else if i > k {
                assert(before[i - 1] == y);
            }
        }
        if before.contains(y) {
            let i = choose|i: int| 0 <= i < before.len() && before[i] == y;
            if i < k {
                assert(after[i] == y);
            } else {
                assert(after[i + 1] == y);
            }
        }
        if y == xv {
            assert(after[k as int] == y);
        }
    }
}

/// `<NAME>` for a positional argument.
pub open spec fn pos_term(p: PosSpec) -> Seq<char> {
    "<"@ + p.name@ + ">"@
}

/// `--long` for an option.
pub open spec fn opt_term(o: OptSpec) -> Seq<char> {
    "--"@ + o.long@
}

/// `y` is a term expected at a command without subcommands: one of its
/// positional arguments or options, or, below the program itself, one of
/// the global options.
pub open spec fn expected_term(g: Grammar, node: int, y: Seq<char>) -> bool {
    ||| exists|i: int| 0 <= i < node_pos(g, node).len() && y == pos_term(#[trigger] node_pos(g, node)[i])
    ||| exists|i: int|
        0 <= i < node_opts(g, node).len() && y == opt_term(#[trigger] node_opts(g, node)[i])
    ||| (node != 0 && exists|i: int| 0 <= i < g.globals@.len() && y == opt_term(#[trigger] g.globals@[i]))
}

/// The names of the subcommands of a node, in order.
pub open spec fn kid_names(g: Grammar, node: int) -> Seq<Seq<char>> {
    Seq::new(
        node_kids(g, node).len(),
        |i: int|
            if (node_kids(g, node)[i] as int) < g.nodes@.len() {
                g.nodes@[node_kids(g, node)[i] as int].name@
            } else {
                seq![]
            },
    )
}

/// Adds the terms of `opts` to `terms`.
fn add_opt_terms(given: Vec<String>, opts: &Vec<OptSpec>) -> (terms: Vec<String>)
    requires
        sorted_set(given.deep_view()),
    ensures
        sorted_set(terms.deep_view()),
        forall|y: Seq<char>|
            terms.deep_view().contains(y) <==> (given.deep_view().contains(y) || exists|i: int|
                0 <= i < opts@.len() && y == opt_term(#[trigger] opts@[i])),
{
    let ghost start = given.deep_view();
    let mut terms = given;
    let mut i: usize = 0;
    while i < opts.len()
        invariant
            i <= opts@.len(),
            sorted_set(terms.deep_view()),
            forall|y: Seq<char>|
                terms.deep_view().contains(y) <==> (start.contains(y) || exists|j: int|
                    0 <= j < i && y == opt_term(#[trigger] opts@[j])),
        decreases opts@.len() - i,
    {
        let mut t = to_chars("--");
        append_str(&mut t, opts[i].long.as_str());
        let term = from_chars(&t);
        let ghost tv = term@;
        assert(tv == opt_term(opts@[i as int]));
        let ghost mid = terms.deep_view();
        let ghost old_i = i as int;
        insert_term(&mut terms, term);
        i = i + 1;
        assert forall|y: Seq<char>|
            terms.deep_view().contains(y) <==> (start.contains(y) || exists|j: int|
                0 <= j < i && y == opt_term(#[trigger] opts@[j])) by {
            assert(mid.contains(y) <==> (start.contains(y) || exists|j: int|
                0 <= j < old_i && y == opt_term(#[trigger] opts@[j])));
            if y == tv {
                assert(y == opt_term(opts@[old_i]));
            }
            if exists|j: int| 0 <= j < i && y == opt_term(#[trigger] opts@[j]) {
                let j = choose|j: int| 0 <= j < i && y == opt_term(#[trigger] opts@[j]);
                if j < old_i {
                    assert(0 <= j < old_i && y == opt_term(opts@[j]));
                    assert(mid.contains(y));
                } else {
                    assert(j == old_i);
                    assert(y == tv);
                }
            }
            if mid.contains(y) && !start.contains(y) {
                let j = choose|j: int| 0 <= j < old_i && y == opt_term(#[trigger] opts@[j]);
                assert(0 <= j < i && y == opt_term(opts@[j]));
            }
        }
    }
    terms
}

/// What may stand where a command line stopped: the subcommands of a
/// command that has them, in order; else its positional arguments and
/// options (with the global options below the program), sorted.
pub fn expected_terms(g: &Grammar, node: usize) -> (r: Vec<String>)
    ensures
        node_kids(*g, node as int).len() > 0 ==> r.deep_view() == kid_names(*g, node as int),
        node_kids(*g, node as int).len() == 0 ==> sorted_set(r.deep_view()) && forall|y: Seq<char>|
            r.deep_view().contains(y) <==> expected_term(*g, node as int, y),
{
    let mut out: Vec<String> = Vec::new();
    if node >= g.nodes.len() {
        assert(node_kids(*g, node as int) =~= Seq::<usize>::empty());
        assert(node_pos(*g, node as int) =~= Seq::<PosSpec>::empty());
        assert(node_opts(*g, node as int) =~= Seq::<OptSpec>::empty());
        if node != 0 {
            assert(out.deep_view() =~= Seq::<Seq<char>>::empty());
            out = add_opt_terms(out, &g.globals);
        }
        return out;
    }
    let n = &g.nodes[node];
    if n.children.len() > 0 {
        let mut i: usize = 0;
        while i < n.children.len()
            invariant
                i <= n.children@.len(),
                *n == g.nodes@[node as int],
                node < g.nodes@.len(),
                out.deep_view() == kid_names(*g, node as int).take(i as int),
            decreases n.children@.len() - i,
        {
            let c = n.children[i];
            let name = if c < g.nodes.len() {
                from_chars(&to_chars(g.nodes[c].name.as_str()))
            } else {
                String::new()
            };
            let ghost before = out.deep_view();
            let ghost nv = name@;
            out.push(name);
            assert(out.deep_view() =~= before.push(nv));
            assert(kid_names(*g, node as int).take(i + 1) =~= kid_names(*g, node as int).take(
                i as int,
            ).push(nv));
            i = i + 1;
        }
        assert(kid_names(*g, node as int).take(n.children@.len() as int) =~= kid_names(
            *g,
            node as int,
        ));
        return out;
    }
    assert(out.deep_view() =~= Seq::<Seq<char>>::empty());
    let mut i: usize = 0;
    while i < n.positionals.len()
        invariant
            i <= n.positionals@.len(),
            *n == g.nodes@[node as int],
            node < g.nodes@.len(),
            sorted_set(out.deep_view()),
            forall|y: Seq<char>|
                out.deep_view().contains(y) <==> exists|j: int|
                    0 <= j < i && y == pos_term(#[trigger] n.positionals@[j]),
        decreases n.positionals@.len() - i,
    {
        let mut t = to_chars("<");
        append_str(&mut t, n.positionals[i].name.as_str());
        append_str(&mut t, ">");
        let term = from_chars(&t);
        let ghost tv = term@;
        let ghost mid = out.deep_view();
        insert_term(&mut out, term);
        assert forall|y: Seq<char>|
            out.deep_view().contains(y) <==> exists|j: int|
                0 <= j < i + 1 && y == pos_term(#[trigger] n.positionals@[j]) by {
            assert(mid.contains(y) <==> exists|j: int|
                0 <= j < i && y == pos_term(#[trigger] n.positionals@[j]));
            if y == tv {
                assert(y == pos_term(n.positionals@[i as int]));
            }
            if exists|j: int| 0 <= j < i + 1 && y == pos_term(#[trigger] n.positionals@[j]) {
                let j = choose|j: int| 0 <= j < i + 1 && y == pos_term(#[trigger] n.positionals@[j]);
                if j < i {
                    assert(0 <= j < i && y == pos_term(n.positionals@[j]));
                    assert(mid.contains(y));
                }
            }
            if mid.contains(y) {
                let j = choose|j: int| 0 <= j < i && y == pos_term(#[trigger] n.positionals@[j]);
                assert(0 <= j < i + 1 && y == pos_term(n.positionals@[j]));
            }
        }
        i = i + 1;
    }
    let ghost after_pos = out.deep_view();
    out = add_opt_terms(out, &n.options);
    let ghost after_opts = out.deep_view();
    if node != 0 {
        out = add_opt_terms(out, &g.globals);
    }
    assert forall|y: Seq<char>| out.deep_view().contains(y) <==> expected_term(*g, node as int, y) by {
        assert(node_pos(*g, node as int) == n.positionals@);
        assert(node_opts(*g, node as int) == n.options@);
    }
    out
}


/// The distance of two lengths.
pub open spec fn len_gap(a: Seq<char>, b: Seq<char>) -> nat {
    if a.len() >= b.len() {
        (a.len() - b.len()) as nat
    } else {
        (b.len() - a.len()) as nat
    }
}

/// `a` is nearer to `t` than `b`: a smaller distance, or the same distance
/// and a smaller gap in length.
pub open spec fn nearer(a: Seq<char>, b: Seq<char>, t: Seq<char>) -> bool {
    lev(a, t) < lev(b, t) || (lev(a, t) == lev(b, t) && len_gap(a, t) < len_gap(b, t))
}

/// The index of the first nearest of the names to `t`.
pub open spec fn nearest_index(names: Seq<Seq<char>>, t: Seq<char>) -> Option<int>
    decreases names.len(),
{
    if names.len() == 0 {
        None
    } else {
        match nearest_index(names.drop_last(), t) {
            None => Some(names.len() - 1),
            Some(b) => if nearer(names.last(), names[b], t) {
                Some(names.len() - 1)
            } else {
                Some(b)
            },
        }
    }
}

/// The nearest name to `t` when it is at most two edits away.
pub open spec fn nearest_spec(names: Seq<Seq<char>>, t: Seq<char>) -> Option<Seq<char>> {
    match nearest_index(names, t) {
        Some(b) => if 0 <= b < names.len() && lev(names[b], t) <= 2 {
            Some(names[b])
        } else {
            None
        },
        None => None,
    }
}

proof fn lemma_nearest_range(names: Seq<Seq<char>>, t: Seq<char>)
    ensures
        nearest_index(names, t) matches Some(b) ==> 0 <= b < names.len(),
    decreases names.len(),
{
    if names.len() > 0 {
        lemma_nearest_range(names.drop_last(), t);
    }
}

/// The nearest of `names` to `token`, when it is at most two edits away;
/// texts as long as the address space are not compared.
pub fn nearest_name(names: &Vec<String>, token: &str) -> (r: Option<String>)
    ensures
        token@.len() < usize::MAX && (forall|i: int|
            0 <= i < names@.len() ==> (#[trigger] names@[i])@.len() < usize::MAX) ==> sview(r)
            == nearest_spec(names.deep_view(), token@),
{
    let tc = to_chars(token);
    if tc.len() == usize::MAX {
        return None;
    }
    let ghost ns = names.deep_view();
    let mut best: Option<(usize, usize, usize)> = None;
    let mut i: usize = 0;
    assert(ns.take(0) =~= Seq::<Seq<char>>::empty());
    while i < names.len()
        invariant
            i <= names@.len(),
            ns == names.deep_view(),
            tc@ == token@,
            tc@.len() < usize::MAX,
            best matches Some((b, _, _)) ==> b < i,
            match (best, nearest_index(ns.take(i as int), token@)) {
                (Some((b, d, gap)), Some(x)) => b as int == x && 0 <= x < i && d == lev(ns[x], token@)
                    && gap == len_gap(ns[x], token@),
                (None, None) => true,
                _ => false,
            } || exists|k: int| 0 <= k < i && (#[trigger] ns[k]).len() >= usize::MAX,
        decreases names@.len() - i,
    {
        assert(ns.take(i + 1).drop_last() =~= ns.take(i as int));
        assert(ns.take(i + 1).last() == ns[i as int]);
        let nc = to_chars(names[i].as_str());
        if nc.len() == usize::MAX {
            assert(ns[i as int].len() >= usize::MAX);
            i = i + 1;
            continue;
        }
        let d = edit_distance(names[i].as_str(), token);
        let gap = if nc.len() >= tc.len() {
            nc.len() - tc.len()
        } else {
            tc.len() - nc.len()
        };
        match best {
            None => {
                best = Some((i, d, gap));
            },
            Some((b, bd, bg)) => {
                if d < bd || (d == bd && gap < bg) {
                    best = Some((i, d, gap));
                }
            },
        }
        i = i + 1;
    }
    assert(ns.take(ns.len() as int) =~= ns);
    match best {
        Some((b, d, _)) => if d <= 2 {
            Some(from_chars(&to_chars(names[b].as_str())))
        } else {
            None
        },
        None => None,
    }
}

/// The usage line of node `node` reached by the command names `path`.
pub open spec fn usage_spec(g: Grammar, node: int, path: Seq<Seq<char>>) -> Seq<char> {
    try_line(path) + " [OPTIONS]"@ + if node_kids(g, node).len() > 0 {
        " <COMMAND>"@
    } else {
        pos_usage(node_pos(g, node))
    }
}

/// The positional arguments as shown in a usage line.
pub open spec fn pos_usage(ps: Seq<PosSpec>) -> Seq<char>
    decreases ps.len(),
{
    if ps.len() == 0 {
        seq![]
    } else {
        pos_usage(ps.drop_last()) + if ps.last().last {
            " [-- <"@ + ps.last().name@ + ">...]"@
        } else {
            " "@ + pos_display(ps.last())
        }
    }
}

/// The usage line of a command.
pub fn command_usage(g: &Grammar, node: usize, path: &Vec<String>) -> (r: String)
    ensures
        r@ == usage_spec(*g, node as int, path.deep_view()),
{
    let line = command_try(path);
    let mut out = to_chars(line.as_str());
    append_str(&mut out, " [OPTIONS]");
    if node < g.nodes.len() && g.nodes[node].children.len() > 0 {
        append_str(&mut out, " <COMMAND>");
        return from_chars(&out);
    }
    if node >= g.nodes.len() {
        assert(node_kids(*g, node as int) =~= Seq::<usize>::empty());
        assert(node_pos(*g, node as int) =~= Seq::<PosSpec>::empty());
        return from_chars(&out);
    }
    let ps = &g.nodes[node].positionals;
    let ghost base = out@;
    let mut i: usize = 0;
    assert(ps@.take(0) =~= Seq::<PosSpec>::empty());
    while i < ps.len()
        invariant
            i <= ps@.len(),
            out@ == base + pos_usage(ps@.take(i as int)),
        decreases ps@.len() - i,
    {
        assert(ps@.take(i + 1).drop_last() =~= ps@.take(i as int));
        assert(ps@.take(i + 1).last() == ps@[i as int]);
        if ps[i].last {
            append_str(&mut out, " [-- <");
            append_str(&mut out, ps[i].name.as_str());
            append_str(&mut out, ">...]");
        } else {
            let d = crate::scan::pos_display_exec(&ps[i]);
            append_str(&mut out, " ");
            append_str(&mut out, d.as_str());
        }
        i = i + 1;
    }
    assert(ps@.take(ps@.len() as int) =~= ps@);
    from_chars(&out)
}

/// The message of a fault, as its first line reads.
pub open spec fn fault_message(f: Fault, path: Seq<Seq<char>>) -> Seq<char> {
    match f {
        Fault::Help => "help requested"@,
        Fault::Version => "version requested"@,
        Fault::UnknownArgument(t) => "unexpected argument '"@ + t + "' found"@,
        Fault::UnrecognizedSubcommand(t) => "unrecognized subcommand '"@ + t + "'"@,
        Fault::MissingValue(a) => "a value is required for '"@ + a + "' but none was supplied"@,
        Fault::UnexpectedValue(a, v) => "unexpected value '"@ + v + "' for '"@ + a
            + "' found; no more were expected"@,
        Fault::Repeated(a) => "the argument '"@ + a + "' cannot be used multiple times"@,
        Fault::InvalidValue(v, a, reason) => "invalid value '"@ + v + "' for '"@ + a + "': "@
            + reason,
        Fault::MissingSubcommand => "'"@ + try_line(path)
            + "' requires a subcommand but one was not provided"@,
        Fault::MissingRequired(_) => "the following required arguments were not provided"@,
        Fault::Conflict(a, b) => "the argument '"@ + a + "' cannot be used with '"@ + b + "'"@,
    }
}

/// The message of a fault.
pub fn fault_text(f: &ParseFault, path: &Vec<String>) -> (r: String)
    ensures
        r@ == fault_message(f.fv(), path.deep_view()),
{
    let v: Vec<char> = match f {
        ParseFault::Help => to_chars("help requested"),
        ParseFault::Version => to_chars("version requested"),
        ParseFault::UnknownArgument { token } => {
            let mut v = to_chars("unexpected argument '");
            append_str(&mut v, token.as_str());
            append_str(&mut v, "' found");
            v
        },
        ParseFault::UnrecognizedSubcommand { token } => {
            let mut v = to_chars("unrecognized subcommand '");
            append_str(&mut v, token.as_str());
            append_str(&mut v, "'");
            v
        },
        ParseFault::MissingValue { arg } => {
            let mut v = to_chars("a value is required for '");
            append_str(&mut v, arg.as_str());
            append_str(&mut v, "' but none was supplied");
            v
        },
        ParseFault::UnexpectedValue { arg, value } => {
            let mut v = to_chars("unexpected value '");
            append_str(&mut v, value.as_str());
            append_str(&mut v, "' for '");
            append_str(&mut v, arg.as_str());
            append_str(&mut v, "' found; no more were expected");
            v
        },
        ParseFault::Repeated { arg } => {
            let mut v = to_chars("the argument '");
            append_str(&mut v, arg.as_str());
            append_str(&mut v, "' cannot be used multiple times");
            v
        },
        ParseFault::InvalidValue { value, arg, reason } => {
            let mut v = to_chars("invalid value '");
            append_str(&mut v, value.as_str());
            append_str(&mut v, "' for '");
            append_str(&mut v, arg.as_str());
            append_str(&mut v, "': ");
            append_str(&mut v, reason.as_str());
            v
        },
        ParseFault::MissingSubcommand => {
            let mut v = to_chars("'");
            let line = command_try(path);
            append_str(&mut v, line.as_str());
            append_str(&mut v, "' requires a subcommand but one was not provided");
            v
        },
        ParseFault::MissingRequired { .. } => to_chars(
            "the following required arguments were not provided",
        ),
        ParseFault::Conflict { arg, other } => {
            let mut v = to_chars("the argument '");
            append_str(&mut v, arg.as_str());
            append_str(&mut v, "' cannot be used with '");
            append_str(&mut v, other.as_str());
            append_str(&mut v, "'");
            v
        },
    };
    from_chars(&v)
}

/// The token at fault: the unknown argument or subcommand, or the value
/// that was refused.
pub open spec fn fault_token(f: Fault) -> Option<Seq<char>> {
    match f {
        Fault::UnknownArgument(t) => Some(t),
        Fault::UnrecognizedSubcommand(t) => Some(t),
        Fault::InvalidValue(v, _, _) => Some(v),
        Fault::UnexpectedValue(_, v) => Some(v),
        _ => None,
    }
}

/// The token at fault.
pub fn unexpected_token(f: &ParseFault) -> (r: Option<String>)
    ensures
        sview(r) == fault_token(f.fv()),
{
    match f {
        ParseFault::UnknownArgument { token } => Some(from_chars(&to_chars(token.as_str()))),
        ParseFault::UnrecognizedSubcommand { token } => Some(from_chars(&to_chars(token.as_str()))),
        ParseFault::InvalidValue { value, .. } => Some(from_chars(&to_chars(value.as_str()))),
        ParseFault::UnexpectedValue { value, .. } => Some(from_chars(&to_chars(value.as_str()))),
        _ => None,
    }
}

/// What `gd` says about a command line it could not read.
#[derive(Debug, Clone, PartialEq, Eq)]
pub struct ParseDiagnostic {
    pub error: String,
    pub usage: Option<String>,
    pub suggestion: Option<String>,
    pub matched_path: Vec<String>,
    pub unexpected_token: Option<String>,
    pub expected: Vec<String>,
    pub json: bool,
}

/// `serde_json`'s compact text (`Value::to_string`) of the object that maps
/// `error`, `matched_path`, `unexpected_token`, `expected`, `suggestion` and
/// `usage` to the given values: strings as JSON strings, lists as arrays of
/// strings, and a missing value as `null`.
pub uninterp spec fn diagnostic_json_text(
    error: Seq<char>,
    matched_path: Seq<Seq<char>>,
    unexpected_token: Option<Seq<char>>,
    expected: Seq<Seq<char>>,
    suggestion: Option<Seq<char>>,
    usage: Option<Seq<char>>,
) -> Seq<char>;

/// The fields of a diagnostic put into a `serde_json::Map` under their
/// names, then written with `Value::to_string`, the compact form. Claimed:
/// the text is the named result for the fields, and it holds no line break:
/// the compact writer puts no whitespace between tokens and writes a line
/// break inside a string as the escape `\n` (the `ESCAPE` table of
/// `serde_json::ser`). Nothing else is claimed of the text.
#[verifier::external_body]
fn write_diagnostic_json(
    error: &str,
    matched_path: &Vec<String>,
    unexpected_token: &Option<String>,
    expected: &Vec<String>,
    suggestion: &Option<String>,
    usage: &Option<String>,
) -> (r: String)
    ensures
        r@ == diagnostic_json_text(
            error@,
            matched_path.deep_view(),
            crate::client::sview_opt(*unexpected_token),
            expected.deep_view(),
            crate::client::sview_opt(*suggestion),
            crate::client::sview_opt(*usage),
        ),
        forall|i: int| 0 <= i < r@.len() ==> r@[i] != '\n',
{
    let mut m = serde_json::Map::new();
    m.insert("error".to_string(), error.into());
    m.insert("matched_path".to_string(), matched_path.clone().into());
    m.insert("unexpected_token".to_string(), unexpected_token.clone().into());
    m.insert("expected".to_string(), expected.clone().into());
    m.insert("suggestion".to_string(), suggestion.clone().into());
    m.insert("usage".to_string(), usage.clone().into());
    serde_json::Value::Object(m).to_string()
}

impl ParseDiagnostic {
    /// The diagnostic of a failed read of `args` (the program name first)
    /// against `g`: the commands that the tokens name, the message of the
    /// fault, the token at fault, what was expected at the command reached,
    /// its usage line, and a suggestion: the nearest subcommand for an
    /// unknown subcommand, else what `similar` (the parser's similarity
    /// ranking) proposes, else the usage line.
    pub fn from_failure(
        g: &Grammar,
        args: &Vec<String>,
        failure: &ParseFailure,
        similar: &Similar,
    ) -> (r: ParseDiagnostic)
        ensures
            ({
                let (node, path) = walk(
                    *g,
                    crate::cli::tail(args.deep_view()),
                    0,
                    0,
                    seq![],
                );
                &&& r.matched_path.deep_view() == path
                &&& r.error@ == fault_message(failure.fault.fv(), failure.path.deep_view())
                &&& sview(r.unexpected_token) == fault_token(failure.fault.fv())
                &&& sview(r.usage) == Some(usage_spec(*g, node, path))
                &&& r.json == wants_json(args.deep_view())
                &&& node_kids(*g, node).len() > 0 ==> r.expected.deep_view() == kid_names(*g, node)
                &&& node_kids(*g, node).len() == 0 ==> sorted_set(r.expected.deep_view()) && forall|
                    y: Seq<char>,
                | r.expected.deep_view().contains(y) <==> expected_term(*g, node, y)
                &&& r.suggestion is Some
                &&& basis_fits(*g, node, failure.fault.fv()) ==> sview(r.suggestion) == Some(
                    suggestion_spec(
                        *g,
                        node,
                        path,
                        failure.fault.fv(),
                        *similar,
                        usage_spec(*g, node, path),
                    ),
                )
            }),
    {
        let mut toks: Vec<String> = Vec::new();
        assert(toks.deep_view() =~= Seq::<Seq<char>>::empty());
        if args.len() > 0 {
            let mut i: usize = 1;
            assert(args.deep_view().subrange(1, 1) =~= Seq::<Seq<char>>::empty());
            while i < args.len()
                invariant
                    1 <= i <= args@.len(),
                    toks.deep_view() == args.deep_view().subrange(1, i as int),
                decreases args@.len() - i,
            {
                let ghost before = toks.deep_view();
                let c = from_chars(&to_chars(args[i].as_str()));
                let ghost cv = c@;
                toks.push(c);
                assert(toks.deep_view() =~= before.push(cv));
                assert(args.deep_view().subrange(1, i + 1) =~= args.deep_view().subrange(
                    1,
                    i as int,
                ).push(cv));
                i = i + 1;
            }
            assert(args.deep_view().subrange(1, args@.len() as int) =~= crate::cli::tail(
                args.deep_view(),
            ));
        }
        assert(toks.deep_view() =~= crate::cli::tail(args.deep_view()));
        let (node, path) = matched_path(g, &toks);
        let usage = command_usage(g, node, &path);
        let error = fault_text(&failure.fault, &failure.path);
        let token = unexpected_token(&failure.fault);
        let expected = expected_terms(g, node);
        let suggestion = suggestion_for(g, node, &path, &failure.fault, similar, &usage);
        ParseDiagnostic {
            error,
            usage: Some(usage),
            suggestion,
            matched_path: path,
            unexpected_token: token,
            expected,
            json: wants_json_diagnostic(args),
        }
    }

    /// The diagnostic for the standard error stream: as text, the message
    /// with `Try:` and `Usage:` lines when there is a suggestion or usage;
    /// as JSON, for `--json` or `--format json`, the object of the fields
    /// written compactly on one line.
    pub fn render_stderr(&self) -> (r: String)
        ensures
            !self.json ==> r@ == self.error@ + match self.suggestion {
                Some(s) => "\nTry: "@ + s@,
                None => seq![],
            } + match self.usage {
                Some(u) => "\nUsage: "@ + u@,
                None => seq![],
            },
            self.json ==> r@ == diagnostic_json_text(
                self.error@,
                self.matched_path.deep_view(),
                crate::client::sview_opt(self.unexpected_token),
                self.expected.deep_view(),
                crate::client::sview_opt(self.suggestion),
                crate::client::sview_opt(self.usage),
            ),
            self.json ==> forall|i: int| 0 <= i < r@.len() ==> r@[i] != '\n',
    {
        if self.json {
            return write_diagnostic_json(
                self.error.as_str(),
                &self.matched_path,
                &self.unexpected_token,
                &self.expected,
                &self.suggestion,
                &self.usage,
            );
        }
        let mut out = to_chars(self.error.as_str());
        if let Some(s) = &self.suggestion {
            append_str(&mut out, "\nTry: ");
            append_str(&mut out, s.as_str());
        }
        if let Some(u) = &self.usage {
            append_str(&mut out, "\nUsage: ");
            append_str(&mut out, u.as_str());
        }
        from_chars(&out)
    }
}


/// The names of the subcommands among `kids` that are nodes of `g`.
pub open spec fn valid_kid_names(g: Grammar, kids: Seq<usize>) -> Seq<Seq<char>>
    decreases kids.len(),
{
    if kids.len() == 0 {
        seq![]
    } else {
        let r = valid_kid_names(g, kids.drop_last());
        if (kids.last() as int) < g.nodes@.len() {
            r.push(g.nodes@[kids.last() as int].name@)
        } else {
            r
        }
    }
}

/// What the argument parser's similarity ranking proposes for a fault,
/// when the nearest subcommand is not near enough: the name of a subcommand
/// or an option, to be written into a command line, or a value to be
/// suggested as it is.
#[derive(Debug, PartialEq, Eq)]
pub enum Similar {
    Nothing,
    Name(String),
    Value(String),
}

/// The subcommands that a suggestion for fault `f` at node `node` is looked
/// for among, and the token to match them against: those of the node for
/// an unknown subcommand, none otherwise.
pub open spec fn suggestion_basis(g: Grammar, node: int, f: Fault) -> (Seq<Seq<char>>, Seq<char>) {
    match f {
        Fault::UnrecognizedSubcommand(t) => (valid_kid_names(g, node_kids(g, node)), t),
        _ => (seq![], seq![]),
    }
}

/// The candidates and the token of the suggestion basis fit in memory
/// with room for one more character.
pub open spec fn basis_fits(g: Grammar, node: int, f: Fault) -> bool {
    let (names, token) = suggestion_basis(g, node, f);
    &&& token.len() < usize::MAX
    &&& forall|i: int| 0 <= i < names.len() ==> (#[trigger] names[i]).len() < usize::MAX
}

/// The suggestion: the command line with the nearest subcommand, when one
/// is near enough; else the command line with the name that the parser's
/// ranking proposes, or the value it proposes; else the usage line.
pub open spec fn suggestion_spec(
    g: Grammar,
    node: int,
    path: Seq<Seq<char>>,
    f: Fault,
    similar: Similar,
    usage: Seq<char>,
) -> Seq<char> {
    let (names, token) = suggestion_basis(g, node, f);
    match nearest_spec(names, token) {
        Some(n) => try_line(path.push(n)),
        None => match similar {
            Similar::Name(v) => try_line(path.push(v@)),
            Similar::Value(v) => v@,
            Similar::Nothing => usage,
        },
    }
}

/// The names of the subcommands of node `node`.
fn subcommand_names(g: &Grammar, node: usize) -> (r: Vec<String>)
    ensures
        r.deep_view() == valid_kid_names(*g, node_kids(*g, node as int)),
{
    let mut names: Vec<String> = Vec::new();
    if node < g.nodes.len() {
        let kids = &g.nodes[node].children;
        let ghost ks = kids@;
        assert(ks =~= node_kids(*g, node as int));
        let mut i: usize = 0;
        assert(ks.take(0) =~= Seq::<usize>::empty());
        while i < kids.len()
            invariant
                i <= ks.len(),
                ks == kids@,
                names.deep_view() == valid_kid_names(*g, ks.take(i as int)),
            decreases ks.len() - i,
        {
            assert(ks.take(i + 1).drop_last() =~= ks.take(i as int));
            let ghost before = names.deep_view();
            if kids[i] < g.nodes.len() {
                let n = from_chars(&to_chars(g.nodes[kids[i]].name.as_str()));
                let ghost nv = n@;
                names.push(n);
                assert(names.deep_view() =~= before.push(nv));
            }
            i = i + 1;
        }
        assert(ks.take(ks.len() as int) =~= ks);
    } else {
        assert(names.deep_view() =~= valid_kid_names(*g, node_kids(*g, node as int)));
    }
    names
}

/// The command line `path` followed by `last`.
fn try_with(path: &Vec<String>, last: &str) -> (r: String)
    ensures
        r@ == try_line(path.deep_view().push(last@)),
{
    let mut segments: Vec<String> = Vec::new();
    let mut i: usize = 0;
    while i < path.len()
        invariant
            i <= path@.len(),
            segments.deep_view() == path.deep_view().take(i as int),
        decreases path@.len() - i,
    {
        let ghost before = segments.deep_view();
        let c = from_chars(&to_chars(path[i].as_str()));
        let ghost cv = c@;
        segments.push(c);
        assert(segments.deep_view() =~= before.push(cv));
        assert(path.deep_view().take(i + 1) =~= path.deep_view().take(i as int).push(cv));
        i = i + 1;
    }
    assert(path.deep_view().take(path@.len() as int) =~= path.deep_view());
    let l = from_chars(&to_chars(last));
    let ghost lv = l@;
    let ghost sb = segments.deep_view();
    segments.push(l);
    assert(segments.deep_view() =~= sb.push(lv));
    command_try(&segments)
}

/// The suggestion for a fault at node `node` reached by `path`: for an
/// unknown subcommand the nearest subcommand as a `gd` command line; else
/// what `similar` proposes; else the usage line.
fn suggestion_for(
    g: &Grammar,
    node: usize,
    path: &Vec<String>,
    f: &ParseFault,
    similar: &Similar,
    usage: &String,
) -> (r: Option<String>)
    ensures
        r is Some,
        basis_fits(*g, node as int, f.fv()) ==> sview(r) == Some(
            suggestion_spec(*g, node as int, path.deep_view(), f.fv(), *similar, usage@),
        ),
{
    let ghost basis = suggestion_basis(*g, node as int, f.fv());
    if let ParseFault::UnrecognizedSubcommand { token } = f {
        let names = subcommand_names(g, node);
        assert(names.deep_view() =~= basis.0);
        if names.len() > 0 {
            proof {
                if basis_fits(*g, node as int, f.fv()) {
                    assert forall|i: int| 0 <= i < names@.len() implies (
                    #[trigger] names@[i])@.len() < usize::MAX by {
                        assert(names.deep_view()[i] == names@[i]@);
                    }
                }
            }
            let found = nearest_name(&names, token.as_str());
            if let Some(n) = found {
                return Some(try_with(path, n.as_str()));
            }
        } else {
            assert(nearest_index(basis.0, basis.1) is None);
        }
    } else {
        assert(nearest_index(basis.0, basis.1) is None);
    }
    match similar {
        Similar::Name(v) => Some(try_with(path, v.as_str())),
        Similar::Value(v) => Some(from_chars(&to_chars(v.as_str()))),
        Similar::Nothing => Some(from_chars(&to_chars(usage.as_str()))),
    }
}

/// A suggested name is one of the candidates and lies within two edits of
/// the token.
pub proof fn law_suggestion_is_near(names: Seq<Seq<char>>, t: Seq<char>)
    ensures
        nearest_spec(names, t) matches Some(n) ==> names.contains(n) && lev(n, t) <= 2,
{
    lemma_nearest_range(names, t);
    if let Some(b) = nearest_index(names, t) {
        if 0 <= b < names.len() {
            assert(names[b] == names[b]);
        }
    }
}

} // verus!
