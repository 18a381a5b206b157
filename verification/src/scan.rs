//! Reading an argument list against a grammar.
//!
//! The scan walks the tokens left to right. Words select subcommands until a
//! command without subcommands is reached; after that they fill its
//! positional arguments. `--name`, `--name=value`, `-x`, `-xvalue` and
//! `-x value` name options of the current command or global options. After
//! `--` every token is positional.
use vstd::prelude::*;
use crate::args::{Check, Grammar, NodeSpec, OptKind, OptSpec, PosSpec, check_reason, check_value};
use crate::text::{has_prefix, split_all, split_all_chars, split_once, to_chars, from_chars, concat, append_str, views};
use vstd::string::StringSliceAdditionalSpecFns;

verus! {

/// The state of a scan: the command reached, the names of the commands on
/// the way, the option values as `(long name, value)` pairs in order, the
/// positional values, what followed `--` for a command that collects it,
/// and whether `--` was seen.
pub struct ScanV {
    pub node: int,
    pub path: Seq<Seq<char>>,
    pub opts: Seq<(Seq<char>, Seq<char>)>,
    pub pos: Seq<Seq<char>>,
    pub trailing: Seq<Seq<char>>,
    pub dashdash: bool,
}

/// Why a scan stopped.
pub enum Fault {
    Help,
    Version,
    UnknownArgument(Seq<char>),
    UnrecognizedSubcommand(Seq<char>),
    MissingValue(Seq<char>),
    UnexpectedValue(Seq<char>, Seq<char>),
    Repeated(Seq<char>),
    InvalidValue(Seq<char>, Seq<char>, Seq<char>),
    MissingSubcommand,
    MissingRequired(Seq<Seq<char>>),
    Conflict(Seq<char>, Seq<char>),
}

/// The options of node `k`, none when there is no such node.
pub open spec fn node_opts(g: Grammar, k: int) -> Seq<OptSpec> {
    if 0 <= k < g.nodes@.len() {
        g.nodes@[k].options@
    } else {
        seq![]
    }
}

/// The positional arguments of node `k`.
pub open spec fn node_pos(g: Grammar, k: int) -> Seq<PosSpec> {
    if 0 <= k < g.nodes@.len() {
        g.nodes@[k].positionals@
    } else {
        seq![]
    }
}

/// The subcommands of node `k`.
pub open spec fn node_kids(g: Grammar, k: int) -> Seq<usize> {
    if 0 <= k < g.nodes@.len() {
        g.nodes@[k].children@
    } else {
        seq![]
    }
}

/// `o` is called `name`, by its long name or its alias.
pub open spec fn opt_named(o: OptSpec, name: Seq<char>) -> bool {
    o.long@ == name || (o.alias matches Some(a) && a@ == name)
}

/// The first option of `opts` called `name`.
pub open spec fn find_long(opts: Seq<OptSpec>, name: Seq<char>) -> Option<OptSpec>
    decreases opts.len(),
{
    if opts.len() == 0 {
        None
    } else if opt_named(opts[0], name) {
        Some(opts[0])
    } else {
        find_long(opts.drop_first(), name)
    }
}

/// The first option of `opts` with the short name `c`.
pub open spec fn find_short(opts: Seq<OptSpec>, c: char) -> Option<OptSpec>
    decreases opts.len(),
{
    if opts.len() == 0 {
        None
    } else if opts[0].short == Some(c) {
        Some(opts[0])
    } else {
        find_short(opts.drop_first(), c)
    }
}

/// The option `--name` at node `k`: its own options first, then the globals.
pub open spec fn lookup_long(g: Grammar, k: int, name: Seq<char>) -> Option<OptSpec> {
    match find_long(node_opts(g, k), name) {
        Some(o) => Some(o),
        None => find_long(g.globals@, name),
    }
}

/// The option `-c` at node `k`.
pub open spec fn lookup_short(g: Grammar, k: int, c: char) -> Option<OptSpec> {
    match find_short(node_opts(g, k), c) {
        Some(o) => Some(o),
        None => find_short(g.globals@, c),
    }
}

/// Node `k` is a command called `t`, by name or alias.
pub open spec fn child_named(g: Grammar, k: usize, t: Seq<char>) -> bool {
    (k as int) < g.nodes@.len() && (g.nodes@[k as int].name@ == t || (g.nodes@[k as int].alias matches Some(
        a,
    ) && a@ == t))
}

/// The first of the subcommands `kids` called `t`.
pub open spec fn find_child(g: Grammar, kids: Seq<usize>, t: Seq<char>) -> Option<int>
    decreases kids.len(),
{
    if kids.len() == 0 {
        None
    } else if child_named(g, kids[0], t) {
        Some(kids[0] as int)
    } else {
        find_child(g, kids.drop_first(), t)
    }
}

/// How an option is shown in messages: `--name`, `--name <VALUE>` or
/// `--name[=<VALUE>]`.
pub open spec fn opt_display(o: OptSpec) -> Seq<char> {
    match o.kind {
        OptKind::Flag => "--"@ + o.long@,
        OptKind::Toggle => "--"@ + o.long@ + "[=<"@ + o.value_name@ + ">]"@,
        _ => "--"@ + o.long@ + " <"@ + o.value_name@ + ">"@,
    }
}

/// How a positional argument is shown: `<NAME>` when required, else `[NAME]`.
pub open spec fn pos_display(p: PosSpec) -> Seq<char> {
    if p.required {
        "<"@ + p.name@ + ">"@
    } else {
        "["@ + p.name@ + "]"@
    }
}

/// Some pair of `opts` has the key `key`.
pub open spec fn has_key(opts: Seq<(Seq<char>, Seq<char>)>, key: Seq<char>) -> bool {
    exists|k: int| 0 <= k < opts.len() && (#[trigger] opts[k]).0 == key
}

/// The first of `values` that fails `c`, with the reason.
pub open spec fn first_bad(c: Check, values: Seq<Seq<char>>) -> Option<(Seq<char>, Seq<char>)>
    decreases values.len(),
{
    if values.len() == 0 {
        None
    } else {
        match check_reason(c, values[0]) {
            Some(r) => Some((values[0], r)),
            None => first_bad(c, values.drop_first()),
        }
    }
}

/// The pairs `(key, v)` for the values `vs`.
pub open spec fn keyed(key: Seq<char>, vs: Seq<Seq<char>>) -> Seq<(Seq<char>, Seq<char>)> {
    Seq::new(vs.len(), |i: int| (key, vs[i]))
}

/// `st` with `opts` replaced.
pub open spec fn with_opts(st: ScanV, opts: Seq<(Seq<char>, Seq<char>)>) -> ScanV {
    ScanV { opts: opts, ..st }
}

/// Records the value `v` of option `o`.
pub open spec fn accept(st: ScanV, o: OptSpec, v: Seq<char>) -> Result<ScanV, Fault> {
    match o.kind {
        OptKind::Multi => match check_reason(o.check, v) {
            Some(r) => Err(Fault::InvalidValue(v, opt_display(o), r)),
            None => Ok(with_opts(st, st.opts.push((o.long@, v)))),
        },
        OptKind::Delimited => match first_bad(o.check, split_all(v, ',')) {
            Some((p, r)) => Err(Fault::InvalidValue(p, opt_display(o), r)),
            None => Ok(with_opts(st, st.opts + keyed(o.long@, split_all(v, ',')))),
        },
        _ => if has_key(st.opts, o.long@) {
            Err(Fault::Repeated(opt_display(o)))
        } else {
            match check_reason(o.check, v) {
                Some(r) => Err(Fault::InvalidValue(v, opt_display(o), r)),
                None => Ok(with_opts(st, st.opts.push((o.long@, v)))),
            }
        },
    }
}

/// A token that can serve as an option's value: anything but `-x...`.
pub open spec fn value_like(t: Seq<char>) -> bool {
    !(t.len() > 1 && t[0] == '-')
}

/// One step's outcome: the new state and the index of the next token, or
/// the fault with the node and path reached.
pub type StepV = Result<(ScanV, int), (Fault, int, Seq<Seq<char>>)>;

/// `accept` at the step that ends before token `j`.
pub open spec fn accept_at(st: ScanV, o: OptSpec, v: Seq<char>, j: int) -> StepV {
    match accept(st, o, v) {
        Ok(s) => Ok((s, j)),
        Err(f) => Err((f, st.node, st.path)),
    }
}

/// A token `--name` or `--name=value` at index `i`.
pub open spec fn long_step(g: Grammar, toks: Seq<Seq<char>>, i: int, st: ScanV) -> StepV {
    let t = toks[i];
    let body = t.skip(2);
    let (name, inline) = match split_once(body, '=') {
        Some((a, b)) => (a, Some(b)),
        None => (body, None),
    };
    match lookup_long(g, st.node, name) {
        None => Err((Fault::UnknownArgument(t), st.node, st.path)),
        Some(o) => match o.kind {
            OptKind::Flag => match inline {
                Some(v) => Err((Fault::UnexpectedValue(opt_display(o), v), st.node, st.path)),
                None => accept_at(st, o, "true"@, i + 1),
            },
            OptKind::Toggle => match inline {
                Some(v) => accept_at(st, o, v, i + 1),
                None => accept_at(st, o, "true"@, i + 1),
            },
            _ => match inline {
                Some(v) => accept_at(st, o, v, i + 1),
                None => if i + 1 < toks.len() && value_like(toks[i + 1]) {
                    accept_at(st, o, toks[i + 1], i + 2)
                } else {
                    Err((Fault::MissingValue(opt_display(o)), st.node, st.path))
                },
            },
        },
    }
}

/// A token `-c`, `-cvalue` or `-c=value` at index `i`.
pub open spec fn short_step(g: Grammar, toks: Seq<Seq<char>>, i: int, st: ScanV) -> StepV {
    let t = toks[i];
    let rest = t.skip(2);
    match lookup_short(g, st.node, t[1]) {
        None => Err((Fault::UnknownArgument(t), st.node, st.path)),
        Some(o) => match o.kind {
            OptKind::Flag | OptKind::Toggle => if rest.len() == 0 {
                accept_at(st, o, "true"@, i + 1)
            } else {
                Err((Fault::UnknownArgument(t), st.node, st.path))
            },
            _ => if rest.len() > 0 {
                let v = if rest[0] == '=' {
                    rest.skip(1)
                } else {
                    rest
                };
                accept_at(st, o, v, i + 1)
            } else if i + 1 < toks.len() && value_like(toks[i + 1]) {
                accept_at(st, o, toks[i + 1], i + 2)
            } else {
                Err((Fault::MissingValue(opt_display(o)), st.node, st.path))
            },
        },
    }
}

/// Some positional argument of `ps` collects what follows `--`.
pub open spec fn has_last(ps: Seq<PosSpec>) -> bool {
    exists|j: int| 0 <= j < ps.len() && (#[trigger] ps[j]).last
}

/// A positional value `t` for the current command.
pub open spec fn positional(g: Grammar, st: ScanV, t: Seq<char>) -> Result<ScanV, Fault> {
    let ps = node_pos(g, st.node);
    let k = st.pos.len();
    if st.dashdash && has_last(ps) {
        Ok(ScanV { trailing: st.trailing.push(t), ..st })
    } else if k < ps.len() && !ps[k as int].last {
        match check_reason(ps[k as int].check, t) {
            Some(r) => Err(Fault::InvalidValue(t, pos_display(ps[k as int]), r)),
            None => Ok(ScanV { pos: st.pos.push(t), ..st }),
        }
    } else {
        Err(Fault::UnknownArgument(t))
    }
}

/// A word at index `i`: a subcommand while the command has subcommands,
/// else a positional value.
pub open spec fn word_step(g: Grammar, toks: Seq<Seq<char>>, i: int, st: ScanV) -> StepV {
    let t = toks[i];
    let kids = node_kids(g, st.node);
    if kids.len() > 0 && !st.dashdash {
        match find_child(g, kids, t) {
            Some(c) => Ok(
                (ScanV { node: c, path: st.path.push(g.nodes@[c].name@), ..st }, i + 1),
            ),
            None => Err((Fault::UnrecognizedSubcommand(t), st.node, st.path)),
        }
    } else {
        match positional(g, st, t) {
            Ok(s) => Ok((s, i + 1)),
            Err(f) => Err((f, st.node, st.path)),
        }
    }
}

/// The step that reads token `i`.
pub open spec fn step(g: Grammar, toks: Seq<Seq<char>>, i: int, st: ScanV) -> StepV {
    let t = toks[i];
    if st.dashdash {
        word_step(g, toks, i, st)
    } else if t == "--"@ {
        Ok((ScanV { dashdash: true, ..st }, i + 1))
    } else if t == "--help"@ || t == "-h"@ {
        Err((Fault::Help, st.node, st.path))
    } else if st.node == 0 && (t == "--version"@ || t == "-V"@) {
        Err((Fault::Version, st.node, st.path))
    } else if has_prefix(t, "--"@) {
        long_step(g, toks, i, st)
    } else if t.len() > 1 && t[0] == '-' {
        short_step(g, toks, i, st)
    } else {
        word_step(g, toks, i, st)
    }
}

/// The required options of `opts` that `have` lacks, shown as in messages.
pub open spec fn missing_opts(opts: Seq<OptSpec>, have: Seq<(Seq<char>, Seq<char>)>) -> Seq<
    Seq<char>,
>
    decreases opts.len(),
{
    if opts.len() == 0 {
        seq![]
    } else {
        let o = opts.last();
        let rest = missing_opts(opts.drop_last(), have);
        if o.required && !has_key(have, o.long@) {
            rest.push(opt_display(o))
        } else {
            rest
        }
    }
}

/// The required positional arguments of `ps` from index `n` on.
pub open spec fn missing_pos(ps: Seq<PosSpec>, n: int) -> Seq<Seq<char>>
    decreases ps.len(),
{
    if ps.len() == 0 || ps.len() <= n {
        seq![]
    } else {
        let rest = missing_pos(ps.drop_last(), n);
        if ps.last().required {
            rest.push(pos_display(ps.last()))
        } else {
            rest
        }
    }
}

/// What the scan gives once every token is read: the state, unless a
/// subcommand or a required argument is missing.
pub open spec fn finish(g: Grammar, st: ScanV) -> Result<ScanV, (Fault, int, Seq<Seq<char>>)> {
    let missing = missing_opts(node_opts(g, st.node), st.opts) + missing_pos(
        node_pos(g, st.node),
        st.pos.len() as int,
    );
    if node_kids(g, st.node).len() > 0 {
        Err((Fault::MissingSubcommand, st.node, st.path))
    } else if missing.len() > 0 {
        Err((Fault::MissingRequired(missing), st.node, st.path))
    } else {
        Ok(st)
    }
}

/// The scan of the tokens from index `i` on, from state `st`.
pub open spec fn scan_from(g: Grammar, toks: Seq<Seq<char>>, i: int, st: ScanV) -> Result<
    ScanV,
    (Fault, int, Seq<Seq<char>>),
>
    decreases toks.len() - i,
{
    if i >= toks.len() || i < 0 {
        finish(g, st)
    } else {
        match step(g, toks, i, st) {
            Ok((s, j)) => if i < j {
                scan_from(g, toks, j, s)
            } else {
                Err((Fault::MissingSubcommand, s.node, s.path))
            },
            Err(e) => Err(e),
        }
    }
}

/// The state before the first token: at the program, nothing read.
pub open spec fn start() -> ScanV {
    ScanV { node: 0, path: seq![], opts: seq![], pos: seq![], trailing: seq![], dashdash: false }
}

/// The scan of a whole token list.
pub open spec fn scan_spec(g: Grammar, toks: Seq<Seq<char>>) -> Result<
    ScanV,
    (Fault, int, Seq<Seq<char>>),
> {
    scan_from(g, toks, 0, start())
}


/// Values read from an argument list; see `ScanV`.
#[derive(Debug, Clone, PartialEq, Eq)]
pub struct Matches {
    pub node: usize,
    pub path: Vec<String>,
    pub opts: Vec<(String, String)>,
    pub pos: Vec<String>,
    pub trailing: Vec<String>,
    pub dashdash: bool,
}

impl Matches {
    /// The state that these values stand for.
    pub open spec fn sv(&self) -> ScanV {
        ScanV {
            node: self.node as int,
            path: self.path.deep_view(),
            opts: self.opts.deep_view(),
            pos: self.pos.deep_view(),
            trailing: self.trailing.deep_view(),
            dashdash: self.dashdash,
        }
    }
}

/// Why an argument list was not accepted.
#[derive(Debug, Clone, PartialEq, Eq)]
pub enum ParseFault {
    /// `--help` or `-h`.
    Help,
    /// `--version` or `-V` on the program itself.
    Version,
    UnknownArgument { token: String },
    UnrecognizedSubcommand { token: String },
    MissingValue { arg: String },
    UnexpectedValue { arg: String, value: String },
    Repeated { arg: String },
    InvalidValue { value: String, arg: String, reason: String },
    MissingSubcommand,
    MissingRequired { args: Vec<String> },
    /// Two arguments that exclude each other were both given.
    Conflict { arg: String, other: String },
}

impl ParseFault {
    /// The fault as values.
    pub open spec fn fv(&self) -> Fault {
        match self {
            ParseFault::Help => Fault::Help,
            ParseFault::Version => Fault::Version,
            ParseFault::UnknownArgument { token } => Fault::UnknownArgument(token@),
            ParseFault::UnrecognizedSubcommand { token } => Fault::UnrecognizedSubcommand(token@),
            ParseFault::MissingValue { arg } => Fault::MissingValue(arg@),
            ParseFault::UnexpectedValue { arg, value } => Fault::UnexpectedValue(arg@, value@),
            ParseFault::Repeated { arg } => Fault::Repeated(arg@),
            ParseFault::InvalidValue { value, arg, reason } => Fault::InvalidValue(
                value@,
                arg@,
                reason@,
            ),
            ParseFault::MissingSubcommand => Fault::MissingSubcommand,
            ParseFault::MissingRequired { args } => Fault::MissingRequired(args.deep_view()),
            ParseFault::Conflict { arg, other } => Fault::Conflict(arg@, other@),
        }
    }
}

/// A fault with the command reached when it happened.
#[derive(Debug, Clone, PartialEq, Eq)]
pub struct ParseFailure {
    pub fault: ParseFault,
    pub node: usize,
    pub path: Vec<String>,
}

/// The outcome of one exec step, as values.
pub open spec fn step_view(r: Result<(Matches, usize), ParseFailure>) -> StepV {
    match r {
        Ok((m, j)) => Ok((m.sv(), j as int)),
        Err(f) => Err((f.fault.fv(), f.node as int, f.path.deep_view())),
    }
}

/// Appends a string.
fn push_string(v: &mut Vec<String>, s: String)
    ensures
        final(v).deep_view() == old(v).deep_view().push(s@),
{
    let ghost before = v.deep_view();
    let ghost sv = s@;
    v.push(s);
    assert(v.deep_view() =~= before.push(sv));
}

/// Appends a pair of strings.
fn push_pair(v: &mut Vec<(String, String)>, a: String, b: String)
    ensures
        final(v).deep_view() == old(v).deep_view().push((a@, b@)),
{
    let ghost before = v.deep_view();
    let ghost av = a@;
    let ghost bv = b@;
    v.push((a, b));
    assert(v.deep_view() =~= before.push((av, bv)));
}

/// A copy of a string.
fn copy_str(s: &str) -> (r: String)
    ensures
        r@ == s@,
{
    from_chars(&to_chars(s))
}

/// The first option of `opts` called `name`.
fn find_long_exec<'a>(opts: &'a Vec<OptSpec>, name: &[char]) -> (r: Option<&'a OptSpec>)
    ensures
        match (r, find_long(opts@, name@)) {
            (Some(a), Some(b)) => *a == b,
            (None, None) => true,
            _ => false,
        },
{
    let mut i: usize = 0;
    assert(opts@.skip(0) =~= opts@);
    while i < opts.len()
        invariant
            i <= opts@.len(),
            find_long(opts@, name@) == find_long(opts@.skip(i as int), name@),
        decreases opts@.len() - i,
    {
        assert(opts@.skip(i as int)[0] == opts@[i as int]);
        assert(opts@.skip(i as int).drop_first() =~= opts@.skip(i + 1));
        let o = &opts[i];
        let mut hit = crate::text::chars_eq_str(name, o.long.as_str());
        if !hit {
            if let Some(a) = &o.alias {
                hit = crate::text::chars_eq_str(name, a.as_str());
            }
        }
        if hit {
            return Some(o);
        }
        i = i + 1;
    }
    None
}

/// The first option of `opts` with the short name `c`.
fn find_short_exec<'a>(opts: &'a Vec<OptSpec>, c: char) -> (r: Option<&'a OptSpec>)
    ensures
        match (r, find_short(opts@, c)) {
            (Some(a), Some(b)) => *a == b,
            (None, None) => true,
            _ => false,
        },
{
    let mut i: usize = 0;
    assert(opts@.skip(0) =~= opts@);
    while i < opts.len()
        invariant
            i <= opts@.len(),
            find_short(opts@, c) == find_short(opts@.skip(i as int), c),
        decreases opts@.len() - i,
    {
        assert(opts@.skip(i as int)[0] == opts@[i as int]);
        assert(opts@.skip(i as int).drop_first() =~= opts@.skip(i + 1));
        let o = &opts[i];
        if o.short == Some(c) {
            return Some(o);
        }
        i = i + 1;
    }
    None
}

/// The option `--name` at node `k`.
pub(crate) fn lookup_long_exec<'a>(g: &'a Grammar, k: usize, name: &[char]) -> (r: Option<&'a OptSpec>)
    ensures
        match (r, lookup_long(*g, k as int, name@)) {
            (Some(a), Some(b)) => *a == b,
            (None, None) => true,
            _ => false,
        },
{
    if k < g.nodes.len() {
        match find_long_exec(&g.nodes[k].options, name) {
            Some(o) => return Some(o),
            None => {},
        }
    } else {
        assert(node_opts(*g, k as int) =~= Seq::<OptSpec>::empty());
    }
    find_long_exec(&g.globals, name)
}

/// The option `-c` at node `k`.
pub(crate) fn lookup_short_exec<'a>(g: &'a Grammar, k: usize, c: char) -> (r: Option<&'a OptSpec>)
    ensures
        match (r, lookup_short(*g, k as int, c)) {
            (Some(a), Some(b)) => *a == b,
            (None, None) => true,
            _ => false,
        },
{
    if k < g.nodes.len() {
        match find_short_exec(&g.nodes[k].options, c) {
            Some(o) => return Some(o),
            None => {},
        }
    } else {
        assert(node_opts(*g, k as int) =~= Seq::<OptSpec>::empty());
    }
    find_short_exec(&g.globals, c)
}

/// The first of `kids` that is a command called `t`.
pub(crate) fn find_child_exec(g: &Grammar, kids: &Vec<usize>, t: &str) -> (r: Option<usize>)
    ensures
        match (r, find_child(*g, kids@, t@)) {
            (Some(a), Some(b)) => a as int == b,
            (None, None) => true,
            _ => false,
        },
{
    let tc = to_chars(t);
    let mut i: usize = 0;
    assert(kids@.skip(0) =~= kids@);
    while i < kids.len()
        invariant
            i <= kids@.len(),
            tc@ == t@,
            find_child(*g, kids@, t@) == find_child(*g, kids@.skip(i as int), t@),
        decreases kids@.len() - i,
    {
        assert(kids@.skip(i as int)[0] == kids@[i as int]);
        assert(kids@.skip(i as int).drop_first() =~= kids@.skip(i + 1));
        let k = kids[i];
        if k < g.nodes.len() {
            let n = &g.nodes[k];
            let mut hit = crate::text::chars_eq_str(&tc, n.name.as_str());
            if !hit {
                if let Some(a) = &n.alias {
                    hit = crate::text::chars_eq_str(&tc, a.as_str());
                }
            }
            if hit {
                return Some(k);
            }
        }
        i = i + 1;
    }
    None
}

/// How option `o` is shown in messages.
pub fn opt_display_exec(o: &OptSpec) -> (r: String)
    ensures
        r@ == opt_display(*o),
{
    let mut out = to_chars("--");
    append_str(&mut out, o.long.as_str());
    match o.kind {
        OptKind::Flag => {},
        OptKind::Toggle => {
            append_str(&mut out, "[=<");
            append_str(&mut out, o.value_name.as_str());
            append_str(&mut out, ">]");
        },
        _ => {
            append_str(&mut out, " <");
            append_str(&mut out, o.value_name.as_str());
            append_str(&mut out, ">");
        },
    }
    from_chars(&out)
}

/// How positional argument `p` is shown in messages.
pub fn pos_display_exec(p: &PosSpec) -> (r: String)
    ensures
        r@ == pos_display(*p),
{
    let mut out = if p.required {
        to_chars("<")
    } else {
        to_chars("[")
    };
    append_str(&mut out, p.name.as_str());
    if p.required {
        append_str(&mut out, ">");
    } else {
        append_str(&mut out, "]");
    }
    from_chars(&out)
}

/// Whether some pair of `opts` has the key `key`.
fn has_key_exec(opts: &Vec<(String, String)>, key: &str) -> (r: bool)
    ensures
        r == has_key(opts.deep_view(), key@),
{
    let kc = to_chars(key);
    let mut i: usize = 0;
    while i < opts.len()
        invariant
            i <= opts@.len(),
            kc@ == key@,
            forall|j: int| 0 <= j < i ==> opts.deep_view()[j].0 != key@,
        decreases opts@.len() - i,
    {
        if crate::text::chars_eq_str(&kc, opts[i].0.as_str()) {
            assert(opts.deep_view()[i as int].0 == key@);
            return true;
        }
        i = i + 1;
    }
    false
}

/// The first of `values` that fails `c`, with the reason.
fn first_bad_exec(c: &Check, values: &Vec<Vec<char>>) -> (r: Option<(String, String)>)
    ensures
        match (r, first_bad(*c, views(values@))) {
            (Some((a, b)), Some((x, y))) => a@ == x && b@ == y,
            (None, None) => true,
            _ => false,
        },
{
    let ghost vs = views(values@);
    let mut i: usize = 0;
    assert(vs.skip(0) =~= vs);
    while i < values.len()
        invariant
            i <= values@.len(),
            vs == views(values@),
            first_bad(*c, vs) == first_bad(*c, vs.skip(i as int)),
        decreases values@.len() - i,
    {
        assert(vs.skip(i as int)[0] == values@[i as int]@);
        assert(vs.skip(i as int).drop_first() =~= vs.skip(i + 1));
        let v = from_chars(&values[i]);
        match check_value(c, v.as_str()) {
            Some(reason) => return Some((v, reason)),
            None => {},
        }
        i = i + 1;
    }
    None
}

/// Records the value `v` of option `o` in `st`; on a fault `st` is kept.
fn accept_exec(st: &mut Matches, o: &OptSpec, v: String) -> (r: Option<ParseFault>)
    ensures
        match (r, accept(old(st).sv(), *o, v@)) {
            (None, Ok(s)) => final(st).sv() == s,
            (Some(f), Err(e)) => f.fv() == e && final(st).sv() == old(st).sv(),
            _ => false,
        },
{
    let ghost s0 = st.sv();
    let ghost vv = v@;
    match o.kind {
        OptKind::Multi => match check_value(&o.check, v.as_str()) {
            Some(reason) => Some(
                ParseFault::InvalidValue { value: v, arg: opt_display_exec(o), reason },
            ),
            None => {
                push_pair(&mut st.opts, o.long.clone(), v);
                assert(st.sv() == with_opts(s0, s0.opts.push((o.long@, vv))));
                None
            },
        },
        OptKind::Delimited => {
            let pieces = split_all_chars(&to_chars(v.as_str()), ',');
            match first_bad_exec(&o.check, &pieces) {
                Some((p, reason)) => Some(
                    ParseFault::InvalidValue { value: p, arg: opt_display_exec(o), reason },
                ),
                None => {
                    let ghost ps = views(pieces@);
                    let mut k: usize = 0;
                    while k < pieces.len()
                        invariant
                            k <= pieces@.len(),
                            ps == views(pieces@),
                            ps == split_all(vv, ','),
                            st.node == s0.node,
                            st.path.deep_view() == s0.path,
                            st.pos.deep_view() == s0.pos,
                            st.trailing.deep_view() == s0.trailing,
                            st.dashdash == s0.dashdash,
                            st.opts.deep_view() == s0.opts + keyed(o.long@, ps.take(k as int)),
                        decreases pieces@.len() - k,
                    {
                        let ghost before = st.opts.deep_view();
                        push_pair(&mut st.opts, o.long.clone(), from_chars(&pieces[k]));
                        assert(keyed(o.long@, ps.take(k + 1)) =~= keyed(o.long@, ps.take(k as int)).push(
                            (o.long@, ps[k as int]),
                        ));
                        assert(st.opts.deep_view() =~= s0.opts + keyed(o.long@, ps.take(k + 1)));
                        k = k + 1;
                    }
                    assert(ps.take(pieces@.len() as int) =~= ps);
                    assert(st.sv() == with_opts(s0, s0.opts + keyed(o.long@, split_all(vv, ','))));
                    None
                },
            }
        },
        _ => {
            if has_key_exec(&st.opts, o.long.as_str()) {
                return Some(ParseFault::Repeated { arg: opt_display_exec(o) });
            }
            match check_value(&o.check, v.as_str()) {
                Some(reason) => Some(
                    ParseFault::InvalidValue { value: v, arg: opt_display_exec(o), reason },
                ),
                None => {
                    push_pair(&mut st.opts, o.long.clone(), v);
                    assert(st.sv() == with_opts(s0, s0.opts.push((o.long@, vv))));
                    None
                },
            }
        },
    }
}


/// The outcome of a scan, as values.
pub open spec fn scan_view(r: Result<Matches, ParseFailure>) -> Result<
    ScanV,
    (Fault, int, Seq<Seq<char>>),
> {
    match r {
        Ok(m) => Ok(m.sv()),
        Err(f) => Err((f.fault.fv(), f.node as int, f.path.deep_view())),
    }
}

/// Records `v` for `o` and moves on to token `j`.
fn accept_at_exec(st: Matches, o: &OptSpec, v: String, j: usize) -> (r: Result<
    (Matches, usize),
    ParseFailure,
>)
    ensures
        step_view(r) == accept_at(st.sv(), *o, v@, j as int),
{
    let mut st = st;
    match accept_exec(&mut st, o, v) {
        None => Ok((st, j)),
        Some(f) => Err(ParseFailure { fault: f, node: st.node, path: st.path }),
    }
}

/// Whether `t` can serve as an option's value.
fn value_like_exec(t: &str) -> (r: bool)
    ensures
        r == value_like(t@),
{
    let c = to_chars(t);
    !(c.len() > 1 && c[0] == '-')
}

/// Reads `--name` or `--name=value` at index `i`.
fn long_step_exec(g: &Grammar, toks: &Vec<String>, i: usize, st: Matches) -> (r: Result<
    (Matches, usize),
    ParseFailure,
>)
    requires
        i < toks@.len(),
        toks.deep_view()[i as int].len() >= 2,
    ensures
        step_view(r) == long_step(*g, toks.deep_view(), i as int, st.sv()),
{
    let n = toks.len();
    let t = to_chars(toks[i].as_str());
    assert(t@ == toks.deep_view()[i as int]);
    let body = crate::text::slice_chars(&t, 2, t.len());
    let (name, inline): (Vec<char>, Option<Vec<char>>) = match crate::text::split_once_chars(
        &body,
        '=',
    ) {
        Some((a, b)) => (a, Some(b)),
        None => (body, None),
    };
    match lookup_long_exec(g, st.node, &name) {
        None => Err(
            ParseFailure {
                fault: ParseFault::UnknownArgument { token: from_chars(&t) },
                node: st.node,
                path: st.path,
            },
        ),
        Some(o) => match o.kind {
            OptKind::Flag => match inline {
                Some(v) => Err(
                    ParseFailure {
                        fault: ParseFault::UnexpectedValue {
                            arg: opt_display_exec(o),
                            value: from_chars(&v),
                        },
                        node: st.node,
                        path: st.path,
                    },
                ),
                None => accept_at_exec(st, o, copy_str("true"), i + 1),
            },
            OptKind::Toggle => match inline {
                Some(v) => accept_at_exec(st, o, from_chars(&v), i + 1),
                None => accept_at_exec(st, o, copy_str("true"), i + 1),
            },
            _ => match inline {
                Some(v) => accept_at_exec(st, o, from_chars(&v), i + 1),
                None => if i + 1 < n && value_like_exec(toks[i + 1].as_str()) {
                    let v = copy_str(toks[i + 1].as_str());
                    assert(v@ == toks.deep_view()[i + 1]);
                    accept_at_exec(st, o, v, i + 2)
                } else {
                    Err(
                        ParseFailure {
                            fault: ParseFault::MissingValue { arg: opt_display_exec(o) },
                            node: st.node,
                            path: st.path,
                        },
                    )
                },
            },
        },
    }
}

/// Reads `-c`, `-cvalue`, `-c=value` or `-c value` at index `i`.
fn short_step_exec(g: &Grammar, toks: &Vec<String>, i: usize, st: Matches) -> (r: Result<
    (Matches, usize),
    ParseFailure,
>)
    requires
        i < toks@.len(),
        toks.deep_view()[i as int].len() >= 2,
    ensures
        step_view(r) == short_step(*g, toks.deep_view(), i as int, st.sv()),
{
    let n = toks.len();
    let t = to_chars(toks[i].as_str());
    assert(t@ == toks.deep_view()[i as int]);
    let rest = crate::text::slice_chars(&t, 2, t.len());
    match lookup_short_exec(g, st.node, t[1]) {
        None => Err(
            ParseFailure {
                fault: ParseFault::UnknownArgument { token: from_chars(&t) },
                node: st.node,
                path: st.path,
            },
        ),
        Some(o) => match o.kind {
            OptKind::Flag | OptKind::Toggle => if rest.len() == 0 {
                accept_at_exec(st, o, copy_str("true"), i + 1)
            } else {
                Err(
                    ParseFailure {
                        fault: ParseFault::UnknownArgument { token: from_chars(&t) },
                        node: st.node,
                        path: st.path,
                    },
                )
            },
            _ => if rest.len() > 0 {
                let v = if rest[0] == '=' {
                    crate::text::slice_chars(&rest, 1, rest.len())
                } else {
                    rest
                };
                accept_at_exec(st, o, from_chars(&v), i + 1)
            } else if i + 1 < n && value_like_exec(toks[i + 1].as_str()) {
                let v = copy_str(toks[i + 1].as_str());
                assert(v@ == toks.deep_view()[i + 1]);
                accept_at_exec(st, o, v, i + 2)
            } else {
                Err(
                    ParseFailure {
                        fault: ParseFault::MissingValue { arg: opt_display_exec(o) },
                        node: st.node,
                        path: st.path,
                    },
                )
            },
        },
    }
}

/// Whether some positional argument of `ps` collects what follows `--`.
fn has_last_exec(ps: &Vec<PosSpec>) -> (r: bool)
    ensures
        r == has_last(ps@),
{
    let mut j: usize = 0;
    while j < ps.len()
        invariant
            j <= ps@.len(),
            forall|k: int| 0 <= k < j ==> !(#[trigger] ps@[k]).last,
        decreases ps@.len() - j,
    {
        if ps[j].last {
            return true;
        }
        j = j + 1;
    }
    false
}

/// Records the positional value `t`; on a fault `st` is kept.
fn positional_exec(g: &Grammar, st: &mut Matches, t: String) -> (r: Option<ParseFault>)
    ensures
        match (r, positional(*g, old(st).sv(), t@)) {
            (None, Ok(s)) => final(st).sv() == s,
            (Some(f), Err(e)) => f.fv() == e && final(st).sv() == old(st).sv(),
            _ => false,
        },
{
    let ghost s0 = st.sv();
    let ghost tv = t@;
    let empty: Vec<PosSpec> = Vec::new();
    let ps: &Vec<PosSpec> = if st.node < g.nodes.len() {
        &g.nodes[st.node].positionals
    } else {
        &empty
    };
    assert(ps@ =~= node_pos(*g, s0.node));
    let k = st.pos.len();
    if st.dashdash && has_last_exec(ps) {
        push_string(&mut st.trailing, t);
        assert(st.sv() == ScanV { trailing: s0.trailing.push(tv), ..s0 });
        None
    } else if k < ps.len() && !ps[k].last {
        match check_value(&ps[k].check, t.as_str()) {
            Some(reason) => Some(
                ParseFault::InvalidValue { value: t, arg: pos_display_exec(&ps[k]), reason },
            ),
            None => {
                push_string(&mut st.pos, t);
                assert(st.sv() == ScanV { pos: s0.pos.push(tv), ..s0 });
                None
            },
        }
    } else {
        Some(ParseFault::UnknownArgument { token: t })
    }
}

/// A command found among subcommands is a node of the grammar.
pub proof fn lemma_find_child_valid(g: Grammar, kids: Seq<usize>, t: Seq<char>)
    ensures
        find_child(g, kids, t) matches Some(c) ==> 0 <= c < g.nodes@.len(),
    decreases kids.len(),
{
    if kids.len() > 0 {
        lemma_find_child_valid(g, kids.drop_first(), t);
    }
}

/// Reads a word at index `i`.
fn word_step_exec(g: &Grammar, toks: &Vec<String>, i: usize, st: Matches) -> (r: Result<
    (Matches, usize),
    ParseFailure,
>)
    requires
        i < toks@.len(),
    ensures
        step_view(r) == word_step(*g, toks.deep_view(), i as int, st.sv()),
{
    let n = toks.len();
    let kids_len = if st.node < g.nodes.len() {
        g.nodes[st.node].children.len()
    } else {
        0
    };
    assert(kids_len == node_kids(*g, st.node as int).len());
    if kids_len > 0 && !st.dashdash {
        let found = find_child_exec(g, &g.nodes[st.node].children, toks[i].as_str());
        proof {
            lemma_find_child_valid(*g, node_kids(*g, st.node as int), toks@[i as int]@);
        }
        match found {
            Some(c) => {
                let mut st = st;
                let ghost s0 = st.sv();
                st.node = c;
                push_string(&mut st.path, copy_str(g.nodes[c].name.as_str()));
                assert(st.sv() == ScanV { node: c as int, path: s0.path.push(g.nodes@[c as int].name@), ..s0 });
                Ok((st, i + 1))
            },
            None => Err(
                ParseFailure {
                    fault: ParseFault::UnrecognizedSubcommand { token: copy_str(toks[i].as_str()) },
                    node: st.node,
                    path: st.path,
                },
            ),
        }
    } else {
        let mut st = st;
        let tok = copy_str(toks[i].as_str());
        assert(tok@ == toks.deep_view()[i as int]);
        match positional_exec(g, &mut st, tok) {
            None => Ok((st, i + 1)),
            Some(f) => Err(ParseFailure { fault: f, node: st.node, path: st.path }),
        }
    }
}

/// Reads token `i`.
fn step_exec(g: &Grammar, toks: &Vec<String>, i: usize, st: Matches) -> (r: Result<
    (Matches, usize),
    ParseFailure,
>)
    requires
        i < toks@.len(),
    ensures
        step_view(r) == step(*g, toks.deep_view(), i as int, st.sv()),
{
    let n = toks.len();
    let t = to_chars(toks[i].as_str());
    assert(t@ == toks.deep_view()[i as int]);
    if st.dashdash {
        word_step_exec(g, toks, i, st)
    } else if crate::text::chars_eq_str(&t, "--") {
        let mut st = st;
        st.dashdash = true;
        Ok((st, i + 1))
    } else if crate::text::chars_eq_str(&t, "--help") || crate::text::chars_eq_str(&t, "-h") {
        Err(ParseFailure { fault: ParseFault::Help, node: st.node, path: st.path })
    } else if st.node == 0 && (crate::text::chars_eq_str(&t, "--version")
        || crate::text::chars_eq_str(&t, "-V")) {
        Err(ParseFailure { fault: ParseFault::Version, node: st.node, path: st.path })
    } else if crate::text::starts_with(&t, &to_chars("--")) {
        proof {
            reveal_strlit("--");
        }
        long_step_exec(g, toks, i, st)
    } else if t.len() > 1 && t[0] == '-' {
        short_step_exec(g, toks, i, st)
    } else {
        word_step_exec(g, toks, i, st)
    }
}

/// The required options of `opts` that `have` lacks, shown as in messages.
fn missing_opts_exec(opts: &Vec<OptSpec>, have: &Vec<(String, String)>) -> (r: Vec<String>)
    ensures
        r.deep_view() == missing_opts(opts@, have.deep_view()),
{
    let mut out: Vec<String> = Vec::new();
    let mut i: usize = 0;
    assert(opts@.take(0) =~= Seq::<OptSpec>::empty());
    assert(out.deep_view() =~= Seq::<Seq<char>>::empty());
    while i < opts.len()
        invariant
            i <= opts@.len(),
            out.deep_view() == missing_opts(opts@.take(i as int), have.deep_view()),
        decreases opts@.len() - i,
    {
        assert(opts@.take(i + 1).drop_last() =~= opts@.take(i as int));
        assert(opts@.take(i + 1).last() == opts@[i as int]);
        let o = &opts[i];
        if o.required && !has_key_exec(have, o.long.as_str()) {
            push_string(&mut out, opt_display_exec(o));
        }
        i = i + 1;
    }
    assert(opts@.take(opts@.len() as int) =~= opts@);
    out
}

/// The required positional arguments of `ps` from index `n` on.
fn missing_pos_exec(ps: &Vec<PosSpec>, n: usize) -> (r: Vec<String>)
    ensures
        r.deep_view() == missing_pos(ps@, n as int),
{
    let mut out: Vec<String> = Vec::new();
    let mut i: usize = 0;
    assert(ps@.take(0) =~= Seq::<PosSpec>::empty());
    assert(out.deep_view() =~= Seq::<Seq<char>>::empty());
    while i < ps.len()
        invariant
            i <= ps@.len(),
            out.deep_view() == missing_pos(ps@.take(i as int), n as int),
        decreases ps@.len() - i,
    {
        assert(ps@.take(i + 1).drop_last() =~= ps@.take(i as int));
        assert(ps@.take(i + 1).last() == ps@[i as int]);
        if i >= n && ps[i].required {
            push_string(&mut out, pos_display_exec(&ps[i]));
        }
        i = i + 1;
    }
    assert(ps@.take(ps@.len() as int) =~= ps@);
    out
}

/// The end of a scan: the values, unless a subcommand or a required
/// argument is missing.
fn finish_exec(g: &Grammar, st: Matches) -> (r: Result<Matches, ParseFailure>)
    ensures
        scan_view(r) == finish(*g, st.sv()),
{
    let empty_o: Vec<OptSpec> = Vec::new();
    let empty_p: Vec<PosSpec> = Vec::new();
    let (opts, ps, nkids): (&Vec<OptSpec>, &Vec<PosSpec>, usize) = if st.node < g.nodes.len() {
        (&g.nodes[st.node].options, &g.nodes[st.node].positionals, g.nodes[st.node].children.len())
    } else {
        (&empty_o, &empty_p, 0)
    };
    assert(opts@ =~= node_opts(*g, st.node as int));
    assert(ps@ =~= node_pos(*g, st.node as int));
    if nkids > 0 {
        return Err(ParseFailure { fault: ParseFault::MissingSubcommand, node: st.node, path: st.path });
    }
    let mut missing = missing_opts_exec(opts, &st.opts);
    let more = missing_pos_exec(ps, st.pos.len());
    let ghost m0 = missing.deep_view();
    let mut k: usize = 0;
    while k < more.len()
        invariant
            k <= more@.len(),
            missing.deep_view() == m0 + more.deep_view().take(k as int),
        decreases more@.len() - k,
    {
        push_string(&mut missing, copy_str(more[k].as_str()));
        assert(more.deep_view().take(k + 1) =~= more.deep_view().take(k as int).push(more@[k as int]@));
        k = k + 1;
    }
    assert(more.deep_view().take(more@.len() as int) =~= more.deep_view());
    if missing.len() > 0 {
        Err(
            ParseFailure {
                fault: ParseFault::MissingRequired { args: missing },
                node: st.node,
                path: st.path,
            },
        )
    } else {
        Ok(st)
    }
}

/// Reads the tokens `toks` (the arguments after the program name) against
/// the grammar `g`.
pub fn scan(g: &Grammar, toks: &Vec<String>) -> (r: Result<Matches, ParseFailure>)
    ensures
        scan_view(r) == scan_spec(*g, toks.deep_view()),
{
    let mut st = Matches {
        node: 0,
        path: Vec::new(),
        opts: Vec::new(),
        pos: Vec::new(),
        trailing: Vec::new(),
        dashdash: false,
    };
    assert(st.sv() == start()) by {
        assert(st.path.deep_view() =~= Seq::<Seq<char>>::empty());
        assert(st.opts.deep_view() =~= Seq::<(Seq<char>, Seq<char>)>::empty());
        assert(st.pos.deep_view() =~= Seq::<Seq<char>>::empty());
        assert(st.trailing.deep_view() =~= Seq::<Seq<char>>::empty());
    }
    let mut i: usize = 0;
    while i < toks.len()
        invariant
            scan_spec(*g, toks.deep_view()) == scan_from(*g, toks.deep_view(), i as int, st.sv()),
        decreases toks@.len() - i,
    {
        match step_exec(g, toks, i, st) {
            Ok((s, j)) => {
                if i < j {
                    st = s;
                    i = j;
                } else {
                    return Err(
                        ParseFailure { fault: ParseFault::MissingSubcommand, node: s.node, path: s.path },
                    );
                }
            },
            Err(f) => {
                return Err(f);
            },
        }
    }
    finish_exec(g, st)
}


/// The value of `o`, as text.
pub open spec fn sview(o: Option<String>) -> Option<Seq<char>> {
    match o {
        Some(s) => Some(s@),
        None => None,
    }
}

/// The first value recorded for `key`.
pub open spec fn first_value(opts: Seq<(Seq<char>, Seq<char>)>, key: Seq<char>) -> Option<
    Seq<char>,
>
    decreases opts.len(),
{
    if opts.len() == 0 {
        None
    } else if opts[0].0 == key {
        Some(opts[0].1)
    } else {
        first_value(opts.drop_first(), key)
    }
}

/// Every value recorded for `key`, in order.
pub open spec fn values_of(opts: Seq<(Seq<char>, Seq<char>)>, key: Seq<char>) -> Seq<Seq<char>>
    decreases opts.len(),
{
    if opts.len() == 0 {
        seq![]
    } else if opts.last().0 == key {
        values_of(opts.drop_last(), key).push(opts.last().1)
    } else {
        values_of(opts.drop_last(), key)
    }
}

/// The positional value at index `k`.
pub open spec fn pos_at(pos: Seq<Seq<char>>, k: int) -> Option<Seq<char>> {
    if 0 <= k < pos.len() {
        Some(pos[k])
    } else {
        None
    }
}

/// The text of `o`, or `d` when there is none.
pub open spec fn text_or(o: Option<Seq<char>>, d: Seq<char>) -> Seq<char> {
    match o {
        Some(s) => s,
        None => d,
    }
}

/// The number written by `o`, when it is a decimal that fits a `u64`.
pub open spec fn opt_number(o: Option<Seq<char>>) -> Option<u64> {
    match o {
        Some(s) => if s.len() > 0 && crate::num::all_digits(s) && crate::num::digits_value(s)
            <= u64::MAX {
            Some(crate::num::digits_value(s) as u64)
        } else {
            None
        },
        None => None,
    }
}

/// The number written by `o`, or `d`.
pub open spec fn number_or(o: Option<Seq<char>>, d: u64) -> u64 {
    match opt_number(o) {
        Some(n) => n,
        None => d,
    }
}

/// A boolean that is true unless given as something other than `true`.
pub open spec fn toggle_of(o: Option<Seq<char>>) -> bool {
    match o {
        Some(s) => s == "true"@,
        None => true,
    }
}

/// The first value recorded for `key`.
pub fn value_of(m: &Matches, key: &str) -> (r: Option<String>)
    ensures
        sview(r) == first_value(m.sv().opts, key@),
{
    let ghost all = m.opts.deep_view();
    let kc = to_chars(key);
    let mut i: usize = 0;
    assert(all.skip(0) =~= all);
    while i < m.opts.len()
        invariant
            i <= m.opts@.len(),
            all == m.opts.deep_view(),
            kc@ == key@,
            first_value(all, key@) == first_value(all.skip(i as int), key@),
        decreases m.opts@.len() - i,
    {
        assert(all.skip(i as int)[0] == all[i as int]);
        assert(all.skip(i as int).drop_first() =~= all.skip(i + 1));
        if crate::text::chars_eq_str(&kc, m.opts[i].0.as_str()) {
            return Some(copy_str(m.opts[i].1.as_str()));
        }
        i = i + 1;
    }
    None
}

/// Every value recorded for `key`, in order.
pub fn values_of_exec(m: &Matches, key: &str) -> (r: Vec<String>)
    ensures
        r.deep_view() == values_of(m.sv().opts, key@),
{
    let ghost all = m.opts.deep_view();
    let kc = to_chars(key);
    let mut out: Vec<String> = Vec::new();
    let mut i: usize = 0;
    assert(all.take(0) =~= Seq::<(Seq<char>, Seq<char>)>::empty());
    assert(out.deep_view() =~= Seq::<Seq<char>>::empty());
    while i < m.opts.len()
        invariant
            i <= m.opts@.len(),
            all == m.opts.deep_view(),
            kc@ == key@,
            out.deep_view() == values_of(all.take(i as int), key@),
        decreases m.opts@.len() - i,
    {
        assert(all.take(i + 1).drop_last() =~= all.take(i as int));
        assert(all.take(i + 1).last() == all[i as int]);
        if crate::text::chars_eq_str(&kc, m.opts[i].0.as_str()) {
            push_string(&mut out, copy_str(m.opts[i].1.as_str()));
        }
        i = i + 1;
    }
    assert(all.take(m.opts@.len() as int) =~= all);
    out
}

/// Whether a value is recorded for `key`.
pub fn flag_of(m: &Matches, key: &str) -> (r: bool)
    ensures
        r == has_key(m.sv().opts, key@),
{
    has_key_exec(&m.opts, key)
}

/// The positional value at index `k`.
pub fn pos_of(m: &Matches, k: usize) -> (r: Option<String>)
    ensures
        sview(r) == pos_at(m.sv().pos, k as int),
{
    if k < m.pos.len() {
        Some(copy_str(m.pos[k].as_str()))
    } else {
        None
    }
}

/// What follows `--`.
pub fn trailing_of(m: &Matches) -> (r: Vec<String>)
    ensures
        r.deep_view() == m.sv().trailing,
{
    let mut out: Vec<String> = Vec::new();
    let mut i: usize = 0;
    assert(out.deep_view() =~= m.trailing.deep_view().take(0));
    while i < m.trailing.len()
        invariant
            i <= m.trailing@.len(),
            out.deep_view() == m.trailing.deep_view().take(i as int),
        decreases m.trailing@.len() - i,
    {
        push_string(&mut out, copy_str(m.trailing[i].as_str()));
        assert(m.trailing.deep_view().take(i + 1) =~= m.trailing.deep_view().take(i as int).push(
            m.trailing@[i as int]@,
        ));
        i = i + 1;
    }
    assert(m.trailing.deep_view().take(m.trailing@.len() as int) =~= m.trailing.deep_view());
    out
}

/// The text of `o`, or `d`.
pub fn text_or_exec(o: Option<String>, d: &str) -> (r: String)
    ensures
        r@ == text_or(sview(o), d@),
{
    match o {
        Some(s) => s,
        None => copy_str(d),
    }
}

/// The number written by `o`, when it is a decimal that fits a `u64`.
pub fn opt_number_exec(o: Option<String>) -> (r: Option<u64>)
    ensures
        r == opt_number(sview(o)),
{
    match o {
        Some(s) => crate::num::parse_u64_digits(&to_chars(s.as_str())),
        None => None,
    }
}

/// The number written by `o`, or `d`.
pub fn number_or_exec(o: Option<String>, d: u64) -> (r: u64)
    ensures
        r == number_or(sview(o), d),
{
    match opt_number_exec(o) {
        Some(n) => n,
        None => d,
    }
}

/// A boolean that is true unless given as something other than `true`.
pub fn toggle_exec(o: Option<String>) -> (r: bool)
    ensures
        r == toggle_of(sview(o)),
{
    match o {
        Some(s) => crate::text::chars_eq_str(&to_chars(s.as_str()), "true"),
        None => true,
    }
}

} // verus!
