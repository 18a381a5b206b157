//! A command-line grammar (commands, options, positional arguments) and the
//! checks that option and argument values must pass.
use vstd::prelude::*;
use crate::error::{GdError, error_text};
use crate::repo::{github_repo_spec, is_repo};
use crate::config::{api_base_spec, BaseFault};
use crate::pipeline::{actions_base_spec, workflow_path_ok};
use crate::num::{all_digits, digits_value};
use crate::text::{has_char, is_blank, split_once, trim, to_chars, from_chars, concat, append_str};
use vstd::string::StringSliceAdditionalSpecFns;

verus! {

/// How an option takes its values.
#[derive(Debug, Clone, Copy, PartialEq, Eq, Structural)]
pub enum OptKind {
    /// A switch without a value.
    Flag,
    /// One value, given once.
    Single,
    /// One value per occurrence, any number of occurrences.
    Multi,
    /// Values separated by commas, any number of occurrences.
    Delimited,
    /// A boolean written `--name` (true) or `--name=VALUE`.
    Toggle,
}

/// What a value must look like.
#[derive(Debug, Clone, PartialEq, Eq)]
pub enum Check {
    Any,
    /// A GitCode `owner/repo`.
    Repo,
    /// A GitHub repository reference.
    GithubRepo,
    /// An http or https api base URL.
    ApiBase,
    /// An http or https URL with a host.
    GatewayBase,
    /// `key=value`.
    Field,
    /// A path under `.gitcode/workflows/`.
    WorkflowPath,
    /// `key=value` with a key that is not blank.
    WorkflowInput,
    /// A secret name made of ASCII letters, digits and `_`.
    SecretName,
    /// A decimal number no larger than the bound.
    Unsigned(u64),
    /// One of the listed words.
    Choice(Vec<String>),
}

/// An option of a command.
#[derive(Debug, Clone, PartialEq, Eq)]
pub struct OptSpec {
    pub long: String,
    pub alias: Option<String>,
    pub short: Option<char>,
    pub kind: OptKind,
    pub check: Check,
    pub value_name: String,
    pub required: bool,
    pub help: String,
}

/// A positional argument of a command. A `last` argument collects what
/// follows `--`.
#[derive(Debug, Clone, PartialEq, Eq)]
pub struct PosSpec {
    pub name: String,
    pub required: bool,
    pub check: Check,
    pub last: bool,
}

/// A command: its name, an optional alias, its subcommands (indices into the
/// grammar's nodes), its options and its positional arguments.
#[derive(Debug, Clone, PartialEq, Eq)]
pub struct NodeSpec {
    pub name: String,
    pub alias: Option<String>,
    pub about: String,
    pub children: Vec<usize>,
    pub options: Vec<OptSpec>,
    pub positionals: Vec<PosSpec>,
}

/// A whole command line grammar: node 0 is the program itself; `globals`
/// are accepted at every level.
#[derive(Debug, Clone, PartialEq, Eq)]
pub struct Grammar {
    pub nodes: Vec<NodeSpec>,
    pub globals: Vec<OptSpec>,
}

/// A check, as values.
#[verifier::ext_equal]
pub enum CheckV {
    Any,
    Repo,
    GithubRepo,
    ApiBase,
    GatewayBase,
    Field,
    WorkflowPath,
    WorkflowInput,
    SecretName,
    Unsigned(u64),
    Choice(Seq<Seq<char>>),
}

/// The values of a check.
pub open spec fn check_v(c: Check) -> CheckV {
    match c {
        Check::Any => CheckV::Any,
        Check::Repo => CheckV::Repo,
        Check::GithubRepo => CheckV::GithubRepo,
        Check::ApiBase => CheckV::ApiBase,
        Check::GatewayBase => CheckV::GatewayBase,
        Check::Field => CheckV::Field,
        Check::WorkflowPath => CheckV::WorkflowPath,
        Check::WorkflowInput => CheckV::WorkflowInput,
        Check::SecretName => CheckV::SecretName,
        Check::Unsigned(m) => CheckV::Unsigned(m),
        Check::Choice(ws) => CheckV::Choice(ws.deep_view()),
    }
}

/// An option, as values.
#[verifier::ext_equal]
pub struct OptV {
    pub long: Seq<char>,
    pub alias: Option<Seq<char>>,
    pub short: Option<char>,
    pub kind: OptKind,
    pub check: CheckV,
    pub value_name: Seq<char>,
    pub required: bool,
    pub help: Seq<char>,
}

/// The values of an option.
pub open spec fn opt_v(o: OptSpec) -> OptV {
    OptV {
        long: o.long@,
        alias: match o.alias {
            Some(a) => Some(a@),
            None => None,
        },
        short: o.short,
        kind: o.kind,
        check: check_v(o.check),
        value_name: o.value_name@,
        required: o.required,
        help: o.help@,
    }
}

/// A positional argument, as values.
#[verifier::ext_equal]
pub struct PosV {
    pub name: Seq<char>,
    pub required: bool,
    pub check: CheckV,
    pub last: bool,
}

/// The values of a positional argument.
pub open spec fn pos_v(p: PosSpec) -> PosV {
    PosV { name: p.name@, required: p.required, check: check_v(p.check), last: p.last }
}

/// A command, as values.
#[verifier::ext_equal]
pub struct NodeV {
    pub name: Seq<char>,
    pub alias: Option<Seq<char>>,
    pub about: Seq<char>,
    pub children: Seq<usize>,
    pub options: Seq<OptV>,
    pub positionals: Seq<PosV>,
}

/// The values of a command.
pub open spec fn node_v(n: NodeSpec) -> NodeV {
    NodeV {
        name: n.name@,
        alias: match n.alias {
            Some(a) => Some(a@),
            None => None,
        },
        about: n.about@,
        children: n.children@,
        options: n.options@.map_values(|o: OptSpec| opt_v(o)),
        positionals: n.positionals@.map_values(|p: PosSpec| pos_v(p)),
    }
}

/// `s` is made of ASCII letters, digits and `_`.
pub open spec fn secret_chars_ok(s: Seq<char>) -> bool {
    forall|i: int|
        0 <= i < s.len() ==> {
            let c = #[trigger] s[i];
            ('a' <= c && c <= 'z') || ('A' <= c && c <= 'Z') || ('0' <= c && c <= '9') || c == '_'
        }
}

/// `v` is one of `words`.
pub open spec fn is_choice(words: Seq<String>, v: Seq<char>) -> bool {
    exists|k: int| 0 <= k < words.len() && #[trigger] words[k]@ == v
}

/// The words joined by `, `.
pub open spec fn join_words(words: Seq<String>) -> Seq<char>
    decreases words.len(),
{
    if words.len() == 0 {
        seq![]
    } else if words.len() == 1 {
        words[0]@
    } else {
        join_words(words.drop_last()) + ", "@ + words.last()@
    }
}

/// Why `v` fails `c`, or `None` when it passes.
pub open spec fn check_reason(c: Check, v: Seq<char>) -> Option<Seq<char>> {
    match c {
        Check::Any => None,
        Check::Repo => if is_repo(v) {
            None
        } else {
            Some(error_text(GdError::RepoForm))
        },
        Check::GithubRepo => if github_repo_spec(v) is Some {
            None
        } else {
            Some(error_text(GdError::RepoForm))
        },
        Check::ApiBase => match api_base_spec(v) {
            Ok(_) => None,
            Err(BaseFault::Unparsable) => Some("invalid api base URL: "@ + v),
            Err(BaseFault::TooLong) => Some(error_text(GdError::UrlTooLong)),
            Err(_) => Some("api base URL must use http or https"@),
        },
        Check::GatewayBase => match actions_base_spec(v) {
            Ok(_) => None,
            Err(BaseFault::Unparsable) => Some("invalid OpenLibing gateway base URL: "@ + v),
            Err(BaseFault::Scheme) => Some("OpenLibing gateway base URL must use http or https"@),
            Err(BaseFault::NoHost) => Some("OpenLibing gateway base URL must include a host"@),
            Err(BaseFault::TooLong) => Some(error_text(GdError::UrlTooLong)),
        },
        Check::Field => if has_char(v, '=') {
            None
        } else {
            Some("field must be in key=value form: "@ + v)
        },
        Check::WorkflowPath => if workflow_path_ok(v) {
            None
        } else {
            Some(error_text(GdError::WorkflowPath))
        },
        Check::WorkflowInput => match split_once(v, '=') {
            None => Some("workflow input must be in key=value form: "@ + v),
            Some((k, _)) => if is_blank(k) {
                Some("workflow input key cannot be empty"@)
            } else {
                None
            },
        },
        Check::SecretName => if v.len() == 0 {
            Some("secret name cannot be empty"@)
        } else if !secret_chars_ok(v) {
            Some("secret name must contain only letters, digits, and '_'"@)
        } else {
            None
        },
        Check::Unsigned(max) => if v.len() == 0 {
            Some("cannot parse integer from empty string"@)
        } else if !all_digits(v) {
            Some("invalid digit found in string"@)
        } else if digits_value(v) > max {
            Some("number too large to fit in target type"@)
        } else {
            None
        },
        Check::Choice(words) => if is_choice(words@, v) {
            None
        } else {
            Some("possible values: "@ + join_words(words@))
        },
    }
}

/// A string holding `a` followed by `b`.
fn str_concat(a: &str, b: &str) -> (r: String)
    ensures
        r@ == a@ + b@,
{
    let mut v = to_chars(a);
    append_str(&mut v, b);
    from_chars(&v)
}

/// `words` joined by `, `.
fn join_words_exec(words: &Vec<String>) -> (r: Vec<char>)
    ensures
        r@ == join_words(words@),
{
    let mut out: Vec<char> = Vec::new();
    let mut i: usize = 0;
    while i < words.len()
        invariant
            i <= words@.len(),
            out@ == join_words(words@.subrange(0, i as int)),
        decreases words@.len() - i,
    {
        proof {
            let pre = words@.subrange(0, i + 1);
            assert(pre.drop_last() =~= words@.subrange(0, i as int));
            assert(pre.last() == words@[i as int]);
        }
        if i > 0 {
            append_str(&mut out, ", ");
        }
        append_str(&mut out, words[i].as_str());
        proof {
            let pre = words@.subrange(0, i + 1);
            if i == 0 {
                assert(pre.len() == 1);
                assert(out@ =~= pre[0]@);
            }
        }
        i = i + 1;
    }
    assert(words@.subrange(0, words@.len() as int) =~= words@);
    out
}

/// Whether every character of `v` is an ASCII letter, digit or `_`.
fn secret_chars(v: &[char]) -> (r: bool)
    ensures
        r == secret_chars_ok(v@),
{
    let mut i: usize = 0;
    while i < v.len()
        invariant
            i <= v@.len(),
            forall|j: int|
                0 <= j < i ==> {
                    let c = #[trigger] v@[j];
                    ('a' <= c && c <= 'z') || ('A' <= c && c <= 'Z') || ('0' <= c && c <= '9')
                        || c == '_'
                },
        decreases v@.len() - i,
    {
        let c = v[i];
        if !(('a' <= c && c <= 'z') || ('A' <= c && c <= 'Z') || ('0' <= c && c <= '9') || c
            == '_') {
            assert(!secret_chars_ok(v@)) by {
                assert(v@[i as int] == c);
            }
            return false;
        }
        i = i + 1;
    }
    true
}

/// Whether `v` is one of `words`.
fn choice_of(words: &Vec<String>, v: &str) -> (r: bool)
    ensures
        r == is_choice(words@, v@),
{
    let mut i: usize = 0;
    while i < words.len()
        invariant
            i <= words@.len(),
            forall|k: int| 0 <= k < i ==> words@[k]@ != v@,
        decreases words@.len() - i,
    {
        if crate::text::chars_eq_str(&to_chars(words[i].as_str()), v) {
            return true;
        }
        i = i + 1;
    }
    false
}

/// Checks `v` against `c`: `None` when it passes, else why it fails.
#[verifier::loop_isolation(false)]
pub fn check_value(c: &Check, v: &str) -> (r: Option<String>)
    ensures
        match (r, check_reason(*c, v@)) {
            (Some(s), Some(t)) => s@ == t,
            (None, None) => true,
            _ => false,
        },
{
    match c {
        Check::Any => None,
        Check::Repo => match crate::repo::split_repo(v) {
            Ok(_) => None,
            Err(e) => Some(e.message()),
        },
        Check::GithubRepo => match crate::repo::parse_github_repo(v) {
            Ok(_) => None,
            Err(e) => Some(e.message()),
        },
        Check::ApiBase => match crate::config::parse_api_base(v) {
            Ok(_) => None,
            Err(GdError::InvalidApiBase { .. }) => Some(str_concat("invalid api base URL: ", v)),
            Err(GdError::UrlTooLong) => Some(GdError::UrlTooLong.message()),
            Err(_) => Some(from_chars(&to_chars("api base URL must use http or https"))),
        },
        Check::GatewayBase => match crate::pipeline::parse_actions_api_base(v) {
            Ok(_) => None,
            Err(GdError::InvalidActionsBase { .. }) => Some(
                str_concat("invalid OpenLibing gateway base URL: ", v),
            ),
            Err(GdError::ActionsBaseScheme) => Some(
                from_chars(&to_chars("OpenLibing gateway base URL must use http or https")),
            ),
            Err(GdError::UrlTooLong) => Some(GdError::UrlTooLong.message()),
            Err(_) => Some(from_chars(&to_chars("OpenLibing gateway base URL must include a host"))),
        },
        Check::Field => if crate::text::contains_char(&to_chars(v), '=') {
            None
        } else {
            Some(str_concat("field must be in key=value form: ", v))
        },
        Check::WorkflowPath => match crate::pipeline::validate_workflow_path(v) {
            Ok(_) => None,
            Err(e) => Some(e.message()),
        },
        Check::WorkflowInput => match crate::text::split_once_chars(&to_chars(v), '=') {
            None => Some(str_concat("workflow input must be in key=value form: ", v)),
            Some((k, _)) => {
                let ks = from_chars(&k);
                if crate::env::blank(ks.as_str()) {
                    Some(from_chars(&to_chars("workflow input key cannot be empty")))
                } else {
                    None
                }
            },
        },
        Check::SecretName => {
            let cs = to_chars(v);
            if cs.len() == 0 {
                Some(from_chars(&to_chars("secret name cannot be empty")))
            } else if !secret_chars(&cs) {
                Some(from_chars(&to_chars("secret name must contain only letters, digits, and '_'")))
            } else {
                None
            }
        },
        Check::Unsigned(max) => {
            let cs = to_chars(v);
            if cs.len() == 0 {
                return Some(from_chars(&to_chars("cannot parse integer from empty string")));
            }
            let mut i: usize = 0;
            while i < cs.len()
                invariant
                    i <= cs@.len(),
                    cs@ == v@,
                    forall|j: int| 0 <= j < i ==> crate::num::is_digit(#[trigger] cs@[j]),
                decreases cs@.len() - i,
            {
                if !('0' <= cs[i] && cs[i] <= '9') {
                    assert(!crate::num::is_digit(cs@[i as int]));
                    assert(!all_digits(v@));
                    return Some(from_chars(&to_chars("invalid digit found in string")));
                }
                i = i + 1;
            }
            match crate::num::parse_u64_digits(&cs) {
                Some(n) => if n <= *max {
                    None
                } else {
                    Some(from_chars(&to_chars("number too large to fit in target type")))
                },
                None => Some(from_chars(&to_chars("number too large to fit in target type"))),
            }
        },
        Check::Choice(words) => if choice_of(words, v) {
            None
        } else {
            let mut out = to_chars("possible values: ");
            let j = join_words_exec(words);
            let all = concat(&out, &j);
            Some(from_chars(&all))
        },
    }
}

} // verus!
