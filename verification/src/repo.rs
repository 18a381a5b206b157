//! Repository names: `owner/repo` parsing, remote URLs and clone URLs.
use vstd::prelude::*;
use crate::error::GdError;
use crate::text::{
    concat, contains_char, first_index, from_chars, has_char, has_prefix, has_suffix, split_once,
    split_once_chars,
    strip_prefix, to_chars, trim, trim_char, trim_char_chars, trim_chars, trim_end_pat,
    trim_end_pat_chars,
};

verus! {

/// The `(owner, repo)` pair named by `input`: surrounding whitespace and
/// slashes are dropped, the rest splits at its first `/` into two non-empty
/// parts, and the repository part holds no further `/`.
pub open spec fn repo_parts(input: Seq<char>) -> Option<(Seq<char>, Seq<char>)> {
    let t = trim_char(trim(input), '/');
    match split_once(t, '/') {
        Some((o, r)) => if o.len() > 0 && r.len() > 0 && !has_char(r, '/') {
            Some((o, r))
        } else {
            None
        },
        None => None,
    }
}

/// `input` names a repository.
pub open spec fn is_repo(input: Seq<char>) -> bool {
    repo_parts(input) is Some
}

/// What follows `prefix` in `s`.
pub open spec fn after(s: Seq<char>, prefix: Seq<char>) -> Seq<char> {
    s.subrange(prefix.len() as int, s.len() as int)
}

/// The repository named by a GitHub reference: an `owner/repo` pair, or a
/// GitHub https, http, ssh or scp-style URL of one, with any `.git` removed.
pub open spec fn github_repo_spec(input: Seq<char>) -> Option<Seq<char>> {
    let t = trim_char(trim(input), '/');
    let w = trim_end_pat(t, ".git"@);
    let choose_rest = |rest: Seq<char>|
        if is_repo(rest) {
            Some(rest)
        } else {
            None::<Seq<char>>
        };
    if has_prefix(w, "git@github.com:"@) {
        choose_rest(after(w, "git@github.com:"@))
    } else if has_prefix(w, "https://github.com/"@) {
        choose_rest(after(w, "https://github.com/"@))
    } else if has_prefix(w, "http://github.com/"@) {
        choose_rest(after(w, "http://github.com/"@))
    } else if has_prefix(w, "ssh://git@github.com/"@) {
        choose_rest(after(w, "ssh://git@github.com/"@))
    } else {
        choose_rest(t)
    }
}

/// The repository named by a GitCode remote URL (scp-style, https or ssh),
/// with any `.git` removed.
pub open spec fn remote_repo_spec(remote: Seq<char>) -> Option<Seq<char>> {
    let w = trim_end_pat(remote, ".git"@);
    let choose_rest = |rest: Seq<char>|
        if is_repo(rest) {
            Some(rest)
        } else {
            None::<Seq<char>>
        };
    if has_prefix(w, "git@gitcode.com:"@) {
        choose_rest(after(w, "git@gitcode.com:"@))
    } else if has_prefix(w, "https://gitcode.com/"@) {
        choose_rest(after(w, "https://gitcode.com/"@))
    } else if has_prefix(w, "ssh://git@gitcode.com/"@) {
        choose_rest(after(w, "ssh://git@gitcode.com/"@))
    } else {
        None
    }
}

/// Splits `owner/repo` into its two parts.
pub fn split_repo(input: &str) -> (r: Result<(String, String), GdError>)
    ensures
        match r {
            Ok((o, p)) => repo_parts(input@) == Some((o@, p@)),
            Err(e) => repo_parts(input@) is None && e == GdError::RepoForm,
        },
{
    let v = to_chars(input);
    let t0 = trim_chars(&v);
    let t = trim_char_chars(&t0, '/');
    match split_once_chars(&t, '/') {
        Some((o, p)) => {
            if o.len() > 0 && p.len() > 0 && !contains_char(&p, '/') {
                Ok((from_chars(&o), from_chars(&p)))
            } else {
                Err(GdError::RepoForm)
            }
        },
        None => Err(GdError::RepoForm),
    }
}

/// Whether `v` names a repository.
fn check_repo_chars(v: &Vec<char>) -> (r: bool)
    ensures
        r == is_repo(v@),
{
    let s = from_chars(v);
    split_repo(s.as_str()).is_ok()
}

/// `Some(rest)` when `w` starts with `prefix`; `rest` must then name a repository.
fn repo_after_prefix(w: &Vec<char>, prefix: &str) -> (r: Option<Result<String, GdError>>)
    ensures
        match r {
            None => !has_prefix(w@, prefix@),
            Some(Ok(s)) => has_prefix(w@, prefix@) && is_repo(after(w@, prefix@)) && s@ == after(
                w@,
                prefix@,
            ),
            Some(Err(e)) => has_prefix(w@, prefix@) && !is_repo(after(w@, prefix@)) && e
                == GdError::RepoForm,
        },
{
    let p = to_chars(prefix);
    match strip_prefix(w, &p) {
        Some(rest) => {
            if check_repo_chars(&rest) {
                Some(Ok(from_chars(&rest)))
            } else {
                Some(Err(GdError::RepoForm))
            }
        },
        None => None,
    }
}

/// The `owner/repo` named by a GitHub reference.
pub fn parse_github_repo(input: &str) -> (r: Result<String, GdError>)
    ensures
        match r {
            Ok(s) => github_repo_spec(input@) == Some(s@),
            Err(e) => github_repo_spec(input@) is None && e == GdError::RepoForm,
        },
{
    let v = to_chars(input);
    let t0 = trim_chars(&v);
    let t = trim_char_chars(&t0, '/');
    let git = to_chars(".git");
    proof {
        reveal_strlit(".git");
    }
    let w = trim_end_pat_chars(&t, &git);
    if let Some(r) = repo_after_prefix(&w, "git@github.com:") {
        return r;
    }
    if let Some(r) = repo_after_prefix(&w, "https://github.com/") {
        return r;
    }
    if let Some(r) = repo_after_prefix(&w, "http://github.com/") {
        return r;
    }
    if let Some(r) = repo_after_prefix(&w, "ssh://git@github.com/") {
        return r;
    }
    if check_repo_chars(&t) {
        Ok(from_chars(&t))
    } else {
        Err(GdError::RepoForm)
    }
}

/// The remote, with any `.git` removed, starts with one of the three
/// GitCode prefixes (scp-style, https or ssh).
pub open spec fn gitcode_remote(remote: Seq<char>) -> bool {
    let w = trim_end_pat(remote, ".git"@);
    has_prefix(w, "git@gitcode.com:"@) || has_prefix(w, "https://gitcode.com/"@) || has_prefix(
        w,
        "ssh://git@gitcode.com/"@,
    )
}

/// The `owner/repo` named by a GitCode git remote; a remote on another host
/// is unsupported, and a GitCode remote that names no `owner/repo` is a
/// repository form error.
pub fn parse_remote_url(remote: &str) -> (r: Result<String, GdError>)
    ensures
        match r {
            Ok(s) => remote_repo_spec(remote@) == Some(s@),
            Err(e) => remote_repo_spec(remote@) is None && (if gitcode_remote(remote@) {
                e == GdError::RepoForm
            } else {
                e == GdError::UnsupportedRemote
            }),
        },
{
    let v = to_chars(remote);
    let git = to_chars(".git");
    proof {
        reveal_strlit(".git");
    }
    let w = trim_end_pat_chars(&v, &git);
    if let Some(r) = repo_after_prefix(&w, "git@gitcode.com:") {
        return r;
    }
    if let Some(r) = repo_after_prefix(&w, "https://gitcode.com/") {
        return r;
    }
    if let Some(r) = repo_after_prefix(&w, "ssh://git@gitcode.com/") {
        return r;
    }
    Err(GdError::UnsupportedRemote)
}

/// `https://{hostname}/{repository}.git`.
pub fn clone_url(hostname: &str, repository: &str) -> (r: String)
    ensures
        r@ == "https://"@ + hostname@ + "/"@ + repository@ + ".git"@,
{
    let a = concat(&to_chars("https://"), &to_chars(hostname));
    let b = concat(&a, &to_chars("/"));
    let c = concat(&b, &to_chars(repository));
    let d = concat(&c, &to_chars(".git"));
    from_chars(&d)
}

/// `https://github.com/{repository}.git`.
pub fn github_clone_url(repository: &str) -> (r: String)
    ensures
        r@ == "https://github.com/"@ + repository@ + ".git"@,
{
    let a = concat(&to_chars("https://github.com/"), &to_chars(repository));
    let d = concat(&a, &to_chars(".git"));
    from_chars(&d)
}

/// Where the repository of a command comes from.
#[derive(Debug, Clone, PartialEq, Eq)]
pub enum RepoChoice {
    /// Named on the command line or in the configuration.
    Named(String),
    /// To be read from the `origin` remote of the git checkout.
    FromGitRemote,
}

/// The repository a command acts on: the one given explicitly, else the
/// configured default, else the git remote. A given name must be `owner/repo`.
pub fn resolve_repo(explicit: Option<&str>, default_repo: Option<&str>) -> (r: Result<
    RepoChoice,
    GdError,
>)
    ensures
        match explicit {
            Some(e) => if is_repo(e@) {
                r matches Ok(RepoChoice::Named(s)) && s@ == e@
            } else {
                r == Err::<RepoChoice, GdError>(GdError::RepoForm)
            },
            None => match default_repo {
                Some(d) => if is_repo(d@) {
                    r matches Ok(RepoChoice::Named(s)) && s@ == d@
                } else {
                    r == Err::<RepoChoice, GdError>(GdError::RepoForm)
                },
                None => r == Ok::<RepoChoice, GdError>(RepoChoice::FromGitRemote),
            },
        },
{
    if let Some(repo) = explicit {
        match split_repo(repo) {
            Ok(_) => return Ok(RepoChoice::Named(from_chars(&to_chars(repo)))),
            Err(e) => return Err(e),
        }
    }
    if let Some(repo) = default_repo {
        match split_repo(repo) {
            Ok(_) => return Ok(RepoChoice::Named(from_chars(&to_chars(repo)))),
            Err(e) => return Err(e),
        }
    }
    Ok(RepoChoice::FromGitRemote)
}

} // verus!

verus! {

/// Joining an owner and a repository name with `/` and splitting the result
/// gives the two names back, when neither holds a `/` and the whole has no
/// surrounding whitespace.
pub proof fn law_split_repo_round_trip(owner: Seq<char>, name: Seq<char>)
    requires
        owner.len() > 0,
        name.len() > 0,
        !has_char(owner, '/'),
        !has_char(name, '/'),
        !crate::text::is_ws(owner[0]),
        !crate::text::is_ws(name.last()),
    ensures
        repo_parts(owner + "/"@ + name) == Some((owner, name)),
{
    reveal_strlit("/");
    let s = owner + "/"@ + name;
    assert(s[0] == owner[0]);
    assert(s.last() == name.last());
    assert(crate::text::trim_start(s) == s);
    assert(crate::text::trim_end(s) == s);
    assert(owner[0] != '/') by {
        assert(!(owner[0] == '/'));
    }
    assert(name.last() == name[name.len() - 1]);
    assert(name[name.len() - 1] != '/');
    assert(crate::text::trim_start_char(s, '/') == s);
    assert(crate::text::trim_end_char(s, '/') == s);
    assert forall|j: int| 0 <= j < owner.len() implies s[j] != '/' by {
        assert(s[j] == owner[j]);
    }
    assert(s[owner.len() as int] == '/');
    crate::text::lemma_first_index_is(s, '/', owner.len() as int);
    assert(s.subrange(0, owner.len() as int) =~= owner);
    assert(s.subrange(owner.len() as int + 1, s.len() as int) =~= name);
}

} // verus!

verus! {

proof fn lemma_first_index_found(s: Seq<char>, c: char)
    ensures
        match first_index(s, c) {
            Some(i) => 0 <= i < s.len() && s[i] == c && forall|j: int| 0 <= j < i ==> s[j] != c,
            None => forall|j: int| 0 <= j < s.len() ==> s[j] != c,
        },
    decreases s.len(),
{
    if s.len() > 0 && s[0] != c {
        let t = s.drop_first();
        lemma_first_index_found(t, c);
        assert forall|j: int| 1 <= j < s.len() implies s[j] == t[j - 1] by {}
    }
}

/// A text that starts and ends with neither whitespace nor `/` is left as
/// it is by the trimming that repository references go through.
proof fn lemma_plain_ends(s: Seq<char>)
    requires
        s.len() > 0,
        !crate::text::is_ws(s[0]),
        !crate::text::is_ws(s.last()),
        s[0] != '/',
        s.last() != '/',
    ensures
        trim_char(trim(s), '/') == s,
{
    assert(crate::text::trim_start(s) == s);
    assert(crate::text::trim_end(s) == s);
    assert(crate::text::trim_start_char(s, '/') == s);
    assert(crate::text::trim_end_char(s, '/') == s);
}

/// A repository name, once trimmed, holds exactly one `/`.
proof fn lemma_repo_one_slash(r: Seq<char>)
    requires
        is_repo(r),
        trim_char(trim(r), '/') == r,
    ensures
        has_char(r, '/'),
        forall|a: int, b: int| 0 <= a < b < r.len() && r[a] == '/' ==> r[b] != '/',
{
    lemma_first_index_found(r, '/');
    let i = first_index(r, '/')->0;
    let n = r.subrange(i + 1, r.len() as int);
    assert(!has_char(n, '/'));
    assert forall|b: int| i < b < r.len() implies r[b] != '/' by {
        assert(n[b - i - 1] == r[b]);
    }
}

/// Putting four or more characters in front of a text that holds a `/` and
/// does not end with `.git` gives a text that does not end with `.git`.
proof fn lemma_no_git_suffix(p: Seq<char>, r: Seq<char>)
    requires
        p.len() >= 4,
        has_char(r, '/'),
        !has_suffix(r, ".git"@),
    ensures
        !has_suffix(p + r, ".git"@),
{
    reveal_strlit(".git");
    let v = p + r;
    let l = v.len() as int;
    if has_suffix(v, ".git"@) {
        let win = v.subrange(l - 4, l);
        if r.len() >= 4 {
            assert(win =~= r.subrange(r.len() - 4, r.len() as int));
        } else {
            let i = choose|i: int| 0 <= i < r.len() && r[i] == '/';
            assert(v[p.len() + i] == '/');
            assert(win[p.len() + i - (l - 4)] == '/');
        }
    }
}

/// Removing the `.git` that was appended to a text that did not already end
/// with it gives the text back.
proof fn lemma_strip_git(v: Seq<char>)
    requires
        !has_suffix(v, ".git"@),
    ensures
        trim_end_pat(v + ".git"@, ".git"@) == v,
{
    reveal_strlit(".git");
    let u = v + ".git"@;
    assert(u.subrange(u.len() - 4, u.len() as int) =~= ".git"@);
    assert(u.subrange(0, u.len() - 4) =~= v);
    assert(trim_end_pat(v, ".git"@) == v);
}

/// A GitHub clone URL, https or scp-style, of a repository name, and the
/// name itself, each parse back to that name.
pub proof fn law_github_clone_url_round_trip(r: Seq<char>)
    requires
        is_repo(r),
        trim(r) == r,
        r[0] != '/',
        r.last() != '/',
        !has_suffix(r, ".git"@),
        !has_prefix(r, "git@github.com:"@),
    ensures
        github_repo_spec("https://github.com/"@ + r + ".git"@) == Some(r),
        github_repo_spec("git@github.com:"@ + r + ".git"@) == Some(r),
        github_repo_spec(r) == Some(r),
{
    reveal_strlit(".git");
    reveal_strlit("https://github.com/");
    reveal_strlit("http://github.com/");
    reveal_strlit("ssh://git@github.com/");
    reveal_strlit("git@github.com:");
    let https = "https://github.com/"@;
    let scp = "git@github.com:"@;
    assert(r.len() > 0);
    crate::text::lemma_trim_ends(r);
    lemma_plain_ends(r);
    lemma_repo_one_slash(r);
    // Clone URLs over https.
    lemma_no_git_suffix(https, r);
    lemma_strip_git(https + r);
    let u = https + r + ".git"@;
    assert(u[0] == 'h');
    assert(u.last() == 't');
    lemma_plain_ends(u);
    let w = https + r;
    assert(!has_prefix(w, scp)) by {
        if has_prefix(w, scp) {
            assert(w.subrange(0, scp.len() as int)[0] == w[0]);
        }
    }
    assert(w.subrange(0, https.len() as int) =~= https);
    assert(after(w, https) =~= r);
    // Clone URLs over ssh in scp form.
    lemma_no_git_suffix(scp, r);
    lemma_strip_git(scp + r);
    let g = scp + r + ".git"@;
    assert(g[0] == 'g');
    assert(g.last() == 't');
    lemma_plain_ends(g);
    let x = scp + r;
    assert(x.subrange(0, scp.len() as int) =~= scp);
    assert(after(x, scp) =~= r);
    // The bare name.
    assert(trim_end_pat(r, ".git"@) == r);
    assert(!has_prefix(r, https)) by {
        if has_prefix(r, https) {
            assert(r[6] == r.subrange(0, https.len() as int)[6]);
            assert(r[7] == r.subrange(0, https.len() as int)[7]);
        }
    }
    assert(!has_prefix(r, "http://github.com/"@)) by {
        if has_prefix(r, "http://github.com/"@) {
            assert(r[5] == r.subrange(0, 18)[5]);
            assert(r[6] == r.subrange(0, 18)[6]);
        }
    }
    assert(!has_prefix(r, "ssh://git@github.com/"@)) by {
        if has_prefix(r, "ssh://git@github.com/"@) {
            assert(r[4] == r.subrange(0, 21)[4]);
            assert(r[5] == r.subrange(0, 21)[5]);
        }
    }
}


proof fn lemma_has_char_drop(s: Seq<char>, c: char)
    requires
        s.len() > 0,
    ensures
        has_char(s.drop_first(), c) ==> has_char(s, c),
        has_char(s.drop_last(), c) ==> has_char(s, c),
{
    if has_char(s.drop_first(), c) {
        let i = choose|i: int| 0 <= i < s.drop_first().len() && s.drop_first()[i] == c;
        assert(s[i + 1] == c);
    }
    if has_char(s.drop_last(), c) {
        let i = choose|i: int| 0 <= i < s.drop_last().len() && s.drop_last()[i] == c;
        assert(s[i] == c);
    }
}

/// Trimming keeps only characters the text already had.
proof fn lemma_trimmed_char(s: Seq<char>, c: char, d: char)
    ensures
        has_char(crate::text::trim_start(s), c) ==> has_char(s, c),
        has_char(crate::text::trim_end(s), c) ==> has_char(s, c),
        has_char(crate::text::trim_start_char(s, d), c) ==> has_char(s, c),
        has_char(crate::text::trim_end_char(s, d), c) ==> has_char(s, c),
    decreases s.len(),
{
    if s.len() > 0 {
        lemma_has_char_drop(s, c);
        lemma_trimmed_char(s.drop_first(), c, d);
        lemma_trimmed_char(s.drop_last(), c, d);
    }
}

/// A repository name holds a `/`.
proof fn lemma_repo_has_slash(r: Seq<char>)
    requires
        is_repo(r),
    ensures
        has_char(r, '/'),
{
    let t = trim_char(trim(r), '/');
    lemma_first_index_found(t, '/');
    let i = first_index(t, '/')->0;
    assert(has_char(t, '/'));
    let u = crate::text::trim_start(r);
    let v = crate::text::trim_end(u);
    let w = crate::text::trim_start_char(v, '/');
    lemma_trimmed_char(w, '/', '/');
    lemma_trimmed_char(v, '/', '/');
    lemma_trimmed_char(u, '/', '/');
    lemma_trimmed_char(r, '/', '/');
}

/// A GitCode clone URL of a repository name, over https, in scp form or over
/// ssh, parses back to that name; the https clone URL of the name on any
/// other host is no GitCode remote and names no repository.
pub proof fn law_gitcode_remote_round_trip(r: Seq<char>, host: Seq<char>)
    requires
        is_repo(r),
        !has_suffix(r, ".git"@),
        !has_char(host, '/'),
        host != "gitcode.com"@,
    ensures
        remote_repo_spec("https://"@ + "gitcode.com"@ + "/"@ + r + ".git"@) == Some(r),
        remote_repo_spec("git@gitcode.com:"@ + r + ".git"@) == Some(r),
        remote_repo_spec("ssh://git@gitcode.com/"@ + r + ".git"@) == Some(r),
        !gitcode_remote("https://"@ + host + "/"@ + r + ".git"@),
        remote_repo_spec("https://"@ + host + "/"@ + r + ".git"@) is None,
{
    reveal_strlit(".git");
    reveal_strlit("https://");
    reveal_strlit("gitcode.com");
    reveal_strlit("/");
    reveal_strlit("https://gitcode.com/");
    reveal_strlit("git@gitcode.com:");
    reveal_strlit("ssh://git@gitcode.com/");
    let https = "https://gitcode.com/"@;
    let scp = "git@gitcode.com:"@;
    let ssh = "ssh://git@gitcode.com/"@;
    lemma_repo_has_slash(r);
    // Over https.
    assert("https://"@ + "gitcode.com"@ + "/"@ + r + ".git"@ =~= https + r + ".git"@);
    lemma_no_git_suffix(https, r);
    lemma_strip_git(https + r);
    let w = https + r;
    assert(!has_prefix(w, scp)) by {
        if has_prefix(w, scp) {
            assert(w.subrange(0, scp.len() as int)[0] == w[0]);
        }
    }
    assert(w.subrange(0, https.len() as int) =~= https);
    assert(after(w, https) =~= r);
    // In scp form.
    lemma_no_git_suffix(scp, r);
    lemma_strip_git(scp + r);
    let x = scp + r;
    assert(x.subrange(0, scp.len() as int) =~= scp);
    assert(after(x, scp) =~= r);
    // Over ssh.
    lemma_no_git_suffix(ssh, r);
    lemma_strip_git(ssh + r);
    let y = ssh + r;
    assert(!has_prefix(y, scp)) by {
        if has_prefix(y, scp) {
            assert(y.subrange(0, scp.len() as int)[0] == y[0]);
        }
    }
    assert(!has_prefix(y, https)) by {
        if has_prefix(y, https) {
            assert(y.subrange(0, https.len() as int)[0] == y[0]);
        }
    }
    assert(y.subrange(0, ssh.len() as int) =~= ssh);
    assert(after(y, ssh) =~= r);
    // Another host.
    let p = "https://"@ + host + "/"@;
    let z = p + r;
    assert(p + r + ".git"@ =~= "https://"@ + host + "/"@ + r + ".git"@);
    lemma_no_git_suffix(p, r);
    lemma_strip_git(z);
    let l = host.len() as int;
    assert(z[8 + l] == '/');
    assert forall|k: int| 0 <= k < l implies z[8 + k] == host[k] by {}
    assert(!has_prefix(z, scp)) by {
        if has_prefix(z, scp) {
            assert(z.subrange(0, scp.len() as int)[0] == z[0]);
        }
    }
    assert(!has_prefix(z, ssh)) by {
        if has_prefix(z, ssh) {
            assert(z.subrange(0, ssh.len() as int)[1] == z[1]);
        }
    }
    assert(!has_prefix(z, https)) by {
        if has_prefix(z, https) {
            let pre = z.subrange(0, https.len() as int);
            assert(pre =~= https);
            if l < 11 {
                assert(pre[8 + l] == z[8 + l]);
            } else if l > 11 {
                assert(pre[19] == z[19]);
                assert(z[19] == host[11]);
                assert(!(host[11] == '/'));
            } else {
                assert forall|k: int| 0 <= k < 11 implies host[k] == "gitcode.com"@[k] by {
                    assert(pre[8 + k] == z[8 + k]);
                }
                assert(host =~= "gitcode.com"@);
            }
        }
    }
}

} // verus!
