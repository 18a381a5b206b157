//! What each `gd` command asks of GitCode: the request it sends, built from
//! the command's values and the repository it acts on, and the values that
//! the authentication commands print.
use vstd::prelude::*;
use crate::cli::{
    Command, AuthCommand, IssueCommand, LabelCommand, PrCommand, ReleaseCommand, ReleaseMigrateGithubArgs,
    RepoCommand, SearchCommand, SshKeyCommand,
};
use crate::client::{
    HttpMethod, Request, body_view, entries_of, form_body, form_object, nonempty_pairs, present,
};
use crate::error::GdError;
use crate::json::{Json, JsonV, entries_view};
use crate::num::decimal;
use crate::scan::sview;
use crate::text::{append_str, from_chars, to_chars, trim, is_blank};
use vstd::string::StringSliceAdditionalSpecFns;

verus! {

/// `r` has this method, endpoint, query (empty values left out) and body.
pub open spec fn sent(
    r: Request,
    m: HttpMethod,
    endpoint: Seq<char>,
    query: Seq<(Seq<char>, Seq<char>)>,
    body: Option<JsonV>,
) -> bool {
    &&& r.method == m
    &&& r.endpoint@ == endpoint
    &&& r.query.deep_view() == nonempty_pairs(query)
    &&& body_view(r.body) == body
}

/// A request.
fn request(m: HttpMethod, endpoint: &Vec<char>, query: Vec<(String, String)>, body: Option<Json>) -> (r:
    Request)
    ensures
        sent(r, m, endpoint@, query.deep_view(), body_view(body)),
{
    Request::new(m, from_chars(endpoint), query, body)
}

/// No query pairs.
fn no_query() -> (r: Vec<(String, String)>)
    ensures
        r.deep_view() == Seq::<(Seq<char>, Seq<char>)>::empty(),
{
    let q: Vec<(String, String)> = Vec::new();
    assert(q.deep_view() =~= Seq::<(Seq<char>, Seq<char>)>::empty());
    q
}

/// Appends a query pair.
fn q_push(q: &mut Vec<(String, String)>, k: &str, v: String)
    ensures
        final(q).deep_view() == old(q).deep_view().push((k@, v@)),
{
    let ghost before = q.deep_view();
    let kk = from_chars(&to_chars(k));
    let ghost pair = (kk@, v@);
    q.push((kk, v));
    assert(q.deep_view() =~= before.push(pair));
}

/// The first page of a list: `page=1`, `per_page=limit`.
pub open spec fn first_page(limit: nat) -> Seq<(Seq<char>, Seq<char>)> {
    seq![("page"@, "1"@), ("per_page"@, decimal(limit))]
}

/// The query of the first page of a list.
fn page_query(limit: u64) -> (r: Vec<(String, String)>)
    ensures
        r.deep_view() == first_page(limit as nat),
{
    let mut q = no_query();
    q_push(&mut q, "page", from_chars(&to_chars("1")));
    q_push(&mut q, "per_page", crate::num::u64_to_text(limit));
    assert(q.deep_view() =~= first_page(limit as nat));
    q
}

/// A form body from entries with their values.
pub open spec fn form_of(pairs: Seq<(Seq<char>, Option<Seq<char>>)>) -> JsonV {
    JsonV::Object(form_object(present(pairs)))
}

/// The values joined by `,`.
pub open spec fn comma_join(values: Seq<Seq<char>>) -> Seq<char>
    decreases values.len(),
{
    if values.len() == 0 {
        seq![]
    } else if values.len() == 1 {
        values[0]
    } else {
        comma_join(values.drop_last()) + ","@ + values.last()
    }
}

/// The values joined by `,`, none when there are none.
pub open spec fn join_spec(values: Seq<Seq<char>>) -> Option<Seq<char>> {
    if values.len() == 0 {
        None
    } else {
        Some(comma_join(values))
    }
}

/// The values joined by `,`, or `None` when there are none.
pub fn join(values: &Vec<String>) -> (r: Option<String>)
    ensures
        sview(r) == join_spec(values.deep_view()),
{
    if values.len() == 0 {
        return None;
    }
    let ghost all = values.deep_view();
    let mut out = to_chars(values[0].as_str());
    let mut i: usize = 1;
    assert(all.take(1).len() == 1);
    assert(out@ == comma_join(all.take(1)));
    while i < values.len()
        invariant
            1 <= i <= values@.len(),
            all == values.deep_view(),
            out@ == comma_join(all.take(i as int)),
        decreases values@.len() - i,
    {
        assert(all.take(i + 1).drop_last() =~= all.take(i as int));
        assert(all.take(i + 1).last() == all[i as int]);
        append_str(&mut out, ",");
        append_str(&mut out, values[i].as_str());
        i = i + 1;
    }
    assert(all.take(all.len() as int) =~= all);
    Some(from_chars(&out))
}

/// `a` followed by `b`, as characters.
fn chars2(a: &str, b: &str) -> (r: Vec<char>)
    ensures
        r@ == a@ + b@,
{
    let mut v = to_chars(a);
    append_str(&mut v, b);
    v
}

/// `a b c` concatenated.
fn chars3(a: &str, b: &str, c: &str) -> (r: Vec<char>)
    ensures
        r@ == a@ + b@ + c@,
{
    let mut v = to_chars(a);
    append_str(&mut v, b);
    append_str(&mut v, c);
    v
}

/// `a b c d` concatenated.
fn chars4(a: &str, b: &str, c: &str, d: &str) -> (r: Vec<char>)
    ensures
        r@ == a@ + b@ + c@ + d@,
{
    let mut v = chars3(a, b, c);
    append_str(&mut v, d);
    v
}

/// `a b c d e` concatenated.
fn chars5(a: &str, b: &str, c: &str, d: &str, e: &str) -> (r: Vec<char>)
    ensures
        r@ == a@ + b@ + c@ + d@ + e@,
{
    let mut v = chars4(a, b, c, d);
    append_str(&mut v, e);
    v
}

/// The decimal text of `n`.
fn number(n: u64) -> (r: String)
    ensures
        r@ == decimal(n as nat),
{
    crate::num::u64_to_text(n)
}

/// A form body from three entries.
fn form3(a: &str, x: Option<String>, b: &str, y: Option<String>, c: &str, z: Option<String>) -> (r:
    Json)
    ensures
        r@ == form_of(seq![(a@, sview(x)), (b@, sview(y)), (c@, sview(z))]),
{
    let mut e: Vec<(&str, Option<String>)> = Vec::new();
    e.push((a, x));
    e.push((b, y));
    e.push((c, z));
    assert(entries_of(e@) =~= seq![(a@, sview(x)), (b@, sview(y)), (c@, sview(z))]);
    form_body(e)
}

/// What a repository command does.
#[derive(Debug, PartialEq, Eq)]
pub enum RepoAction {
    /// Send a request.
    Send(Request),
    /// Run `git` with these arguments.
    Git(Vec<String>),
    /// The command is not available.
    Unsupported,
}

/// The arguments of `git clone` for a repository: the clone URL, the
/// directory when given, then the extra git arguments.
pub open spec fn clone_args(
    hostname: Seq<char>,
    repository: Seq<char>,
    directory: Option<Seq<char>>,
    flags: Seq<Seq<char>>,
) -> Seq<Seq<char>> {
    seq!["clone"@, "https://"@ + hostname + "/"@ + repository + ".git"@] + match directory {
        Some(d) => seq![d],
        None => seq![],
    } + flags
}

/// The `git` arguments that clone `repository` from `hostname`.
pub fn git_clone_args(
    hostname: &str,
    repository: &str,
    directory: Option<String>,
    git_flags: &Vec<String>,
) -> (r: Result<Vec<String>, GdError>)
    ensures
        match r {
            Ok(a) => crate::repo::is_repo(repository@) && a.deep_view() == clone_args(
                hostname@,
                repository@,
                sview(directory),
                git_flags.deep_view(),
            ),
            Err(e) => !crate::repo::is_repo(repository@) && e == GdError::RepoForm,
        },
{
    crate::repo::split_repo(repository)?;
    let ghost dv = sview(directory);
    let mut out: Vec<String> = Vec::new();
    let a = from_chars(&to_chars("clone"));
    let b = crate::repo::clone_url(hostname, repository);
    let ghost (av, bv) = (a@, b@);
    out.push(a);
    out.push(b);
    assert(out.deep_view() =~= seq![av, bv]);
    if let Some(d) = directory {
        let ghost before = out.deep_view();
        let ghost d0 = d@;
        out.push(d);
        assert(out.deep_view() =~= before.push(d0));
    }
    let ghost base = out.deep_view();
    assert(base == seq!["clone"@, "https://"@ + hostname@ + "/"@ + repository@ + ".git"@] + match dv {
        Some(d) => seq![d],
        None => Seq::<Seq<char>>::empty(),
    });
    let mut i: usize = 0;
    while i < git_flags.len()
        invariant
            i <= git_flags@.len(),
            out.deep_view() == base + git_flags.deep_view().take(i as int),
        decreases git_flags@.len() - i,
    {
        let ghost before = out.deep_view();
        let f = from_chars(&to_chars(git_flags[i].as_str()));
        let ghost fv = f@;
        out.push(f);
        assert(out.deep_view() =~= before.push(fv));
        assert(git_flags.deep_view().take(i + 1) =~= git_flags.deep_view().take(i as int).push(
            git_flags@[i as int]@,
        ));
        i = i + 1;
    }
    assert(git_flags.deep_view().take(git_flags@.len() as int) =~= git_flags.deep_view());
    Ok(out)
}

/// What a repository command does, for the repository `repository` (the
/// resolved one, for `view`) on host `hostname`.
pub fn repo_command(command: &RepoCommand, repository: &str, hostname: &str) -> (r: Result<
    RepoAction,
    GdError,
>)
    ensures
        match command {
            RepoCommand::View(_) => r matches Ok(RepoAction::Send(q)) && sent(
                q,
                HttpMethod::Get,
                "repos/"@ + repository@,
                seq![],
                None,
            ),
            RepoCommand::List(a) => r matches Ok(RepoAction::Send(q)) && sent(
                q,
                HttpMethod::Get,
                match a.owner {
                    Some(o) => "users/"@ + o@ + "/repos"@,
                    None => "user/repos"@,
                },
                first_page(a.limit as nat),
                None,
            ),
            RepoCommand::Clone(a) => match r {
                Ok(RepoAction::Git(g)) => crate::repo::is_repo(a.repository@) && g.deep_view()
                    == clone_args(hostname@, a.repository@, sview(a.directory), a.git_flags.deep_view()),
                Err(e) => !crate::repo::is_repo(a.repository@) && e == GdError::RepoForm,
                _ => false,
            },
            RepoCommand::Fork(a) => r matches Ok(RepoAction::Send(q)) && sent(
                q,
                HttpMethod::Post,
                "repos/"@ + a.repository@ + "/forks"@,
                seq![],
                Some(JsonV::Object(seq![])),
            ),
            RepoCommand::Create(a) => r matches Ok(RepoAction::Send(q)) && sent(
                q,
                HttpMethod::Post,
                "user/repos"@,
                seq![],
                Some(
                    form_of(
                        seq![
                            ("name"@, Some(a.name@)),
                            ("description"@, sview(a.description)),
                            ("private"@, Some(if a.private {
                                "true"@
                            } else {
                                "false"@
                            })),
                        ],
                    ),
                ),
            ),
            _ => r == Ok::<RepoAction, GdError>(RepoAction::Unsupported),
        },
{
    match command {
        RepoCommand::View(_) => Ok(
            RepoAction::Send(
                request(HttpMethod::Get, &chars2("repos/", repository), no_query(), None),
            ),
        ),
        RepoCommand::List(a) => {
            let ep = match &a.owner {
                Some(o) => chars3("users/", o.as_str(), "/repos"),
                None => to_chars("user/repos"),
            };
            Ok(RepoAction::Send(request(HttpMethod::Get, &ep, page_query(a.limit as u64), None)))
        },
        RepoCommand::Clone(a) => {
            let dir = match &a.directory {
                Some(d) => Some(from_chars(&to_chars(d.as_str()))),
                None => None,
            };
            let g = git_clone_args(hostname, a.repository.as_str(), dir, &a.git_flags)?;
            Ok(RepoAction::Git(g))
        },
        RepoCommand::Fork(a) => {
            let body: Vec<(String, Json)> = Vec::new();
            proof {
                crate::json::lemma_object_view(body);
                assert(entries_view(body@) =~= Seq::<(Seq<char>, JsonV)>::empty());
            }
            Ok(
                RepoAction::Send(
                    request(
                        HttpMethod::Post,
                        &chars3("repos/", a.repository.as_str(), "/forks"),
                        no_query(),
                        Some(Json::Object(body)),
                    ),
                ),
            )
        },
        RepoCommand::Create(a) => {
            let private = if a.private {
                from_chars(&to_chars("true"))
            } else {
                from_chars(&to_chars("false"))
            };
            let description = match &a.description {
                Some(d) => Some(from_chars(&to_chars(d.as_str()))),
                None => None,
            };
            let body = form3(
                "name",
                Some(from_chars(&to_chars(a.name.as_str()))),
                "description",
                description,
                "private",
                Some(private),
            );
            Ok(
                RepoAction::Send(
                    request(HttpMethod::Post, &to_chars("user/repos"), no_query(), Some(body)),
                ),
            )
        },
        _ => Ok(RepoAction::Unsupported),
    }
}

/// A copy of an optional string.
fn copy_opt(o: &Option<String>) -> (r: Option<String>)
    ensures
        sview(r) == sview(*o),
{
    match o {
        Some(s) => Some(from_chars(&to_chars(s.as_str()))),
        None => None,
    }
}

/// A copy of a string.
fn copy(s: &String) -> (r: String)
    ensures
        r@ == s@,
{
    from_chars(&to_chars(s.as_str()))
}

/// The request of an issue command on `repository`; an issue is created
/// under the owner of the repository.
pub fn issue_command(command: &IssueCommand, repository: &str) -> (r: Result<Request, GdError>)
    ensures
        match command {
            IssueCommand::List(a) => r matches Ok(q) && sent(
                q,
                HttpMethod::Get,
                "repos/"@ + repository@ + "/issues"@,
                seq![("state"@, a.state@)] + first_page(a.limit as nat),
                None,
            ),
            IssueCommand::View(a) => r matches Ok(q) && sent(
                q,
                HttpMethod::Get,
                "repos/"@ + repository@ + "/issues/"@ + decimal(a.number as nat),
                seq![],
                None,
            ),
            IssueCommand::Create(a) => match (r, crate::repo::repo_parts(repository@)) {
                (Ok(q), Some((owner, name))) => sent(
                    q,
                    HttpMethod::Post,
                    "repos/"@ + owner + "/issues"@,
                    seq![],
                    Some(
                        form_of(
                            seq![
                                ("repo"@, Some(name)),
                                ("title"@, Some(a.title@)),
                                ("body"@, sview(a.body)),
                                ("labels"@, join_spec(a.label.deep_view())),
                                ("assignee"@, sview(a.assignee)),
                            ],
                        ),
                    ),
                ),
                (Err(e), None) => e == GdError::RepoForm,
                _ => false,
            },
            IssueCommand::Comment(a) => r matches Ok(q) && sent(
                q,
                HttpMethod::Post,
                "repos/"@ + repository@ + "/issues/"@ + decimal(a.number as nat) + "/comments"@,
                seq![],
                Some(JsonV::Object(seq![("body"@, JsonV::Str(a.body@))])),
            ),
        },
{
    match command {
        IssueCommand::List(a) => {
            let mut q = no_query();
            q_push(&mut q, "state", copy(&a.state));
            q_push(&mut q, "page", from_chars(&to_chars("1")));
            q_push(&mut q, "per_page", number(a.limit as u64));
            assert(q.deep_view() =~= seq![("state"@, a.state@)] + first_page(a.limit as nat));
            Ok(request(HttpMethod::Get, &chars3("repos/", repository, "/issues"), q, None))
        },
        IssueCommand::View(a) => {
            let n = number(a.number);
            Ok(
                request(
                    HttpMethod::Get,
                    &chars4("repos/", repository, "/issues/", n.as_str()),
                    no_query(),
                    None,
                ),
            )
        },
        IssueCommand::Create(a) => {
            let (owner, name) = crate::repo::split_repo(repository)?;
            let ghost nv = name@;
            let labels = join(&a.label);
            let mut e: Vec<(&str, Option<String>)> = Vec::new();
            e.push(("repo", Some(name)));
            e.push(("title", Some(copy(&a.title))));
            e.push(("body", copy_opt(&a.body)));
            e.push(("labels", labels));
            e.push(("assignee", copy_opt(&a.assignee)));
            assert(entries_of(e@) =~= seq![
                ("repo"@, Some(nv)),
                ("title"@, Some(a.title@)),
                ("body"@, sview(a.body)),
                ("labels"@, join_spec(a.label.deep_view())),
                ("assignee"@, sview(a.assignee)),
            ]);
            let body = form_body(e);
            Ok(
                request(
                    HttpMethod::Post,
                    &chars3("repos/", owner.as_str(), "/issues"),
                    no_query(),
                    Some(body),
                ),
            )
        },
        IssueCommand::Comment(a) => {
            let n = number(a.number);
            let mut body: Vec<(String, Json)> = Vec::new();
            let k = from_chars(&to_chars("body"));
            let v = Json::Str(copy(&a.body));
            let ghost pair = (k@, v@);
            body.push((k, v));
            proof {
                crate::json::lemma_object_view(body);
                assert(entries_view(body@) =~= seq![pair]);
            }
            Ok(
                request(
                    HttpMethod::Post,
                    &chars5("repos/", repository, "/issues/", n.as_str(), "/comments"),
                    no_query(),
                    Some(Json::Object(body)),
                ),
            )
        },
    }
}


/// An object from entries built in order.
fn object(entries: Vec<(String, Json)>) -> (r: Json)
    ensures
        r@ == JsonV::Object(entries_view(entries@)),
{
    proof {
        crate::json::lemma_object_view(entries);
    }
    Json::Object(entries)
}

/// Appends an object entry.
fn e_push(e: &mut Vec<(String, Json)>, k: &str, v: Json)
    ensures
        entries_view(final(e)@) == entries_view(old(e)@).push((k@, v@)),
{
    let ghost before = entries_view(e@);
    let kk = from_chars(&to_chars(k));
    let ghost pair = (kk@, v@);
    e.push((kk, v));
    assert(entries_view(e@) =~= before.push(pair));
}

/// The body of a review comment: the text, the file and position when
/// given, and whether it must be resolved.
pub open spec fn comment_body(
    body: Seq<char>,
    need_to_resolve: bool,
    path: Option<Seq<char>>,
    position: Option<u64>,
) -> JsonV {
    JsonV::Object(
        seq![("body"@, JsonV::Str(body)), ("need_to_resolve"@, JsonV::Bool(need_to_resolve))]
            + match path {
            Some(p) => seq![("path"@, JsonV::Str(p))],
            None => seq![],
        } + match position {
            Some(n) => seq![("position"@, JsonV::Number(decimal(n as nat)))],
            None => seq![],
        },
    )
}

/// The request of a pull request command on `repository`.
pub fn pr_command(command: &PrCommand, repository: &str) -> (r: Request)
    ensures
        match command {
            PrCommand::List(a) => sent(
                r,
                HttpMethod::Get,
                "repos/"@ + repository@ + "/pulls"@,
                seq![("state"@, a.state@)] + match a.base {
                    Some(b) => seq![("base"@, b@)],
                    None => seq![],
                } + first_page(a.limit as nat),
                None,
            ),
            PrCommand::View(a) => sent(
                r,
                HttpMethod::Get,
                "repos/"@ + repository@ + "/pulls/"@ + decimal(a.number as nat),
                seq![],
                None,
            ),
            PrCommand::Create(a) => sent(
                r,
                HttpMethod::Post,
                "repos/"@ + repository@ + "/pulls"@,
                seq![],
                Some(
                    form_of(
                        seq![
                            ("title"@, Some(a.title@)),
                            ("body"@, sview(a.body)),
                            ("base"@, Some(a.base@)),
                            ("head"@, Some(a.head@)),
                            ("labels"@, join_spec(a.label.deep_view())),
                            ("assignees"@, join_spec(a.assignee.deep_view())),
                        ],
                    ),
                ),
            ),
            PrCommand::Comments(a) => sent(
                r,
                HttpMethod::Get,
                "repos/"@ + repository@ + "/pulls/"@ + decimal(a.number as nat) + "/comments"@,
                seq![("page"@, decimal(a.page as nat)), ("per_page"@, decimal(a.limit as nat))],
                None,
            ),
            PrCommand::Comment(a) => sent(
                r,
                HttpMethod::Post,
                "repos/"@ + repository@ + "/pulls/"@ + decimal(a.number as nat) + "/comments"@,
                seq![],
                Some(comment_body(a.body@, a.need_to_resolve, sview(a.path), a.position)),
            ),
            PrCommand::Reply(a) => sent(
                r,
                HttpMethod::Post,
                "repos/"@ + repository@ + "/pulls/"@ + decimal(a.number as nat) + "/discussions/"@
                    + a.discussion_id@ + "/comments"@,
                seq![],
                Some(JsonV::Object(seq![("body"@, JsonV::Str(a.body@))])),
            ),
        },
{
    match command {
        PrCommand::List(a) => {
            let mut q = no_query();
            q_push(&mut q, "state", copy(&a.state));
            if let Some(b) = &a.base {
                q_push(&mut q, "base", copy(b));
            }
            q_push(&mut q, "page", from_chars(&to_chars("1")));
            q_push(&mut q, "per_page", number(a.limit as u64));
            assert(q.deep_view() =~= seq![("state"@, a.state@)] + match a.base {
                Some(b) => seq![("base"@, b@)],
                None => Seq::<(Seq<char>, Seq<char>)>::empty(),
            } + first_page(a.limit as nat));
            request(HttpMethod::Get, &chars3("repos/", repository, "/pulls"), q, None)
        },
        PrCommand::View(a) => {
            let n = number(a.number);
            request(HttpMethod::Get, &chars4("repos/", repository, "/pulls/", n.as_str()), no_query(), None)
        },
        PrCommand::Create(a) => {
            let labels = join(&a.label);
            let assignees = join(&a.assignee);
            let mut e: Vec<(&str, Option<String>)> = Vec::new();
            e.push(("title", Some(copy(&a.title))));
            e.push(("body", copy_opt(&a.body)));
            e.push(("base", Some(copy(&a.base))));
            e.push(("head", Some(copy(&a.head))));
            e.push(("labels", labels));
            e.push(("assignees", assignees));
            assert(entries_of(e@) =~= seq![
                ("title"@, Some(a.title@)),
                ("body"@, sview(a.body)),
                ("base"@, Some(a.base@)),
                ("head"@, Some(a.head@)),
                ("labels"@, join_spec(a.label.deep_view())),
                ("assignees"@, join_spec(a.assignee.deep_view())),
            ]);
            let body = form_body(e);
            request(HttpMethod::Post, &chars3("repos/", repository, "/pulls"), no_query(), Some(body))
        },
        PrCommand::Comments(a) => {
            let n = number(a.number);
            let mut q = no_query();
            q_push(&mut q, "page", number(a.page));
            q_push(&mut q, "per_page", number(a.limit));
            assert(q.deep_view() =~= seq![
                ("page"@, decimal(a.page as nat)),
                ("per_page"@, decimal(a.limit as nat)),
            ]);
            request(
                HttpMethod::Get,
                &chars5("repos/", repository, "/pulls/", n.as_str(), "/comments"),
                q,
                None,
            )
        },
        PrCommand::Comment(a) => {
            let n = number(a.number);
            let mut e: Vec<(String, Json)> = Vec::new();
            e_push(&mut e, "body", Json::Str(copy(&a.body)));
            e_push(&mut e, "need_to_resolve", Json::Bool(a.need_to_resolve));
            let ghost base = entries_view(e@);
            if let Some(p) = &a.path {
                e_push(&mut e, "path", Json::Str(copy(p)));
            }
            let ghost with_path = entries_view(e@);
            assert(with_path == base + match sview(a.path) {
                Some(p) => seq![("path"@, JsonV::Str(p))],
                None => Seq::<(Seq<char>, JsonV)>::empty(),
            });
            if let Some(pos) = a.position {
                e_push(&mut e, "position", crate::json::json_u64(pos));
            }
            assert(entries_view(e@) =~= comment_body(
                a.body@,
                a.need_to_resolve,
                sview(a.path),
                a.position,
            )->Object_0);
            let body = object(e);
            request(
                HttpMethod::Post,
                &chars5("repos/", repository, "/pulls/", n.as_str(), "/comments"),
                no_query(),
                Some(body),
            )
        },
        PrCommand::Reply(a) => {
            let n = number(a.number);
            let mut e: Vec<(String, Json)> = Vec::new();
            e_push(&mut e, "body", Json::Str(copy(&a.body)));
            assert(entries_view(e@) =~= seq![("body"@, JsonV::Str(a.body@))]);
            let body = object(e);
            let mut ep = chars5("repos/", repository, "/pulls/", n.as_str(), "/discussions/");
            append_str(&mut ep, a.discussion_id.as_str());
            append_str(&mut ep, "/comments");
            request(HttpMethod::Post, &ep, no_query(), Some(body))
        },
    }
}

/// The request of a search command.
pub fn search_command(command: &SearchCommand) -> (r: Request)
    ensures
        ({
            let (endpoint, args) = match command {
                SearchCommand::Repos(a) => ("search/repositories"@, a),
                SearchCommand::Issues(a) => ("search/issues"@, a),
                SearchCommand::Users(a) => ("search/users"@, a),
            };
            sent(
                r,
                HttpMethod::Get,
                endpoint,
                seq![("q"@, args.query@)] + first_page(args.limit as nat),
                None,
            )
        }),
{
    let (endpoint, args) = match command {
        SearchCommand::Repos(a) => (to_chars("search/repositories"), a),
        SearchCommand::Issues(a) => (to_chars("search/issues"), a),
        SearchCommand::Users(a) => (to_chars("search/users"), a),
    };
    let mut q = no_query();
    q_push(&mut q, "q", copy(&args.query));
    q_push(&mut q, "page", from_chars(&to_chars("1")));
    q_push(&mut q, "per_page", number(args.limit as u64));
    assert(q.deep_view() =~= seq![("q"@, args.query@)] + first_page(args.limit as nat));
    request(HttpMethod::Get, &endpoint, q, None)
}

/// The request of an SSH key command; `key` is the content of the key file
/// for `add`.
pub fn ssh_key_command(command: &SshKeyCommand, key: &str) -> (r: Request)
    ensures
        match command {
            SshKeyCommand::List => sent(r, HttpMethod::Get, "user/keys"@, seq![], None),
            SshKeyCommand::Add(a) => sent(
                r,
                HttpMethod::Post,
                "user/keys"@,
                seq![],
                Some(form_of(seq![("key"@, Some(key@)), ("title"@, sview(a.title))])),
            ),
            SshKeyCommand::Delete(a) => sent(
                r,
                HttpMethod::Delete,
                "user/keys/"@ + a.id@,
                seq![],
                None,
            ),
        },
{
    match command {
        SshKeyCommand::List => request(HttpMethod::Get, &to_chars("user/keys"), no_query(), None),
        SshKeyCommand::Add(a) => {
            let mut e: Vec<(&str, Option<String>)> = Vec::new();
            e.push(("key", Some(from_chars(&to_chars(key)))));
            e.push(("title", copy_opt(&a.title)));
            assert(entries_of(e@) =~= seq![("key"@, Some(key@)), ("title"@, sview(a.title))]);
            let body = form_body(e);
            request(HttpMethod::Post, &to_chars("user/keys"), no_query(), Some(body))
        },
        SshKeyCommand::Delete(a) => request(
            HttpMethod::Delete,
            &chars2("user/keys/", a.id.as_str()),
            no_query(),
            None,
        ),
    }
}

/// The request of a label command on `repository`.
pub fn label_command(command: &LabelCommand, repository: &str) -> (r: Request)
    ensures
        match command {
            LabelCommand::List(a) => sent(
                r,
                HttpMethod::Get,
                "repos/"@ + repository@ + "/labels"@,
                first_page(a.limit as nat),
                None,
            ),
            LabelCommand::Create(a) => sent(
                r,
                HttpMethod::Post,
                "repos/"@ + repository@ + "/labels"@,
                seq![],
                Some(
                    form_of(
                        seq![
                            ("name"@, Some(a.name@)),
                            ("color"@, sview(a.color)),
                            ("description"@, sview(a.description)),
                        ],
                    ),
                ),
            ),
            LabelCommand::Edit(a) => sent(
                r,
                HttpMethod::Patch,
                "repos/"@ + repository@ + "/labels/"@ + a.name@,
                seq![],
                Some(
                    form_of(
                        seq![
                            ("name"@, sview(a.new_name)),
                            ("color"@, sview(a.color)),
                            ("description"@, sview(a.description)),
                        ],
                    ),
                ),
            ),
            LabelCommand::Delete(a) => sent(
                r,
                HttpMethod::Delete,
                "repos/"@ + repository@ + "/labels/"@ + a.name@,
                seq![],
                None,
            ),
        },
{
    match command {
        LabelCommand::List(a) => request(
            HttpMethod::Get,
            &chars3("repos/", repository, "/labels"),
            page_query(a.limit as u64),
            None,
        ),
        LabelCommand::Create(a) => {
            let body = form3(
                "name",
                Some(copy(&a.name)),
                "color",
                copy_opt(&a.color),
                "description",
                copy_opt(&a.description),
            );
            request(HttpMethod::Post, &chars3("repos/", repository, "/labels"), no_query(), Some(body))
        },
        LabelCommand::Edit(a) => {
            let body = form3(
                "name",
                copy_opt(&a.new_name),
                "color",
                copy_opt(&a.color),
                "description",
                copy_opt(&a.description),
            );
            request(
                HttpMethod::Patch,
                &chars4("repos/", repository, "/labels/", a.name.as_str()),
                no_query(),
                Some(body),
            )
        },
        LabelCommand::Delete(a) => request(
            HttpMethod::Delete,
            &chars4("repos/", repository, "/labels/", a.name.as_str()),
            no_query(),
            None,
        ),
    }
}

/// The request of a release command on `repository`; migrating releases
/// has no single request.
pub fn release_command(command: &ReleaseCommand, repository: &str) -> (r: Option<Request>)
    ensures
        match command {
            ReleaseCommand::List(a) => r matches Some(q) && sent(
                q,
                HttpMethod::Get,
                "repos/"@ + repository@ + "/releases"@,
                first_page(a.limit as nat),
                None,
            ),
            ReleaseCommand::View(a) => r matches Some(q) && sent(
                q,
                HttpMethod::Get,
                "repos/"@ + repository@ + "/releases/tags/"@ + a.tag@,
                seq![],
                None,
            ),
            ReleaseCommand::Create(a) => r matches Some(q) && sent(
                q,
                HttpMethod::Post,
                "repos/"@ + repository@ + "/releases"@,
                seq![],
                Some(
                    form_of(
                        seq![
                            ("tag_name"@, Some(a.tag@)),
                            ("name"@, sview(a.title)),
                            ("body"@, sview(a.notes)),
                            ("target_commitish"@, sview(a.target)),
                        ],
                    ),
                ),
            ),
            ReleaseCommand::MigrateGithub(_) => r is None,
        },
{
    match command {
        ReleaseCommand::List(a) => Some(
            request(
                HttpMethod::Get,
                &chars3("repos/", repository, "/releases"),
                page_query(a.limit as u64),
                None,
            ),
        ),
        ReleaseCommand::View(a) => Some(
            request(
                HttpMethod::Get,
                &chars4("repos/", repository, "/releases/tags/", a.tag.as_str()),
                no_query(),
                None,
            ),
        ),
        ReleaseCommand::Create(a) => {
            let mut e: Vec<(&str, Option<String>)> = Vec::new();
            e.push(("tag_name", Some(copy(&a.tag))));
            e.push(("name", copy_opt(&a.title)));
            e.push(("body", copy_opt(&a.notes)));
            e.push(("target_commitish", copy_opt(&a.target)));
            assert(entries_of(e@) =~= seq![
                ("tag_name"@, Some(a.tag@)),
                ("name"@, sview(a.title)),
                ("body"@, sview(a.notes)),
                ("target_commitish"@, sview(a.target)),
            ]);
            let body = form_body(e);
            Some(
                request(
                    HttpMethod::Post,
                    &chars3("repos/", repository, "/releases"),
                    no_query(),
                    Some(body),
                ),
            )
        },
        ReleaseCommand::MigrateGithub(_) => None,
    }
}

/// The options of `release migrate-github` for the resolved repository.
pub fn migration_options(
    args: &ReleaseMigrateGithubArgs,
    repository: &str,
    github_token: Option<String>,
) -> (r: crate::release_migration::ReleaseMigrationOptions)
    ensures
        r.gitcode_repo@ == repository@,
        r.github_repo@ == args.github_repo@,
        sview(r.tag) == sview(args.tag),
        r.all == args.all,
        r.skip_existing_assets == args.skip_existing_assets,
        r.update_release == args.update_release,
        r.dry_run == args.dry_run,
        r.github_token == github_token,
{
    crate::release_migration::ReleaseMigrationOptions {
        gitcode_repo: from_chars(&to_chars(repository)),
        github_repo: copy(&args.github_repo),
        tag: copy_opt(&args.tag),
        all: args.all,
        skip_existing_assets: args.skip_existing_assets,
        update_release: args.update_release,
        dry_run: args.dry_run,
        github_token,
    }
}

/// The token of `auth login --with-token`: what was read, trimmed; web
/// login is refused and a blank token is an error.
pub fn login_token(with_token: bool, input: &str) -> (r: Result<String, GdError>)
    ensures
        !with_token ==> r == Err::<String, GdError>(GdError::WebLoginUnsupported),
        with_token && trim(input@).len() == 0 ==> r == Err::<String, GdError>(GdError::EmptyToken),
        with_token && trim(input@).len() > 0 ==> (r matches Ok(t) && t@ == trim(input@)),
{
    if !with_token {
        return Err(GdError::WebLoginUnsupported);
    }
    let t = crate::text::trim_chars(&to_chars(input));
    if t.len() == 0 {
        return Err(GdError::EmptyToken);
    }
    Ok(from_chars(&t))
}

/// The host an auth command acts on: the one given, else the configured one.
pub fn auth_hostname(given: &Option<String>, configured: &str) -> (r: String)
    ensures
        r@ == match given {
            Some(h) => h@,
            None => configured@,
        },
{
    match given {
        Some(h) => copy(h),
        None => from_chars(&to_chars(configured)),
    }
}

/// What `auth login` prints.
pub fn login_value(hostname: &str) -> (r: Json)
    ensures
        r@ == JsonV::Object(
            seq![
                ("credential_store"@, JsonV::Str("system_keyring"@)),
                ("hostname"@, JsonV::Str(hostname@)),
                ("status"@, JsonV::Str("logged_in"@)),
            ],
        ),
{
    let mut e: Vec<(String, Json)> = Vec::new();
    e_push(&mut e, "credential_store", crate::json::json_str("system_keyring"));
    e_push(&mut e, "hostname", crate::json::json_str(hostname));
    e_push(&mut e, "status", crate::json::json_str("logged_in"));
    assert(entries_view(e@) =~= seq![
        ("credential_store"@, JsonV::Str("system_keyring"@)),
        ("hostname"@, JsonV::Str(hostname@)),
        ("status"@, JsonV::Str("logged_in"@)),
    ]);
    object(e)
}

/// What `auth logout` prints.
pub fn logout_value(hostname: &str) -> (r: Json)
    ensures
        r@ == JsonV::Object(
            seq![("hostname"@, JsonV::Str(hostname@)), ("status"@, JsonV::Str("logged_out"@))],
        ),
{
    let mut e: Vec<(String, Json)> = Vec::new();
    e_push(&mut e, "hostname", crate::json::json_str(hostname));
    e_push(&mut e, "status", crate::json::json_str("logged_out"));
    assert(entries_view(e@) =~= seq![
        ("hostname"@, JsonV::Str(hostname@)),
        ("status"@, JsonV::Str("logged_out"@)),
    ]);
    object(e)
}

/// What `auth status` prints: the host, whether a token is stored, where
/// tokens come from (`env` when `GITCODE_TOKEN` is set and not blank), and
/// the token itself only when asked.
pub fn status_value(hostname: &str, token: Option<String>, show_token: bool, env_token: Option<&str>) -> (r:
    Json)
    ensures
        r@ == JsonV::Object(
            seq![
                ("hostname"@, JsonV::Str(hostname@)),
                ("logged_in"@, JsonV::Bool(token is Some)),
                ("source"@, JsonV::Str(
                    match env_token {
                        Some(t) => if !is_blank(t@) {
                            "env"@
                        } else {
                            "system_keyring"@
                        },
                        None => "system_keyring"@,
                    },
                )),
                ("token"@, match token {
                    Some(t) => if show_token {
                        JsonV::Str(t@)
                    } else {
                        JsonV::Null
                    },
                    None => JsonV::Null,
                }),
            ],
        ),
{
    let ghost tok = token;
    let logged_in = token.is_some();
    let from_env = match env_token {
        Some(t) => !crate::env::blank(t),
        None => false,
    };
    let mut e: Vec<(String, Json)> = Vec::new();
    e_push(&mut e, "hostname", crate::json::json_str(hostname));
    e_push(&mut e, "logged_in", Json::Bool(logged_in));
    let source = if from_env {
        crate::json::json_str("env")
    } else {
        crate::json::json_str("system_keyring")
    };
    e_push(&mut e, "source", source);
    let shown = match token {
        Some(t) => if show_token {
            Json::Str(t)
        } else {
            Json::Null
        },
        None => Json::Null,
    };
    e_push(&mut e, "token", shown);
    assert(entries_view(e@) =~= seq![
        ("hostname"@, JsonV::Str(hostname@)),
        ("logged_in"@, JsonV::Bool(tok is Some)),
        ("source"@, JsonV::Str(
            match env_token {
                Some(t) => if !is_blank(t@) {
                    "env"@
                } else {
                    "system_keyring"@
                },
                None => "system_keyring"@,
            },
        )),
        ("token"@, match tok {
            Some(t) => if show_token {
                JsonV::Str(t@)
            } else {
                JsonV::Null
            },
            None => JsonV::Null,
        }),
    ]);
    object(e)
}

/// What `auth token` prints: the stored token, or the error that the host
/// has none.
pub fn token_output(hostname: &str, token: Option<String>) -> (r: Result<String, GdError>)
    ensures
        match token {
            Some(t) => r == Ok::<String, GdError>(t),
            None => r matches Err(GdError::NotLoggedIn { hostname: h }) && h@ == hostname@,
        },
{
    match token {
        Some(t) => Ok(t),
        None => Err(GdError::NotLoggedIn { hostname: from_chars(&to_chars(hostname)) }),
    }
}

/// The repository argument of the commands that act on a repository.
pub open spec fn repository_spec(c: Command) -> Option<Option<String>> {
    match c {
        Command::Repo(RepoCommand::View(a)) => Some(a.repository),
        Command::Issue(IssueCommand::List(a)) => Some(a.repository),
        Command::Issue(IssueCommand::View(a)) => Some(a.repository),
        Command::Issue(IssueCommand::Create(a)) => Some(a.repository),
        Command::Issue(IssueCommand::Comment(a)) => Some(a.repository),
        Command::Pr(PrCommand::List(a)) => Some(a.repository),
        Command::Pr(PrCommand::View(a)) => Some(a.repository),
        Command::Pr(PrCommand::Create(a)) => Some(a.repository),
        Command::Pr(PrCommand::Comments(a)) => Some(a.repository),
        Command::Pr(PrCommand::Comment(a)) => Some(a.repository),
        Command::Pr(PrCommand::Reply(a)) => Some(a.repository),
        Command::Label(LabelCommand::List(a)) => Some(a.repository),
        Command::Label(LabelCommand::Create(a)) => Some(a.repository),
        Command::Label(LabelCommand::Edit(a)) => Some(a.repository),
        Command::Label(LabelCommand::Delete(a)) => Some(a.repository),
        Command::Release(ReleaseCommand::List(a)) => Some(a.repository),
        Command::Release(ReleaseCommand::View(a)) => Some(a.repository),
        Command::Release(ReleaseCommand::Create(a)) => Some(a.repository),
        Command::Release(ReleaseCommand::MigrateGithub(a)) => Some(a.repository),
        _ => None,
    }
}

/// The repository argument of a command that acts on one: `Some` with the
/// repository given on the command line (or `None` when none was given),
/// or `None` for a command that needs no resolved repository.
pub fn repository_of(command: &Command) -> (r: Option<Option<String>>)
    ensures
        r == repository_spec(*command),
{
    match command {
        Command::Repo(RepoCommand::View(a)) => Some(a.repository.clone()),
        Command::Issue(IssueCommand::List(a)) => Some(a.repository.clone()),
        Command::Issue(IssueCommand::View(a)) => Some(a.repository.clone()),
        Command::Issue(IssueCommand::Create(a)) => Some(a.repository.clone()),
        Command::Issue(IssueCommand::Comment(a)) => Some(a.repository.clone()),
        Command::Pr(PrCommand::List(a)) => Some(a.repository.clone()),
        Command::Pr(PrCommand::View(a)) => Some(a.repository.clone()),
        Command::Pr(PrCommand::Create(a)) => Some(a.repository.clone()),
        Command::Pr(PrCommand::Comments(a)) => Some(a.repository.clone()),
        Command::Pr(PrCommand::Comment(a)) => Some(a.repository.clone()),
        Command::Pr(PrCommand::Reply(a)) => Some(a.repository.clone()),
        Command::Label(LabelCommand::List(a)) => Some(a.repository.clone()),
        Command::Label(LabelCommand::Create(a)) => Some(a.repository.clone()),
        Command::Label(LabelCommand::Edit(a)) => Some(a.repository.clone()),
        Command::Label(LabelCommand::Delete(a)) => Some(a.repository.clone()),
        Command::Release(ReleaseCommand::List(a)) => Some(a.repository.clone()),
        Command::Release(ReleaseCommand::View(a)) => Some(a.repository.clone()),
        Command::Release(ReleaseCommand::Create(a)) => Some(a.repository.clone()),
        Command::Release(ReleaseCommand::MigrateGithub(a)) => Some(a.repository.clone()),
        _ => None,
    }
}

} // verus!

verus! {

/// The total length of the texts.
pub open spec fn total_len(values: Seq<Seq<char>>) -> nat
    decreases values.len(),
{
    if values.len() == 0 {
        0
    } else {
        total_len(values.drop_last()) + values.last().len()
    }
}

proof fn lemma_comma_join_front(values: Seq<Seq<char>>)
    requires
        values.len() >= 2,
    ensures
        comma_join(values) == values[0] + ","@ + comma_join(values.drop_first()),
    decreases values.len(),
{
    if values.len() == 2 {
        assert(values.drop_last() =~= seq![values[0]]);
        assert(values.drop_first() =~= seq![values[1]]);
        assert(comma_join(values.drop_last()) == values[0]);
        assert(comma_join(values.drop_first()) == values[1]);
        assert(values.last() == values[1]);
    } else {
        lemma_comma_join_front(values.drop_last());
        assert(values.drop_last().drop_first() =~= values.drop_first().drop_last());
        assert(values.drop_first().last() == values.last());
        assert(values.drop_last()[0] == values[0]);
        assert(comma_join(values.drop_first()) == comma_join(values.drop_first().drop_last())
            + ","@ + values.drop_first().last());
        assert(values[0] + ","@ + comma_join(values.drop_first().drop_last()) + ","@
            + values.last() =~= values[0] + ","@ + (comma_join(values.drop_first().drop_last())
            + ","@ + values.last()));
    }
}

proof fn lemma_split_first_piece(a: Seq<char>, b: Seq<char>)
    requires
        !crate::text::has_char(a, ','),
    ensures
        crate::text::split_all(a + ","@ + b, ',') == seq![a] + crate::text::split_all(b, ','),
{
    reveal_strlit(",");
    let s = a + ","@ + b;
    assert forall|j: int| 0 <= j < a.len() implies s[j] != ',' by {
        assert(s[j] == a[j]);
    }
    assert(s[a.len() as int] == ',');
    crate::text::lemma_first_index_is(s, ',', a.len() as int);
    assert(s.subrange(0, a.len() as int) =~= a);
    assert(s.subrange(a.len() as int + 1, s.len() as int) =~= b);
}

proof fn lemma_split_no_sep(a: Seq<char>)
    requires
        !crate::text::has_char(a, ','),
    ensures
        crate::text::split_all(a, ',') == seq![a],
{
    assert forall|j: int| 0 <= j < a.len() implies a[j] != ',' by {}
    crate::text::lemma_first_index_is(a, ',', a.len() as int);
}

/// Joining values with `,` keeps every value, in order: the joined text is
/// as long as the values together plus one `,` between each two, and when
/// no value holds a `,`, splitting it at `,` gives the values back. Nothing
/// is joined for no values.
pub proof fn law_join_keeps_every_value(values: Seq<Seq<char>>)
    ensures
        join_spec(values) is None <==> values.len() == 0,
        join_spec(values) matches Some(t) ==> t.len() + 1 == total_len(values) + values.len(),
        join_spec(values) matches Some(t) ==> ((forall|i: int|
            0 <= i < values.len() ==> !crate::text::has_char(#[trigger] values[i], ','))
            ==> crate::text::split_all(t, ',') == values),
    decreases values.len(),
{
    reveal_strlit(",");
    if values.len() > 0 {
        lemma_join_len(values);
        if forall|i: int| 0 <= i < values.len() ==> !crate::text::has_char(#[trigger] values[i], ',') {
            lemma_join_splits(values);
        }
    }
}

proof fn lemma_join_len(values: Seq<Seq<char>>)
    requires
        values.len() > 0,
    ensures
        comma_join(values).len() + 1 == total_len(values) + values.len(),
    decreases values.len(),
{
    reveal_strlit(",");
    if values.len() == 1 {
        assert(values.drop_last().len() == 0);
    } else {
        lemma_join_len(values.drop_last());
    }
}

proof fn lemma_join_splits(values: Seq<Seq<char>>)
    requires
        values.len() > 0,
        forall|i: int| 0 <= i < values.len() ==> !crate::text::has_char(#[trigger] values[i], ','),
    ensures
        crate::text::split_all(comma_join(values), ',') == values,
    decreases values.len(),
{
    if values.len() == 1 {
        lemma_split_no_sep(values[0]);
        assert(seq![values[0]] =~= values);
    } else {
        let rest = values.drop_first();
        assert forall|i: int| 0 <= i < rest.len() implies !crate::text::has_char(#[trigger] rest[i], ',') by {
            assert(rest[i] == values[i + 1]);
        }
        lemma_join_splits(rest);
        lemma_comma_join_front(values);
        lemma_split_first_piece(values[0], comma_join(rest));
        assert(seq![values[0]] + rest =~= values);
    }
}

} // verus!
