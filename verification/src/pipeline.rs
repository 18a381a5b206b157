//! GitCode pipelines (Actions): workflow paths, the Actions api base, and the
//! requests that the pipeline commands send.
use vstd::prelude::*;
use crate::config::{BaseFault, normal_form_fits, with_trailing_slash};
use crate::error::GdError;
use crate::json::{
    Json, JsonV, entries_view, get_key, json_reserialized, jv, jvs, lemma_object_view,
    lemma_array_view, upsert, upsert_entry,
};
use crate::client::{HttpMethod, Request, body_view, nonempty_pairs, sview_opt};
use crate::text::{
    append_str, concat, ends_with, from_chars, has_prefix, has_suffix, is_blank, starts_with,
    to_chars, trim, trim_chars, trim_end_char, trim_end_char_chars, trim_start_char,
    trim_start_char_chars,
};
use crate::weburl::{parse_url, url_host, url_parses, url_scheme};
use vstd::string::StringSliceAdditionalSpecFns;

verus! {

/// Workflow files live under `.gitcode/workflows/`: after any leading slashes
/// the path starts with that directory and does not end in `/`.
pub open spec fn workflow_path_ok(path: Seq<char>) -> bool {
    let p = trim_start_char(path, '/');
    has_prefix(p, ".gitcode/workflows/"@) && !has_suffix(p, "/"@)
}

/// Accepts a workflow file path under `.gitcode/workflows/`.
pub fn validate_workflow_path(path: &str) -> (r: Result<(), GdError>)
    ensures
        workflow_path_ok(path@) ==> r == Ok::<(), GdError>(()),
        !workflow_path_ok(path@) ==> r == Err::<(), GdError>(GdError::WorkflowPath),
{
    let v = to_chars(path);
    let p = trim_start_char_chars(&v, '/');
    if starts_with(&p, &to_chars(".gitcode/workflows/")) && !ends_with(&p, &to_chars("/")) {
        Ok(())
    } else {
        Err(GdError::WorkflowPath)
    }
}

/// Workflow content comes from `--content` or from `--file`, never both.
pub fn validate_file_content_source(file_content: Option<&str>, file: Option<&str>) -> (r: Result<
    (),
    GdError,
>)
    ensures
        (file_content is Some && file is Some) <==> r == Err::<(), GdError>(GdError::ContentAndFile),
        r is Ok <==> !(file_content is Some && file is Some),
{
    if file_content.is_some() && file.is_some() {
        return Err(GdError::ContentAndFile);
    }
    Ok(())
}

/// `api/v2/projects/{project_id}/actions/{suffix}`, leading slashes of the suffix dropped.
pub open spec fn action_path_spec(project_id: Seq<char>, suffix: Seq<char>) -> Seq<char> {
    "api/v2/projects/"@ + project_id + "/actions/"@ + trim_start_char(suffix, '/')
}

/// The Actions api path of `suffix` for a project.
pub fn action_path(project_id: &str, suffix: &str) -> (r: String)
    ensures
        r@ == action_path_spec(project_id@, suffix@),
{
    let s = trim_start_char_chars(&to_chars(suffix), '/');
    let mut out: Vec<char> = Vec::new();
    append_str(&mut out, "api/v2/projects/");
    append_str(&mut out, project_id);
    append_str(&mut out, "/actions/");
    let r = concat(&out, &s);
    from_chars(&r)
}

/// The Actions api base for `value`: an http or https URL with a host, its
/// path given a trailing slash.
pub open spec fn actions_base_spec(value: Seq<char>) -> Result<Seq<char>, BaseFault> {
    if !url_parses(value) {
        Err(BaseFault::Unparsable)
    } else if url_scheme(value) != "https"@ && url_scheme(value) != "http"@ {
        Err(BaseFault::Scheme)
    } else if url_host(value) is None {
        Err(BaseFault::NoHost)
    } else if !normal_form_fits(value) {
        Err(BaseFault::TooLong)
    } else {
        Ok(with_trailing_slash(value))
    }
}

/// `r` is what `actions_base_spec` gives for `value`, with its errors.
pub open spec fn actions_base_result(value: Seq<char>, r: Result<String, GdError>) -> bool {
    match actions_base_spec(value) {
        Ok(s) => r matches Ok(t) && t@ == s,
        Err(BaseFault::Unparsable) => r matches Err(GdError::InvalidActionsBase { value: v })
            && v@ == value,
        Err(BaseFault::Scheme) => r == Err::<String, GdError>(GdError::ActionsBaseScheme),
        Err(BaseFault::NoHost) => r == Err::<String, GdError>(GdError::ActionsBaseHost),
        Err(BaseFault::TooLong) => r == Err::<String, GdError>(GdError::UrlTooLong),
    }
}

/// Checks and normalizes an Actions api base URL.
pub fn parse_actions_api_base(value: &str) -> (r: Result<String, GdError>)
    ensures
        actions_base_result(value@, r),
{
    let u = match parse_url(value) {
        Some(u) => u,
        None => return Err(GdError::InvalidActionsBase { value: from_chars(&to_chars(value)) }),
    };
    let scheme = to_chars(u.scheme.as_str());
    if !crate::text::chars_eq_str(&scheme, "https") && !crate::text::chars_eq_str(&scheme, "http") {
        return Err(GdError::ActionsBaseScheme);
    }
    if u.host.is_none() {
        return Err(GdError::ActionsBaseHost);
    }
    match crate::config::normalized_text(value, u) {
        Some(t) => Ok(t),
        None => Err(GdError::UrlTooLong),
    }
}

/// The URL text that a hostname stands for: the hostname trimmed of
/// whitespace and trailing slashes, given `https://` unless it already
/// names http or https.
pub open spec fn hostname_url(hostname: Seq<char>) -> Seq<char> {
    let h = trim_end_char(trim(hostname), '/');
    if has_prefix(h, "http://"@) || has_prefix(h, "https://"@) {
        h
    } else {
        "https://"@ + h
    }
}

/// The Actions api base of a GitCode host.
pub fn actions_api_base_from_hostname(hostname: &str) -> (r: Result<String, GdError>)
    ensures
        trim_end_char(trim(hostname@), '/').len() == 0 ==> r == Err::<String, GdError>(
            GdError::EmptyHostname,
        ),
        trim_end_char(trim(hostname@), '/').len() != 0 ==> actions_base_result(
            hostname_url(hostname@),
            r,
        ),
{
    let h = trim_end_char_chars(&trim_chars(&to_chars(hostname)), '/');
    if h.len() == 0 {
        return Err(GdError::EmptyHostname);
    }
    let value = if starts_with(&h, &to_chars("http://")) || starts_with(&h, &to_chars("https://")) {
        from_chars(&h)
    } else {
        from_chars(&concat(&to_chars("https://"), &h))
    };
    parse_actions_api_base(value.as_str())
}

/// The RFC 4648 standard alphabet: `A-Z a-z 0-9 + /`.
pub open spec fn b64_char(n: int) -> char {
    if n < 26 {
        (65 + n) as char
    } else if n < 52 {
        (71 + n) as char
    } else if n < 62 {
        (n - 4) as char
    } else if n == 62 {
        '+'
    } else {
        '/'
    }
}

/// Standard base64 with `=` padding (RFC 4648, section 4).
pub open spec fn base64_spec(b: Seq<u8>) -> Seq<char>
    decreases b.len(),
{
    if b.len() == 0 {
        seq![]
    } else {
        let b0 = b[0] as int;
        let b1 = if b.len() > 1 {
            b[1] as int
        } else {
            0
        };
        let b2 = if b.len() > 2 {
            b[2] as int
        } else {
            0
        };
        let c0 = b64_char(b0 / 4);
        let c1 = b64_char((b0 % 4) * 16 + b1 / 16);
        let c2 = b64_char((b1 % 16) * 4 + b2 / 64);
        let c3 = b64_char(b2 % 64);
        if b.len() == 1 {
            seq![c0, c1, '=', '=']
        } else if b.len() == 2 {
            seq![c0, c1, c2, '=']
        } else {
            seq![c0, c1, c2, c3] + base64_spec(b.skip(3))
        }
    }
}

/// `base64::engine::general_purpose::STANDARD.encode(bytes)`.
/// Claimed: the text is the padded standard base64 encoding of the bytes,
/// as RFC 4648 defines it and the crate documents. The crate panics when the
/// encoded length overflows `usize`; `requires` keeps the input within half
/// of `usize::MAX`, which every byte string held in memory meets.
#[verifier::external_body]
fn base64_encode(bytes: &[u8]) -> (r: String)
    requires
        bytes@.len() <= usize::MAX / 2,
    ensures
        r@ == base64_spec(bytes@),
{
    base64::Engine::encode(&base64::engine::general_purpose::STANDARD, bytes)
}

/// The entry `key: value` when `value` is set and not blank.
pub open spec fn opt_entry(key: Seq<char>, value: Option<String>) -> Seq<(Seq<char>, JsonV)> {
    match value {
        Some(v) => if !is_blank(v@) {
            seq![(key, JsonV::Str(v@))]
        } else {
            seq![]
        },
        None => seq![],
    }
}

/// Appends `key: value` to `body` when `value` is set and not blank.
fn insert_opt(body: &mut Vec<(String, Json)>, key: &str, value: Option<String>)
    ensures
        entries_view(final(body)@) == entries_view(old(body)@) + opt_entry(key@, value),
{
    let ghost before = entries_view(body@);
    let ghost v0 = value;
    if let Some(v) = value {
        if !crate::env::blank(v.as_str()) {
            body.push((from_chars(&to_chars(key)), Json::Str(v)));
            assert(entries_view(body@) =~= before + opt_entry(key@, v0));
            return;
        }
    }
    assert(entries_view(body@) =~= before + opt_entry(key@, v0));
}

/// Appends `key: value` to `body`.
fn insert(body: &mut Vec<(String, Json)>, key: &str, value: Json)
    ensures
        entries_view(final(body)@) == entries_view(old(body)@) + seq![(key@, value@)],
{
    let ghost before = entries_view(body@);
    let ghost vv = value@;
    body.push((from_chars(&to_chars(key)), value));
    assert(entries_view(body@) =~= before + seq![(key@, vv)]);
}

/// A workflow file to create or update.
#[derive(Debug, Clone, PartialEq, Eq)]
pub struct WorkflowFileRequest {
    pub content: String,
    pub message: String,
    pub branch: Option<String>,
    pub sha: Option<String>,
}

/// The body that creates or updates a workflow file: the content in base64,
/// the commit message, and the branch and sha when given and not blank.
pub fn workflow_file_body(request: WorkflowFileRequest) -> (r: Json)
    requires
        vstd::utf8::encode_utf8(request.content@).len() <= usize::MAX / 2,
    ensures
        r@ == JsonV::Object(
            opt_entry("branch"@, request.branch) + seq![
                ("content"@, JsonV::Str(base64_spec(vstd::utf8::encode_utf8(request.content@)))),
                ("message"@, JsonV::Str(request.message@)),
            ] + opt_entry("sha"@, request.sha),
        ),
{
    let mut body: Vec<(String, Json)> = Vec::new();
    let ghost e0 = entries_view(body@);
    insert_opt(&mut body, "branch", request.branch);
    let bytes = request.content.as_str().as_bytes();
    let encoded = base64_encode(bytes);
    insert(&mut body, "content", Json::Str(encoded));
    insert(&mut body, "message", Json::Str(request.message));
    insert_opt(&mut body, "sha", request.sha);
    proof {
        lemma_object_view(body);
        assert(entries_view(body@) =~= opt_entry("branch"@, request.branch) + seq![
            ("content"@, JsonV::Str(base64_spec(vstd::utf8::encode_utf8(request.content@)))),
            ("message"@, JsonV::Str(request.message@)),
        ] + opt_entry("sha"@, request.sha));
    }
    Json::Object(body)
}

/// A page of workflow files.
#[derive(Debug, Clone, Copy, PartialEq, Eq)]
pub struct WorkflowListRequest {
    pub page: u64,
    pub per_page: u64,
}

/// Filters and paging for workflow runs.
#[derive(Debug, Clone, PartialEq, Eq)]
pub struct WorkflowRunListRequest {
    pub workflow_id: Option<String>,
    pub workflow_name: Option<String>,
    pub event: Option<String>,
    pub status: Option<String>,
    pub branch: Option<String>,
    pub executor_id: Option<String>,
    pub mr_id: Option<String>,
    pub page: u64,
    pub per_page: u64,
}

/// A manual run of a workflow.
#[derive(Debug, PartialEq, Eq)]
pub struct WorkflowDispatchRequest {
    pub file_path: String,
    pub repo_https_url: String,
    pub branch: Option<String>,
    pub branch_commit_id: Option<String>,
    pub repo_id: Option<String>,
    pub inputs: Vec<(String, Json)>,
}

/// A JSON number as its decimal text.
pub open spec fn num(n: u64) -> JsonV {
    JsonV::Number(crate::num::decimal(n as nat))
}

/// `{"page": .., "per_page": ..}`.
pub fn workflow_list_body(request: WorkflowListRequest) -> (r: Json)
    ensures
        r@ == JsonV::Object(seq![("page"@, num(request.page)), ("per_page"@, num(request.per_page))]),
{
    let mut body: Vec<(String, Json)> = Vec::new();
    insert(&mut body, "page", crate::json::json_u64(request.page));
    insert(&mut body, "per_page", crate::json::json_u64(request.per_page));
    proof {
        lemma_object_view(body);
        assert(entries_view(body@) =~= seq![
            ("page"@, num(request.page)),
            ("per_page"@, num(request.per_page)),
        ]);
    }
    Json::Object(body)
}

/// The body listing workflow runs: the filters that are set and not blank,
/// and the page; the workflow id goes into the path instead.
pub fn workflow_run_list_body(request: WorkflowRunListRequest) -> (r: Json)
    ensures
        r@ == JsonV::Object(
            opt_entry("branch"@, request.branch) + opt_entry("event"@, request.event) + opt_entry(
                "executor_id"@,
                request.executor_id,
            ) + opt_entry("mr_id"@, request.mr_id) + seq![
                ("page"@, num(request.page)),
                ("per_page"@, num(request.per_page)),
            ] + opt_entry("status"@, request.status) + opt_entry(
                "workflow_name"@,
                request.workflow_name,
            ),
        ),
{
    let ghost rq = request;
    let mut body: Vec<(String, Json)> = Vec::new();
    insert_opt(&mut body, "branch", request.branch);
    insert_opt(&mut body, "event", request.event);
    insert_opt(&mut body, "executor_id", request.executor_id);
    insert_opt(&mut body, "mr_id", request.mr_id);
    insert(&mut body, "page", crate::json::json_u64(request.page));
    insert(&mut body, "per_page", crate::json::json_u64(request.per_page));
    insert_opt(&mut body, "status", request.status);
    insert_opt(&mut body, "workflow_name", request.workflow_name);
    proof {
        lemma_object_view(body);
        assert(entries_view(body@) =~= opt_entry("branch"@, rq.branch) + opt_entry(
            "event"@,
            rq.event,
        ) + opt_entry("executor_id"@, rq.executor_id) + opt_entry("mr_id"@, rq.mr_id) + seq![
            ("page"@, num(rq.page)),
            ("per_page"@, num(rq.per_page)),
        ] + opt_entry("status"@, rq.status) + opt_entry("workflow_name"@, rq.workflow_name));
    }
    Json::Object(body)
}

/// The body that runs a workflow: file path, repository URL, the optional
/// branch, commit and repository id when set and not blank, and the inputs.
pub fn dispatch_body(request: WorkflowDispatchRequest) -> (r: Json)
    ensures
        r@ == JsonV::Object(
            opt_entry("branch"@, request.branch) + opt_entry(
                "branch_commit_id"@,
                request.branch_commit_id,
            ) + seq![
                ("file_path"@, JsonV::Str(request.file_path@)),
                ("inputs"@, JsonV::Object(entries_view(request.inputs@))),
                ("repo_https_url"@, JsonV::Str(request.repo_https_url@)),
            ] + opt_entry("repo_id"@, request.repo_id),
        ),
{
    let ghost rq = request;
    let mut body: Vec<(String, Json)> = Vec::new();
    insert_opt(&mut body, "branch", request.branch);
    insert_opt(&mut body, "branch_commit_id", request.branch_commit_id);
    insert(&mut body, "file_path", Json::Str(request.file_path));
    proof {
        lemma_object_view(rq.inputs);
    }
    insert(&mut body, "inputs", Json::Object(request.inputs));
    insert(&mut body, "repo_https_url", Json::Str(request.repo_https_url));
    insert_opt(&mut body, "repo_id", request.repo_id);
    proof {
        lemma_object_view(body);
        assert(entries_view(body@) =~= opt_entry("branch"@, rq.branch) + opt_entry(
            "branch_commit_id"@,
            rq.branch_commit_id,
        ) + seq![
            ("file_path"@, JsonV::Str(rq.file_path@)),
            ("inputs"@, JsonV::Object(entries_view(rq.inputs@))),
            ("repo_https_url"@, JsonV::Str(rq.repo_https_url@)),
        ] + opt_entry("repo_id"@, rq.repo_id));
    }
    Json::Object(body)
}

/// The job run ids that are not blank, in order.
pub open spec fn nonblank(ids: Seq<String>) -> Seq<Seq<char>>
    decreases ids.len(),
{
    if ids.len() == 0 {
        seq![]
    } else if is_blank(ids.last()@) {
        nonblank(ids.drop_last())
    } else {
        nonblank(ids.drop_last()).push(ids.last()@)
    }
}

/// Strings as JSON string values.
pub open spec fn str_values(s: Seq<Seq<char>>) -> Seq<JsonV> {
    Seq::new(s.len(), |i: int| JsonV::Str(s[i]))
}

/// The body that retries jobs: the repository URL when set and not blank,
/// and the job run ids that are not blank, when there are any.
pub fn retry_body(repo_https_url: Option<String>, job_run_ids: Vec<String>) -> (r: Json)
    ensures
        r@ == JsonV::Object(
            (if nonblank(job_run_ids@).len() > 0 {
                seq![("job_run_ids"@, JsonV::Array(str_values(nonblank(job_run_ids@))))]
            } else {
                seq![]
            }) + opt_entry("repo_https_url"@, repo_https_url),
        ),
{
    let ghost url = repo_https_url;
    let mut ids: Vec<Json> = Vec::new();
    let mut i: usize = 0;
    while i < job_run_ids.len()
        invariant
            i <= job_run_ids@.len(),
            jvs(ids@) == str_values(nonblank(job_run_ids@.subrange(0, i as int))),
        decreases job_run_ids@.len() - i,
    {
        proof {
            let pre = job_run_ids@.subrange(0, i + 1);
            assert(pre.drop_last() =~= job_run_ids@.subrange(0, i as int));
            assert(pre.last() == job_run_ids@[i as int]);
        }
        if !crate::env::blank(job_run_ids[i].as_str()) {
            let ghost prev = ids@;
            let item = Json::Str(from_chars(&to_chars(job_run_ids[i].as_str())));
            assert(jv(item) == JsonV::Str(job_run_ids@[i as int]@));
            ids.push(item);
            proof {
                let pre = job_run_ids@.subrange(0, i + 1);
                let nb = nonblank(job_run_ids@.subrange(0, i as int));
                assert(nonblank(pre) == nb.push(job_run_ids@[i as int]@));
                assert(ids@ == prev.push(item));
                assert(jvs(ids@) =~= jvs(prev).push(jv(item)));
                assert(str_values(nb.push(job_run_ids@[i as int]@)) =~= str_values(nb).push(
                    JsonV::Str(job_run_ids@[i as int]@),
                ));
            }
        }
        i = i + 1;
    }
    assert(job_run_ids@.subrange(0, job_run_ids@.len() as int) =~= job_run_ids@);
    let mut body: Vec<(String, Json)> = Vec::new();
    let ghost ids_view = jvs(ids@);
    if ids.len() > 0 {
        proof {
            lemma_array_view(ids);
        }
        insert(&mut body, "job_run_ids", Json::Array(ids));
    }
    insert_opt(&mut body, "repo_https_url", repo_https_url);
    proof {
        lemma_object_view(body);
        assert(entries_view(body@) =~= (if nonblank(job_run_ids@).len() > 0 {
            seq![("job_run_ids"@, JsonV::Array(str_values(nonblank(job_run_ids@))))]
        } else {
            seq![]
        }) + opt_entry("repo_https_url"@, url));
    }
    Json::Object(body)
}

/// `{"limit": .., "offset": ..}`, the body asking for part of a job log.
pub fn job_log_body(offset: u64, limit: u64) -> (r: Json)
    ensures
        r@ == JsonV::Object(seq![("limit"@, num(limit)), ("offset"@, num(offset))]),
{
    let mut body: Vec<(String, Json)> = Vec::new();
    insert(&mut body, "limit", crate::json::json_u64(limit));
    insert(&mut body, "offset", crate::json::json_u64(offset));
    proof {
        lemma_object_view(body);
        assert(entries_view(body@) =~= seq![("limit"@, num(limit)), ("offset"@, num(offset))]);
    }
    Json::Object(body)
}


/// A workflow input value: the JSON it holds when it reads as JSON, else
/// the text as a string.
pub open spec fn input_value(v: Seq<char>) -> JsonV {
    match json_reserialized(v) {
        Some(t) => JsonV::Raw(t),
        None => JsonV::Str(v),
    }
}

/// The JSON value of a workflow input value.
pub fn parse_input_value(value: &str) -> (r: Json)
    ensures
        r@ == input_value(value@),
{
    match crate::json::reserialize_json(value) {
        Some(t) => Json::Raw(t),
        None => Json::Str(from_chars(&to_chars(value))),
    }
}

/// Why a workflow input was refused.
pub enum InputFault {
    Form(Seq<char>),
    KeyEmpty,
}

/// The `key=value` workflow inputs as an object: keys and values trimmed,
/// a later key replacing an earlier one; the first input without `=` or
/// with a blank key is the fault.
pub open spec fn inputs_spec(values: Seq<Seq<char>>) -> Result<Seq<(Seq<char>, JsonV)>, InputFault>
    decreases values.len(),
{
    if values.len() == 0 {
        Ok(seq![])
    } else {
        match inputs_spec(values.drop_last()) {
            Err(f) => Err(f),
            Ok(e) => match crate::text::split_once(values.last(), '=') {
                None => Err(InputFault::Form(values.last())),
                Some((k, v)) => if trim(k).len() == 0 {
                    Err(InputFault::KeyEmpty)
                } else {
                    Ok(upsert(e, trim(k), input_value(trim(v))))
                },
            },
        }
    }
}

proof fn lemma_inputs_fail(values: Seq<Seq<char>>, k: int, f: InputFault)
    requires
        0 < k <= values.len(),
        inputs_spec(values.take(k)) == Err::<Seq<(Seq<char>, JsonV)>, InputFault>(f),
    ensures
        inputs_spec(values) == Err::<Seq<(Seq<char>, JsonV)>, InputFault>(f),
    decreases values.len() - k,
{
    if k < values.len() {
        assert(values.take(k + 1).drop_last() =~= values.take(k));
        lemma_inputs_fail(values, k + 1, f);
    } else {
        assert(values.take(k) =~= values);
    }
}

/// The inputs of a manual workflow run, from `key=value` texts.
pub fn parse_key_value_inputs(values: &Vec<String>) -> (r: Result<Vec<(String, Json)>, GdError>)
    ensures
        match (r, inputs_spec(values.deep_view())) {
            (Ok(e), Ok(f)) => entries_view(e@) == f,
            (Err(e), Err(InputFault::Form(v))) => e matches GdError::WorkflowInputForm { value }
                && value@ == v,
            (Err(e), Err(InputFault::KeyEmpty)) => e == GdError::WorkflowInputKeyEmpty,
            _ => false,
        },
{
    let ghost all = values.deep_view();
    let mut inputs: Vec<(String, Json)> = Vec::new();
    let mut i: usize = 0;
    assert(all.take(0) =~= Seq::<Seq<char>>::empty());
    assert(entries_view(inputs@) =~= Seq::<(Seq<char>, JsonV)>::empty());
    while i < values.len()
        invariant
            i <= values@.len(),
            all == values.deep_view(),
            inputs_spec(all.take(i as int)) == Ok::<Seq<(Seq<char>, JsonV)>, InputFault>(
                entries_view(inputs@),
            ),
        decreases values@.len() - i,
    {
        assert(all.take(i + 1).drop_last() =~= all.take(i as int));
        assert(all.take(i + 1).last() == all[i as int]);
        let v = to_chars(values[i].as_str());
        match crate::text::split_once_chars(&v, '=') {
            None => {
                proof {
                    lemma_inputs_fail(all, i + 1, InputFault::Form(all[i as int]));
                }
                return Err(GdError::WorkflowInputForm { value: from_chars(&v) });
            },
            Some((k, raw)) => {
                let key = trim_chars(&k);
                if key.len() == 0 {
                    proof {
                        lemma_inputs_fail(all, i + 1, InputFault::KeyEmpty);
                    }
                    return Err(GdError::WorkflowInputKeyEmpty);
                }
                let value = from_chars(&trim_chars(&raw));
                upsert_entry(&mut inputs, from_chars(&key), parse_input_value(value.as_str()));
            },
        }
        i = i + 1;
    }
    assert(all.take(all.len() as int) =~= all);
    Ok(inputs)
}

/// The member found by following `path` from `v`.
pub open spec fn at_path(v: JsonV, path: Seq<Seq<char>>) -> Option<JsonV>
    decreases path.len(),
{
    if path.len() == 0 {
        Some(v)
    } else {
        match get_key(v, path[0]) {
            Some(w) => at_path(w, path.drop_first()),
            None => None,
        }
    }
}

/// The string found by following `path` from `v`.
pub open spec fn string_at(v: JsonV, path: Seq<Seq<char>>) -> Option<Seq<char>> {
    match at_path(v, path) {
        Some(JsonV::Str(s)) => Some(s),
        _ => None,
    }
}

/// Where a job log's text may stand in a response, in the order tried.
pub open spec fn log_paths() -> Seq<Seq<Seq<char>>> {
    seq![
        seq!["log"@],
        seq!["logs"@],
        seq!["content"@],
        seq!["data"@],
        seq!["data"@, "log"@],
        seq!["data"@, "logs"@],
        seq!["data"@, "content"@],
        seq!["data"@, "data"@],
        seq!["data"@, "data"@, "log"@],
        seq!["data"@, "data"@, "logs"@],
        seq!["data"@, "data"@, "content"@],
    ]
}

/// The first string found along `paths`.
pub open spec fn first_string_at(v: JsonV, paths: Seq<Seq<Seq<char>>>) -> Option<Seq<char>>
    decreases paths.len(),
{
    if paths.len() == 0 {
        None
    } else {
        match string_at(v, paths[0]) {
            Some(s) => Some(s),
            None => first_string_at(v, paths.drop_first()),
        }
    }
}

/// The text of a job log response: the response itself when it is a
/// string, else the first string along the log paths.
pub open spec fn log_text(v: JsonV) -> Option<Seq<char>> {
    match v {
        JsonV::Str(s) => Some(s),
        _ => first_string_at(v, log_paths()),
    }
}

/// The string found by following the member names `path` from `value`.
pub fn string_at_path(value: &Json, path: &Vec<&str>) -> (r: Option<String>)
    ensures
        sview_opt(r) == string_at(value@, path@.map_values(|k: &str| k@)),
{
    let ghost keys = path@.map_values(|k: &str| k@);
    let mut current = value;
    let mut i: usize = 0;
    assert(keys.skip(0) =~= keys);
    while i < path.len()
        invariant
            i <= path@.len(),
            keys == path@.map_values(|k: &str| k@),
            at_path(value@, keys) == at_path(current@, keys.skip(i as int)),
        decreases path@.len() - i,
    {
        assert(keys.skip(i as int)[0] == path@[i as int]@);
        assert(keys.skip(i as int).drop_first() =~= keys.skip(i + 1));
        match crate::json::get(current, path[i]) {
            Some(next) => {
                current = next;
            },
            None => {
                return None;
            },
        }
        i = i + 1;
    }
    assert(keys.skip(path@.len() as int) =~= Seq::<Seq<char>>::empty());
    match current {
        Json::Str(s) => Some(from_chars(&to_chars(s.as_str()))),
        _ => None,
    }
}

/// The string at the member path `a`, `b`, `c` (the first `n` of them).
fn log_at(value: &Json, n: usize, a: &str, b: &str, c: &str) -> (r: Option<String>)
    requires
        1 <= n <= 3,
    ensures
        sview_opt(r) == string_at(
            value@,
            if n == 1 {
                seq![a@]
            } else if n == 2 {
                seq![a@, b@]
            } else {
                seq![a@, b@, c@]
            },
        ),
{
    let mut path: Vec<&str> = Vec::new();
    path.push(a);
    if n >= 2 {
        path.push(b);
    }
    if n == 3 {
        path.push(c);
    }
    proof {
        if n == 1 {
            assert(path@.map_values(|k: &str| k@) =~= seq![a@]);
        } else if n == 2 {
            assert(path@.map_values(|k: &str| k@) =~= seq![a@, b@]);
        } else {
            assert(path@.map_values(|k: &str| k@) =~= seq![a@, b@, c@]);
        }
    }
    string_at_path(value, &path)
}

/// The text of a job log response.
pub fn extract_log_text(value: &Json) -> (r: Option<String>)
    ensures
        sview_opt(r) == log_text(value@),
{
    if let Json::Str(s) = value {
        return Some(from_chars(&to_chars(s.as_str())));
    }
    let ghost ps = log_paths();
    proof {
        reveal_with_fuel(first_string_at, 12);
    }
    if let Some(t) = log_at(value, 1, "log", "", "") {
        return Some(t);
    }
    if let Some(t) = log_at(value, 1, "logs", "", "") {
        return Some(t);
    }
    if let Some(t) = log_at(value, 1, "content", "", "") {
        return Some(t);
    }
    if let Some(t) = log_at(value, 1, "data", "", "") {
        return Some(t);
    }
    if let Some(t) = log_at(value, 2, "data", "log", "") {
        return Some(t);
    }
    if let Some(t) = log_at(value, 2, "data", "logs", "") {
        return Some(t);
    }
    if let Some(t) = log_at(value, 2, "data", "content", "") {
        return Some(t);
    }
    if let Some(t) = log_at(value, 2, "data", "data", "") {
        return Some(t);
    }
    if let Some(t) = log_at(value, 3, "data", "data", "log") {
        return Some(t);
    }
    if let Some(t) = log_at(value, 3, "data", "data", "logs") {
        return Some(t);
    }
    log_at(value, 3, "data", "data", "content")
}


/// `a + b + c` over three strings.
fn cat3(a: &str, b: &str, c: &str) -> (r: String)
    ensures
        r@ == a@ + b@ + c@,
{
    let mut v = to_chars(a);
    append_str(&mut v, b);
    append_str(&mut v, c);
    from_chars(&v)
}

/// `request` is a request with this method and Actions path, no query, and
/// this body.
pub open spec fn action_request(
    r: Request,
    method: HttpMethod,
    project_id: Seq<char>,
    suffix: Seq<char>,
    body: Option<JsonV>,
) -> bool {
    &&& r.method == method
    &&& r.endpoint@ == action_path_spec(project_id, suffix)
    &&& r.query.deep_view() == Seq::<(Seq<char>, Seq<char>)>::empty()
    &&& body_view(r.body) == body
}

/// A request to an Actions path without query.
fn action_request_exec(method: HttpMethod, project_id: &str, suffix: &str, body: Option<Json>) -> (r:
    Request)
    ensures
        action_request(r, method, project_id@, suffix@, body_view(body)),
{
    let q: Vec<(String, String)> = Vec::new();
    assert(q.deep_view() =~= Seq::<(Seq<char>, Seq<char>)>::empty());
    let r = Request::new(method, action_path(project_id, suffix), q, body);
    assert(r.query.deep_view() =~= Seq::<(Seq<char>, Seq<char>)>::empty());
    r
}

/// The request that lists workflow files.
pub fn list_workflows(project_id: &str, request: WorkflowListRequest) -> (r: Request)
    ensures
        action_request(
            r,
            HttpMethod::Post,
            project_id@,
            "workflows/list"@,
            Some(
                JsonV::Object(
                    seq![("page"@, num(request.page)), ("per_page"@, num(request.per_page))],
                ),
            ),
        ),
{
    action_request_exec(HttpMethod::Post, project_id, "workflows/list", Some(workflow_list_body(request)))
}

/// The Actions path that lists runs: of one workflow when its id is given.
pub open spec fn runs_path(workflow_id: Option<String>) -> Seq<char> {
    match workflow_id {
        Some(id) => "workflow-runs/"@ + id@ + "/list"@,
        None => "workflow-runs/list"@,
    }
}

/// The request that lists workflow runs.
pub fn list_runs(project_id: &str, request: WorkflowRunListRequest) -> (r: Request)
    ensures
        r.method == HttpMethod::Post,
        r.endpoint@ == action_path_spec(project_id@, runs_path(request.workflow_id)),
        r.query.deep_view() == Seq::<(Seq<char>, Seq<char>)>::empty(),
        body_view(r.body) == Some(
            JsonV::Object(
                opt_entry("branch"@, request.branch) + opt_entry("event"@, request.event)
                    + opt_entry("executor_id"@, request.executor_id) + opt_entry(
                    "mr_id"@,
                    request.mr_id,
                ) + seq![("page"@, num(request.page)), ("per_page"@, num(request.per_page))]
                    + opt_entry("status"@, request.status) + opt_entry(
                    "workflow_name"@,
                    request.workflow_name,
                ),
            ),
        ),
{
    let suffix = match &request.workflow_id {
        Some(id) => cat3("workflow-runs/", id.as_str(), "/list"),
        None => from_chars(&to_chars("workflow-runs/list")),
    };
    action_request_exec(HttpMethod::Post, project_id, suffix.as_str(), Some(workflow_run_list_body(request)))
}

/// The request that shows a workflow run.
pub fn view_run(project_id: &str, workflow_run_id: &str) -> (r: Request)
    ensures
        action_request(
            r,
            HttpMethod::Get,
            project_id@,
            "workflow-runs/"@ + workflow_run_id@,
            None,
        ),
{
    let mut v = to_chars("workflow-runs/");
    append_str(&mut v, workflow_run_id);
    let suffix = from_chars(&v);
    action_request_exec(HttpMethod::Get, project_id, suffix.as_str(), None)
}

/// The request that reads part of a job log; the step run id, when given
/// and not empty, goes into the query.
pub fn job_log(
    project_id: &str,
    workflow_run_id: &str,
    job_identifier: &str,
    step_run_id: Option<String>,
    offset: u64,
    limit: u64,
) -> (r: Request)
    ensures
        r.method == HttpMethod::Post,
        r.endpoint@ == action_path_spec(
            project_id@,
            "workflow-runs/"@ + workflow_run_id@ + "/jobs/"@ + job_identifier@ + "/logs"@,
        ),
        r.query.deep_view() == match step_run_id {
            Some(s) => nonempty_pairs(seq![("step_run_id"@, s@)]),
            None => Seq::<(Seq<char>, Seq<char>)>::empty(),
        },
        body_view(r.body) == Some(
            JsonV::Object(seq![("limit"@, num(limit)), ("offset"@, num(offset))]),
        ),
{
    let ghost step = step_run_id;
    let mut v = to_chars("workflow-runs/");
    append_str(&mut v, workflow_run_id);
    append_str(&mut v, "/jobs/");
    append_str(&mut v, job_identifier);
    append_str(&mut v, "/logs");
    let suffix = from_chars(&v);
    let mut q: Vec<(String, String)> = Vec::new();
    if let Some(s) = step_run_id {
        let k = from_chars(&to_chars("step_run_id"));
        let ghost pair = (k@, s@);
        q.push((k, s));
        assert(q.deep_view() =~= seq![pair]);
    } else {
        assert(q.deep_view() =~= Seq::<(Seq<char>, Seq<char>)>::empty());
    }
    proof {
        assert(nonempty_pairs(Seq::<(Seq<char>, Seq<char>)>::empty()) =~= Seq::<
            (Seq<char>, Seq<char>),
        >::empty());
    }
    Request::new(
        HttpMethod::Post,
        action_path(project_id, suffix.as_str()),
        q,
        Some(job_log_body(offset, limit)),
    )
}

/// The request that stops a workflow run.
pub fn stop_run(project_id: &str, workflow_run_id: &str) -> (r: Request)
    ensures
        action_request(
            r,
            HttpMethod::Post,
            project_id@,
            "workflow-runs/"@ + workflow_run_id@ + "/stop"@,
            None,
        ),
{
    let suffix = cat3("workflow-runs/", workflow_run_id, "/stop");
    action_request_exec(HttpMethod::Post, project_id, suffix.as_str(), None)
}

/// The request that retries the failed jobs of a run, or the given jobs.
pub fn retry_run(
    project_id: &str,
    workflow_run_id: &str,
    repo_https_url: Option<String>,
    job_run_ids: Vec<String>,
) -> (r: Request)
    ensures
        action_request(
            r,
            HttpMethod::Post,
            project_id@,
            "workflow-runs/"@ + workflow_run_id@ + "/retry"@,
            Some(
                JsonV::Object(
                    (if nonblank(job_run_ids@).len() > 0 {
                        seq![("job_run_ids"@, JsonV::Array(str_values(nonblank(job_run_ids@))))]
                    } else {
                        seq![]
                    }) + opt_entry("repo_https_url"@, repo_https_url),
                ),
            ),
        ),
{
    let suffix = cat3("workflow-runs/", workflow_run_id, "/retry");
    action_request_exec(
        HttpMethod::Post,
        project_id,
        suffix.as_str(),
        Some(retry_body(repo_https_url, job_run_ids)),
    )
}

/// The request that reruns every job of a run.
pub fn rerun(project_id: &str, workflow_run_id: &str) -> (r: Request)
    ensures
        action_request(
            r,
            HttpMethod::Post,
            project_id@,
            "workflow-runs/"@ + workflow_run_id@ + "/rerun"@,
            None,
        ),
{
    let suffix = cat3("workflow-runs/", workflow_run_id, "/rerun");
    action_request_exec(HttpMethod::Post, project_id, suffix.as_str(), None)
}

/// The request that runs a workflow by hand.
pub fn dispatch(project_id: &str, workflow_id: &str, request: WorkflowDispatchRequest) -> (r:
    Request)
    ensures
        action_request(
            r,
            HttpMethod::Post,
            project_id@,
            "workflows/"@ + workflow_id@ + "/dispatch"@,
            Some(
                JsonV::Object(
                    opt_entry("branch"@, request.branch) + opt_entry(
                        "branch_commit_id"@,
                        request.branch_commit_id,
                    ) + seq![
                        ("file_path"@, JsonV::Str(request.file_path@)),
                        ("inputs"@, JsonV::Object(entries_view(request.inputs@))),
                        ("repo_https_url"@, JsonV::Str(request.repo_https_url@)),
                    ] + opt_entry("repo_id"@, request.repo_id),
                ),
            ),
        ),
{
    let suffix = cat3("workflows/", workflow_id, "/dispatch");
    action_request_exec(HttpMethod::Post, project_id, suffix.as_str(), Some(dispatch_body(request)))
}

/// The message of a failed Actions api call: the `message`, `msg` or
/// `error` member of the body when it is a string, else `body_text`, the
/// body written as JSON.
pub open spec fn actions_error_text(status: Seq<char>, body: JsonV, body_text: Seq<char>) -> Seq<
    char,
> {
    let message = match crate::client::text_field(body, "message"@) {
        Some(m) => m,
        None => match crate::client::text_field(body, "msg"@) {
            Some(m) => m,
            None => match crate::client::text_field(body, "error"@) {
                Some(m) => m,
                None => body_text,
            },
        },
    };
    "GitCode Actions API returned "@ + status + ": "@ + message
}

/// The error of a failed Actions api call.
pub fn api_status_error(status: &str, body: &Json, body_text: &str) -> (r: String)
    ensures
        r@ == actions_error_text(status@, body@, body_text@),
{
    let message = match crate::client::text_field_of(body, "message") {
        Some(m) => m,
        None => match crate::client::text_field_of(body, "msg") {
            Some(m) => m,
            None => match crate::client::text_field_of(body, "error") {
                Some(m) => m,
                None => from_chars(&to_chars(body_text)),
            },
        },
    };
    let mut out = to_chars("GitCode Actions API returned ");
    append_str(&mut out, status);
    append_str(&mut out, ": ");
    append_str(&mut out, message.as_str());
    from_chars(&out)
}

/// The request that writes a workflow file of `repository`: a POST that
/// creates it or a PUT that updates it, at `repos/{repository}/contents/`
/// and the path with its leading slashes removed, each segment
/// percent-encoded, with the file body.
pub fn workflow_file_request(
    repository: &str,
    path: &str,
    mode: crate::cli::PipelineSetMode,
    request: WorkflowFileRequest,
) -> (r: Request)
    requires
        vstd::utf8::encode_utf8(request.content@).len() <= usize::MAX / 2,
    ensures
        r.method == (match mode {
            crate::cli::PipelineSetMode::Create => HttpMethod::Post,
            crate::cli::PipelineSetMode::Update => HttpMethod::Put,
        }),
        r.endpoint@ == "repos/"@ + repository@ + "/contents/"@ + crate::encoding::encode_path_spec(
            vstd::utf8::encode_utf8(trim_start_char(path@, '/')),
        ),
        r.query@.len() == 0,
        body_view(r.body) == Some(
            JsonV::Object(
                opt_entry("branch"@, request.branch) + seq![
                    ("content"@, JsonV::Str(base64_spec(vstd::utf8::encode_utf8(request.content@)))),
                    ("message"@, JsonV::Str(request.message@)),
                ] + opt_entry("sha"@, request.sha),
            ),
        ),
{
    let method = match mode {
        crate::cli::PipelineSetMode::Create => HttpMethod::Post,
        crate::cli::PipelineSetMode::Update => HttpMethod::Put,
    };
    let trimmed = from_chars(&trim_start_char_chars(&to_chars(path), '/'));
    let encoded = crate::encoding::encode_path(trimmed.as_str());
    let mut out = to_chars("repos/");
    append_str(&mut out, repository);
    append_str(&mut out, "/contents/");
    append_str(&mut out, encoded.as_str());
    let body = workflow_file_body(request);
    let q: Vec<(String, String)> = Vec::new();
    assert(q.deep_view() =~= Seq::<(Seq<char>, Seq<char>)>::empty());
    let r = Request::new(method, from_chars(&out), q, Some(body));
    assert(r.query.deep_view() =~= Seq::<(Seq<char>, Seq<char>)>::empty());
    r
}

} // verus!
