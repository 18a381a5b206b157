//! The errors of `gd`, each with the text that the command line prints for it.
use vstd::prelude::*;
use crate::text::{concat, from_chars, to_chars};

verus! {

/// Everything that the library refuses, with the inputs the message quotes.
#[derive(Debug, Clone, PartialEq, Eq)]
pub enum GdError {
    /// A repository argument is not `owner/repo`.
    RepoForm,
    /// A git remote is not a GitCode repository URL.
    UnsupportedRemote,
    /// A boolean setting holds something other than true/false words.
    InvalidEnvBool { name: String, value: String },
    /// The configured hostname is blank.
    EmptyHostname,
    /// The api base does not parse as a URL.
    InvalidApiBase { value: String },
    /// The api base uses neither http nor https.
    ApiBaseScheme,
    /// The Actions api base does not parse as a URL.
    InvalidActionsBase { value: String },
    /// The Actions api base uses neither http nor https.
    ActionsBaseScheme,
    /// The Actions api base has no host.
    ActionsBaseHost,
    /// A workflow path lies outside `.gitcode/workflows/`.
    WorkflowPath,
    /// Both `--content` and `--file` were given.
    ContentAndFile,
    /// A workflow input has no `=`.
    WorkflowInputForm { value: String },
    /// A workflow input has a blank key.
    WorkflowInputKeyEmpty,
    /// An api field has no `=`.
    FieldForm { field: String },
    /// A request header has no `:`.
    HeaderForm { header: String },
    /// Neither or both of `--tag` and `--all` were given.
    TagOrAll,
    /// A release asset exists on GitCode and skipping was not asked for.
    AssetExists { name: String },
    /// An update source name is unknown.
    InvalidUpdateSource { value: String },
    /// The update source list names nothing.
    NoUpdateSources,
    /// The update repository is not `owner/name`.
    UpdateRepoForm { value: String },
    /// A boolean value is not one of the accepted words.
    ExpectedBool,
    /// The update check switch holds something other than a boolean word.
    InvalidUpdateCheckEnabled { value: String },
    /// Web login was asked for.
    WebLoginUnsupported,
    /// The token read for login is blank.
    EmptyToken,
    /// No token is stored for the host.
    NotLoggedIn { hostname: String },
    /// A request header name is not a valid HTTP header name.
    InvalidHeaderName,
    /// A request header value is not a valid HTTP header value.
    InvalidHeaderValue,
    /// An absolute endpoint does not parse as a URL.
    InvalidEndpointUrl { endpoint: String },
    /// An endpoint path does not join onto the api base.
    InvalidEndpointPath { path: String },
    /// An Actions endpoint path does not join onto the Actions api base.
    InvalidActionsEndpoint { path: String },
    /// The upload_url response of a release names no URL.
    MissingUploadUrl,
    /// The system keyring refused an operation; the message says which.
    Keyring { message: String },
    /// A URL is too long for its path to be rewritten.
    UrlTooLong,
}

/// The text printed for an error.
pub open spec fn error_text(e: GdError) -> Seq<char> {
    match e {
        GdError::RepoForm => "repository must be in owner/repo form"@,
        GdError::UnsupportedRemote => "unsupported remote URL"@,
        GdError::InvalidEnvBool { name, value } => "invalid "@ + name@ + " value '"@ + value@
            + "', expected true or false"@,
        GdError::EmptyHostname => "hostname cannot be empty"@,
        GdError::InvalidApiBase { value } => "invalid api base URL: "@ + value@,
        GdError::ApiBaseScheme => "api base URL must use http or https"@,
        GdError::InvalidActionsBase { value } => "invalid GitCode Actions API base URL: "@
            + value@,
        GdError::ActionsBaseScheme => "GitCode Actions API base URL must use http or https"@,
        GdError::ActionsBaseHost => "GitCode Actions API base URL must include a host"@,
        GdError::WorkflowPath => "workflow path must be under .gitcode/workflows/"@,
        GdError::ContentAndFile => "use either --content or --file, not both"@,
        GdError::WorkflowInputForm { value } => "workflow input must be in key=value form: "@
            + value@,
        GdError::WorkflowInputKeyEmpty => "workflow input key cannot be empty"@,
        GdError::FieldForm { field } => "field must be in key=value form: "@ + field@,
        GdError::HeaderForm { header } => "header must be in 'Name: value' form: "@ + header@,
        GdError::TagOrAll => "set exactly one of --tag or --all"@,
        GdError::AssetExists { name } => "GitCode release asset already exists: "@ + name@,
        GdError::InvalidUpdateSource { value } => "invalid GD_UPDATE_SOURCES value '"@ + value@
            + "', expected github or crates.io"@,
        GdError::NoUpdateSources => "GD_UPDATE_SOURCES must include github or crates.io"@,
        GdError::UpdateRepoForm { value } => "GD_UPDATE_GITHUB_REPO must be owner/name, got '"@
            + value@ + "'"@,
        GdError::ExpectedBool => "expected true or false"@,
        GdError::InvalidUpdateCheckEnabled { value } =>
            "invalid GD_UPDATE_CHECK_ENABLED value '"@ + value@ + "', expected true or false"@,
        GdError::WebLoginUnsupported =>
            "web login is not supported yet; use gd auth login --with-token"@,
        GdError::EmptyToken => "token from stdin is empty"@,
        GdError::NotLoggedIn { hostname } => "not logged in to "@ + hostname@,
        GdError::InvalidHeaderName => "invalid HTTP header name"@,
        GdError::InvalidHeaderValue => "failed to parse header value"@,
        GdError::InvalidEndpointUrl { endpoint } => "invalid endpoint URL: "@ + endpoint@,
        GdError::InvalidEndpointPath { path } => "invalid endpoint path: "@ + path@,
        GdError::InvalidActionsEndpoint { path } => "invalid GitCode Actions endpoint path: "@
            + path@,
        GdError::MissingUploadUrl => "GitCode upload_url response did not include a URL"@,
        GdError::Keyring { message } => message@,
        GdError::UrlTooLong => "URL is too long"@,
    }
}

/// `a + b` built from a string and a literal.
fn join2(a: &str, b: &str) -> (r: Vec<char>)
    ensures
        r@ == a@ + b@,
{
    let x = to_chars(a);
    let y = to_chars(b);
    concat(&x, &y)
}

/// `a + b + c` built from three strings.
fn join3(a: &str, b: &str, c: &str) -> (r: Vec<char>)
    ensures
        r@ == a@ + b@ + c@,
{
    let x = join2(a, b);
    let y = to_chars(c);
    concat(&x, &y)
}

/// `a + b + c + d + e` built from five strings.
fn join5(a: &str, b: &str, c: &str, d: &str, e: &str) -> (r: Vec<char>)
    ensures
        r@ == a@ + b@ + c@ + d@ + e@,
{
    let x = join3(a, b, c);
    let y = join2(d, e);
    let r = concat(&x, &y);
    assert(r@ =~= a@ + b@ + c@ + d@ + e@);
    r
}

impl GdError {
    /// The text printed for this error.
    pub fn message(&self) -> (r: String)
        ensures
            r@ == error_text(*self),
    {
        let v: Vec<char> = match self {
            GdError::RepoForm => to_chars("repository must be in owner/repo form"),
            GdError::UnsupportedRemote => to_chars("unsupported remote URL"),
            GdError::InvalidEnvBool { name, value } => join5(
                "invalid ",
                name.as_str(),
                " value '",
                value.as_str(),
                "', expected true or false",
            ),
            GdError::EmptyHostname => to_chars("hostname cannot be empty"),
            GdError::InvalidApiBase { value } => join2("invalid api base URL: ", value.as_str()),
            GdError::ApiBaseScheme => to_chars("api base URL must use http or https"),
            GdError::InvalidActionsBase { value } => join2(
                "invalid GitCode Actions API base URL: ",
                value.as_str(),
            ),
            GdError::ActionsBaseScheme => to_chars(
                "GitCode Actions API base URL must use http or https",
            ),
            GdError::ActionsBaseHost => to_chars("GitCode Actions API base URL must include a host"),
            GdError::WorkflowPath => to_chars("workflow path must be under .gitcode/workflows/"),
            GdError::ContentAndFile => to_chars("use either --content or --file, not both"),
            GdError::WorkflowInputForm { value } => join2(
                "workflow input must be in key=value form: ",
                value.as_str(),
            ),
            GdError::WorkflowInputKeyEmpty => to_chars("workflow input key cannot be empty"),
            GdError::FieldForm { field } => join2(
                "field must be in key=value form: ",
                field.as_str(),
            ),
            GdError::HeaderForm { header } => join2(
                "header must be in 'Name: value' form: ",
                header.as_str(),
            ),
            GdError::TagOrAll => to_chars("set exactly one of --tag or --all"),
            GdError::AssetExists { name } => join2(
                "GitCode release asset already exists: ",
                name.as_str(),
            ),
            GdError::InvalidUpdateSource { value } => join3(
                "invalid GD_UPDATE_SOURCES value '",
                value.as_str(),
                "', expected github or crates.io",
            ),
            GdError::NoUpdateSources => to_chars(
                "GD_UPDATE_SOURCES must include github or crates.io",
            ),
            GdError::UpdateRepoForm { value } => join3(
                "GD_UPDATE_GITHUB_REPO must be owner/name, got '",
                value.as_str(),
                "'",
            ),
            GdError::ExpectedBool => to_chars("expected true or false"),
            GdError::InvalidUpdateCheckEnabled { value } => join3(
                "invalid GD_UPDATE_CHECK_ENABLED value '",
                value.as_str(),
                "', expected true or false",
            ),
            GdError::WebLoginUnsupported => to_chars(
                "web login is not supported yet; use gd auth login --with-token",
            ),
            GdError::EmptyToken => to_chars("token from stdin is empty"),
            GdError::NotLoggedIn { hostname } => join2("not logged in to ", hostname.as_str()),
            GdError::InvalidHeaderName => to_chars("invalid HTTP header name"),
            GdError::InvalidHeaderValue => to_chars("failed to parse header value"),
            GdError::InvalidEndpointUrl { endpoint } => join2(
                "invalid endpoint URL: ",
                endpoint.as_str(),
            ),
            GdError::InvalidEndpointPath { path } => join2("invalid endpoint path: ", path.as_str()),
            GdError::InvalidActionsEndpoint { path } => join2(
                "invalid GitCode Actions endpoint path: ",
                path.as_str(),
            ),
            GdError::MissingUploadUrl => to_chars(
                "GitCode upload_url response did not include a URL",
            ),
            GdError::Keyring { message } => to_chars(message.as_str()),
            GdError::UrlTooLong => to_chars("URL is too long"),
        };
        from_chars(&v)
    }
}

} // verus!
