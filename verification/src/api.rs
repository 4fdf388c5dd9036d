//! The `/cli/v1` client: where each call goes, what it sends, and how the
//! answers of the device-authorization poll are read. Sending is the caller's.

use vstd::prelude::*;
use crate::cli::opt_str;
use crate::error::{ApiError, ApiErrorView, is_server_error, is_success, or_empty};
use crate::json::{json_quote, nested_str, nested_string, quote};
use crate::text::{chars_of, decimal, decimal_int, fmt_i64, fmt_u16, fmt_u32};

verus! {

#[verifier::external_type_specification]
#[verifier::external_body]
pub struct ExHttpClient(reqwest::Client);

/// The HTTP client for one API: its base URL (without trailing `/`), the
/// bearer token, and the connection pool that carries the requests.
pub struct ApiClient {
    pub base_url: String,
    pub token: Option<String>,
    pub http: reqwest::Client,
}

#[derive(PartialEq, Eq, Structural)]
pub enum HttpMethod {
    Get,
    Post,
    Delete,
}

/// A request ready to be sent.
pub struct HttpRequest {
    pub method: HttpMethod,
    pub url: String,
    pub headers: Vec<(String, String)>,
    pub body: Option<String>,
}

pub struct RequestView {
    pub method: HttpMethod,
    pub url: Seq<char>,
    pub headers: Seq<(Seq<char>, Seq<char>)>,
    pub body: Option<Seq<char>>,
}

impl View for HttpRequest {
    type V = RequestView;

    open spec fn view(&self) -> RequestView {
        RequestView {
            method: self.method,
            url: self.url@,
            headers: self.headers@.map_values(|h: (String, String)| (h.0@, h.1@)),
            body: opt_str(self.body),
        }
    }
}

/// `s` without its trailing `/` characters.
pub open spec fn trim_slashes(s: Seq<char>) -> Seq<char>
    decreases s.len(),
{
    if s.len() > 0 && s.last() == '/' {
        trim_slashes(s.drop_last())
    } else {
        s
    }
}

pub open spec fn starts_with_slash(path: Seq<char>) -> bool {
    path.len() > 0 && path[0] == '/'
}

/// The URL of `path` under `base`.
pub open spec fn url_spec(base: Seq<char>, path: Seq<char>) -> Seq<char> {
    if starts_with_slash(path) {
        base + path
    } else {
        base + "/"@ + path
    }
}

pub open spec fn user_agent_spec() -> Seq<char> {
    "nvg/0.1.0"@
}

pub open spec fn json_media_type() -> Seq<char> {
    "application/json"@
}

/// The headers of every request: user agent and accepted type, then the
/// bearer token when there is one, then the body's type when there is a body.
pub open spec fn headers_spec(token: Option<Seq<char>>, has_body: bool) -> Seq<
    (Seq<char>, Seq<char>),
> {
    seq![("user-agent"@, user_agent_spec()), ("accept"@, json_media_type())] + (match token {
        Some(t) => seq![("authorization"@, "Bearer "@ + t)],
        None => Seq::empty(),
    }) + (if has_body {
        seq![("content-type"@, json_media_type())]
    } else {
        Seq::empty()
    })
}

pub open spec fn request_spec(
    base: Seq<char>,
    token: Option<Seq<char>>,
    method: HttpMethod,
    path: Seq<char>,
    body: Option<Seq<char>>,
) -> RequestView {
    RequestView {
        method,
        url: url_spec(base, path),
        headers: headers_spec(token, body is Some),
        body,
    }
}

/// `parts` separated by `sep`.
pub open spec fn join(parts: Seq<Seq<char>>, sep: Seq<char>) -> Seq<char>
    decreases parts.len(),
{
    if parts.len() == 0 {
        Seq::empty()
    } else if parts.len() == 1 {
        parts[0]
    } else {
        join(parts.drop_last(), sep) + sep + parts.last()
    }
}

/// `path` with the query `params`, joined by `&`, when there are any.
pub open spec fn with_query_spec(path: Seq<char>, params: Seq<Seq<char>>) -> Seq<char> {
    if params.len() == 0 {
        path
    } else {
        path + "?"@ + join(params, "&"@)
    }
}

pub open spec fn param_spec(name: Seq<char>, value: Option<Seq<char>>) -> Seq<Seq<char>> {
    match value {
        Some(v) => seq![name + "="@ + v],
        None => Seq::empty(),
    }
}

pub open spec fn opt_decimal(v: Option<u32>) -> Option<Seq<char>> {
    match v {
        Some(n) => Some(decimal(n as nat)),
        None => None,
    }
}

pub open spec fn projects_path_spec(organization_id: Option<i64>) -> Seq<char> {
    match organization_id {
        Some(id) => "/cli/v1/infrastructure_projects?organization_id="@ + decimal_int(id as int),
        None => "/cli/v1/infrastructure_projects"@,
    }
}

pub open spec fn project_path_spec(id: i64) -> Seq<char> {
    "/cli/v1/infrastructure_projects/"@ + decimal_int(id as int)
}

pub open spec fn apps_path_spec(project_id: i64) -> Seq<char> {
    project_path_spec(project_id) + "/app_configurations"@
}

pub open spec fn app_path_spec(project_id: i64, app_id: i64) -> Seq<char> {
    apps_path_spec(project_id) + "/"@ + decimal_int(app_id as int)
}

pub open spec fn deployments_path_spec(project_id: i64, app_id: i64) -> Seq<char> {
    app_path_spec(project_id, app_id) + "/app_deployments"@
}

pub open spec fn deployments_list_path_spec(
    project_id: i64,
    app_id: i64,
    page: Option<u32>,
    per_page: Option<u32>,
) -> Seq<char> {
    with_query_spec(
        deployments_path_spec(project_id, app_id),
        param_spec("page"@, opt_decimal(page)) + param_spec("per_page"@, opt_decimal(per_page)),
    )
}

pub open spec fn deployments_commits_path_spec(
    project_id: i64,
    app_id: i64,
    branch: Option<Seq<char>>,
    limit: Option<u32>,
) -> Seq<char> {
    with_query_spec(
        deployments_path_spec(project_id, app_id) + "/commits"@,
        param_spec("branch"@, branch) + param_spec("limit"@, opt_decimal(limit)),
    )
}

pub open spec fn deployment_path_spec(project_id: i64, app_id: i64, identifier: Seq<char>) -> Seq<
    char,
> {
    deployments_path_spec(project_id, app_id) + "/"@ + identifier
}

pub open spec fn deployment_logs_path_spec(
    project_id: i64,
    app_id: i64,
    identifier: Seq<char>,
) -> Seq<char> {
    deployment_path_spec(project_id, app_id, identifier) + "/logs"@
}

pub open spec fn token_path_spec(id: Seq<char>) -> Seq<char> {
    "/cli/v1/tokens/"@ + id
}

/// `"key":` followed by the JSON literal of `value`, when there is a value.
pub open spec fn json_field(key: Seq<char>, value: Option<Seq<char>>) -> Seq<Seq<char>> {
    match value {
        Some(v) => seq!["\""@ + key + "\":"@ + json_quote(v)],
        None => Seq::empty(),
    }
}

pub open spec fn token_create_body_spec(name: Seq<char>, expires_at: Option<Seq<char>>) -> Seq<
    char,
> {
    "{\"token\":{\"expires_at\":"@ + (match expires_at {
        Some(e) => json_quote(e),
        None => "null"@,
    }) + ",\"name\":"@ + json_quote(name) + "}}"@
}

pub open spec fn poll_body_spec(device_code: Seq<char>) -> Seq<char> {
    "{\"device_code\":"@ + json_quote(device_code) + "}"@
}

pub open spec fn deployment_create_body_spec(
    branch: Option<Seq<char>>,
    commit: Option<Seq<char>>,
    image: Option<Seq<char>>,
) -> Seq<char> {
    "{\"deployment\":{"@ + join(
        json_field("branch_name"@, branch) + json_field("commit_hash"@, commit) + json_field(
            "image"@,
            image,
        ),
        ","@,
    ) + "}}"@
}

pub open spec fn project_create_body_spec(
    name: Seq<char>,
    plan_type: Seq<char>,
    datacenter_id: i64,
    organization_id: i64,
    repository_ids: Seq<Seq<char>>,
) -> Seq<char> {
    "{\"project\":{\"name\":"@ + json_quote(name) + ",\"plan_type\":"@ + json_quote(plan_type)
        + ",\"datacenter_id\":"@ + decimal_int(datacenter_id as int) + ",\"organization_id\":"@
        + decimal_int(organization_id as int) + ",\"repository_ids\":["@ + join(
        repository_ids.map_values(|r: Seq<char>| json_quote(r)),
        ","@,
    ) + "]}}"@
}

pub fn user_agent() -> (s: String)
    ensures
        s@ == user_agent_spec(),
{
    String::from_str("nvg/0.1.0")
}

fn lit(s: &str) -> (r: String)
    ensures
        r@ == s@,
{
    String::from_str(s)
}

/// Joins `parts` with `sep` between them.
pub fn join_strings(parts: &Vec<String>, sep: &str) -> (r: String)
    ensures
        r@ == join(parts@.map_values(|p: String| p@), sep@),
{
    let ghost ps = parts@.map_values(|p: String| p@);
    let mut out = String::new();
    let mut i: usize = 0;
    while i < parts.len()
        invariant
            i <= parts@.len(),
            ps == parts@.map_values(|p: String| p@),
            out@ == join(ps.take(i as int), sep@),
        decreases parts@.len() - i,
    {
        assert(ps.take(i + 1).drop_last() =~= ps.take(i as int));
        if i == 0 {
            assert(ps.take(0) =~= Seq::<Seq<char>>::empty());
            out = parts[0].clone();
        } else {
            out = out.concat(sep).concat(parts[i].as_str());
        }
        i = i + 1;
    }
    assert(ps.take(parts@.len() as int) =~= ps);
    out
}

/// `path` with `params` as its query string.
pub fn with_query(path: String, params: &Vec<String>) -> (r: String)
    ensures
        r@ == with_query_spec(path@, params@.map_values(|p: String| p@)),
{
    if params.len() == 0 {
        path
    } else {
        path.concat("?").concat(join_strings(params, "&").as_str())
    }
}

fn push_param(params: &mut Vec<String>, name: &str, value: Option<String>)
    ensures
        final(params)@.map_values(|p: String| p@) == old(params)@.map_values(|p: String| p@)
            + param_spec(name@, opt_str(value)),
{
    let ghost before = old(params)@.map_values(|p: String| p@);
    match value {
        Some(v) => {
            params.push(String::from_str(name).concat("=").concat(v.as_str()));
        },
        None => {},
    }
    assert(params@.map_values(|p: String| p@) =~= before + param_spec(name@, opt_str(value)));
}

fn opt_fmt_u32(v: Option<u32>) -> (r: Option<String>)
    ensures
        opt_str(r) == opt_decimal(v),
{
    match v {
        Some(n) => Some(fmt_u32(n)),
        None => None,
    }
}

/// `GET /cli/v1/viewer`.
pub fn viewer_path() -> (s: String)
    ensures
        s@ == "/cli/v1/viewer"@,
{
    lit("/cli/v1/viewer")
}

/// `GET` / `POST /cli/v1/tokens`.
pub fn tokens_path() -> (s: String)
    ensures
        s@ == "/cli/v1/tokens"@,
{
    lit("/cli/v1/tokens")
}

/// `DELETE /cli/v1/tokens/:id`.
pub fn token_path(id: &str) -> (s: String)
    ensures
        s@ == token_path_spec(id@),
{
    lit("/cli/v1/tokens/").concat(id)
}

/// `POST /cli/v1/device_authorizations`.
pub fn device_authorizations_path() -> (s: String)
    ensures
        s@ == "/cli/v1/device_authorizations"@,
{
    lit("/cli/v1/device_authorizations")
}

/// `POST /cli/v1/device_authorizations/poll`.
pub fn device_poll_path() -> (s: String)
    ensures
        s@ == "/cli/v1/device_authorizations/poll"@,
{
    lit("/cli/v1/device_authorizations/poll")
}

/// `GET /cli/v1/organizations`.
pub fn organizations_path() -> (s: String)
    ensures
        s@ == "/cli/v1/organizations"@,
{
    lit("/cli/v1/organizations")
}

/// `GET /cli/v1/datacenters`.
pub fn datacenters_path() -> (s: String)
    ensures
        s@ == "/cli/v1/datacenters"@,
{
    lit("/cli/v1/datacenters")
}

/// `GET /cli/v1/infrastructure_projects[?organization_id=N]`.
pub fn projects_path(organization_id: Option<i64>) -> (s: String)
    ensures
        s@ == projects_path_spec(organization_id),
{
    match organization_id {
        Some(id) => lit("/cli/v1/infrastructure_projects?organization_id=").concat(
            fmt_i64(id).as_str(),
        ),
        None => lit("/cli/v1/infrastructure_projects"),
    }
}

/// `/cli/v1/infrastructure_projects/:id`.
pub fn project_path(id: i64) -> (s: String)
    ensures
        s@ == project_path_spec(id),
{
    lit("/cli/v1/infrastructure_projects/").concat(fmt_i64(id).as_str())
}

/// `GET /cli/v1/infrastructure_projects/:project_id/app_configurations`.
pub fn apps_path(project_id: i64) -> (s: String)
    ensures
        s@ == apps_path_spec(project_id),
{
    project_path(project_id).concat("/app_configurations")
}

/// `GET /cli/v1/infrastructure_projects/:project_id/app_configurations/:id`.
pub fn app_path(project_id: i64, app_id: i64) -> (s: String)
    ensures
        s@ == app_path_spec(project_id, app_id),
{
    apps_path(project_id).concat("/").concat(fmt_i64(app_id).as_str())
}

/// `.../app_configurations/:aid/app_deployments`.
pub fn deployments_path(project_id: i64, app_id: i64) -> (s: String)
    ensures
        s@ == deployments_path_spec(project_id, app_id),
{
    app_path(project_id, app_id).concat("/app_deployments")
}

/// `GET .../app_deployments[?page=P][&per_page=N]`.
pub fn deployments_list_path(
    project_id: i64,
    app_id: i64,
    page: Option<u32>,
    per_page: Option<u32>,
) -> (s: String)
    ensures
        s@ == deployments_list_path_spec(project_id, app_id, page, per_page),
{
    let mut params: Vec<String> = Vec::new();
    assert(params@.map_values(|p: String| p@) =~= Seq::<Seq<char>>::empty());
    push_param(&mut params, "page", opt_fmt_u32(page));
    push_param(&mut params, "per_page", opt_fmt_u32(per_page));
    assert(Seq::<Seq<char>>::empty() + param_spec("page"@, opt_decimal(page)) =~= param_spec(
        "page"@,
        opt_decimal(page),
    ));
    with_query(deployments_path(project_id, app_id), &params)
}

/// `GET .../app_deployments/commits[?branch=B][&limit=N]`.
pub fn deployments_commits_path(
    project_id: i64,
    app_id: i64,
    branch: Option<&str>,
    limit: Option<u32>,
) -> (s: String)
    ensures
        s@ == deployments_commits_path_spec(
            project_id,
            app_id,
            match branch {
                Some(b) => Some(b@),
                None => None,
            },
            limit,
        ),
{
    let mut params: Vec<String> = Vec::new();
    assert(params@.map_values(|p: String| p@) =~= Seq::<Seq<char>>::empty());
    let b = match branch {
        Some(b) => Some(String::from_str(b)),
        None => None,
    };
    push_param(&mut params, "branch", b);
    push_param(&mut params, "limit", opt_fmt_u32(limit));
    assert(Seq::<Seq<char>>::empty() + param_spec("branch"@, opt_str(b)) =~= param_spec(
        "branch"@,
        opt_str(b),
    ));
    with_query(deployments_path(project_id, app_id).concat("/commits"), &params)
}

/// `GET .../app_deployments/:id_or_version`.
pub fn deployment_path(project_id: i64, app_id: i64, identifier: &str) -> (s: String)
    ensures
        s@ == deployment_path_spec(project_id, app_id, identifier@),
{
    deployments_path(project_id, app_id).concat("/").concat(identifier)
}

/// `GET .../app_deployments/:id_or_version/logs`.
pub fn deployment_logs_path(project_id: i64, app_id: i64, identifier: &str) -> (s: String)
    ensures
        s@ == deployment_logs_path_spec(project_id, app_id, identifier@),
{
    deployment_path(project_id, app_id, identifier).concat("/logs")
}

/// Body of `POST /cli/v1/tokens`.
pub fn token_create_body(name: &str, expires_at: Option<&str>) -> (s: String)
    ensures
        s@ == token_create_body_spec(
            name@,
            match expires_at {
                Some(e) => Some(e@),
                None => None,
            },
        ),
{
    let e = match expires_at {
        Some(e) => quote(e),
        None => lit("null"),
    };
    lit("{\"token\":{\"expires_at\":").concat(e.as_str()).concat(",\"name\":").concat(
        quote(name).as_str(),
    ).concat("}}")
}

/// Body of `POST /cli/v1/device_authorizations`: an empty object.
pub fn device_start_body() -> (s: String)
    ensures
        s@ == "{}"@,
{
    lit("{}")
}

/// Body of `POST /cli/v1/device_authorizations/poll`.
pub fn poll_body(device_code: &str) -> (s: String)
    ensures
        s@ == poll_body_spec(device_code@),
{
    lit("{\"device_code\":").concat(quote(device_code).as_str()).concat("}")
}

fn push_field(fields: &mut Vec<String>, key: &str, value: Option<&str>)
    ensures
        final(fields)@.map_values(|p: String| p@) == old(fields)@.map_values(|p: String| p@)
            + json_field(
            key@,
            match value {
                Some(v) => Some(v@),
                None => None,
            },
        ),
{
    let ghost before = old(fields)@.map_values(|p: String| p@);
    match value {
        Some(v) => {
            fields.push(lit("\"").concat(key).concat("\":").concat(quote(v).as_str()));
        },
        None => {},
    }
    assert(fields@.map_values(|p: String| p@) =~= before + json_field(
        key@,
        match value {
            Some(v) => Some(v@),
            None => None,
        },
    ));
}

/// Body of `POST .../app_deployments`: the given overrides only.
pub fn deployment_create_body(branch: Option<&str>, commit: Option<&str>, image: Option<&str>) -> (s:
    String)
    ensures
        s@ == deployment_create_body_spec(
            match branch {
                Some(v) => Some(v@),
                None => None,
            },
            match commit {
                Some(v) => Some(v@),
                None => None,
            },
            match image {
                Some(v) => Some(v@),
                None => None,
            },
        ),
{
    let mut fields: Vec<String> = Vec::new();
    assert(fields@.map_values(|p: String| p@) =~= Seq::<Seq<char>>::empty());
    push_field(&mut fields, "branch_name", branch);
    push_field(&mut fields, "commit_hash", commit);
    push_field(&mut fields, "image", image);
    let ghost b = match branch {
        Some(v) => Some(v@),
        None => None,
    };
    assert(Seq::<Seq<char>>::empty() + json_field("branch_name"@, b) =~= json_field(
        "branch_name"@,
        b,
    ));
    lit("{\"deployment\":{").concat(join_strings(&fields, ",").as_str()).concat("}}")
}

/// Body of `POST /cli/v1/infrastructure_projects`.
pub fn project_create_body(
    name: &str,
    plan_type: &str,
    datacenter_id: i64,
    organization_id: i64,
    repository_ids: &[String],
) -> (s: String)
    ensures
        s@ == project_create_body_spec(
            name@,
            plan_type@,
            datacenter_id,
            organization_id,
            repository_ids@.map_values(|r: String| r@),
        ),
{
    let ghost rs = repository_ids@.map_values(|r: String| r@);
    let mut quoted: Vec<String> = Vec::new();
    let mut i: usize = 0;
    while i < repository_ids.len()
        invariant
            i <= repository_ids@.len(),
            rs == repository_ids@.map_values(|r: String| r@),
            quoted@.len() == i,
            quoted@.map_values(|p: String| p@) == rs.take(i as int).map_values(
                |r: Seq<char>| json_quote(r),
            ),
        decreases repository_ids@.len() - i,
    {
        let ghost before = quoted@.map_values(|p: String| p@);
        let ghost prevq = quoted@;
        quoted.push(quote(repository_ids[i].as_str()));
        proof {
            let after = quoted@.map_values(|p: String| p@);
            let want = rs.take(i + 1).map_values(|r: Seq<char>| json_quote(r));
            let prev = rs.take(i as int).map_values(|r: Seq<char>| json_quote(r));
            assert(rs[i as int] == repository_ids@[i as int]@);
            assert forall|j: int| 0 <= j < i + 1 implies #[trigger] after[j] == want[j] by {
                if j < i {
                    assert(after[j] == quoted@[j]@);
                    assert(quoted@[j] == prevq[j]);
                    assert(before[j] == prevq[j]@);
                    assert(before[j] == prev[j]);
                }
            }
            assert(after =~= want);
        }
        i = i + 1;
    }
    assert(rs.take(repository_ids@.len() as int) =~= rs);
    lit("{\"project\":{\"name\":").concat(quote(name).as_str()).concat(",\"plan_type\":").concat(
        quote(plan_type).as_str(),
    ).concat(",\"datacenter_id\":").concat(fmt_i64(datacenter_id).as_str()).concat(
        ",\"organization_id\":",
    ).concat(fmt_i64(organization_id).as_str()).concat(",\"repository_ids\":[").concat(
        join_strings(&quoted, ",").as_str(),
    ).concat("]}}")
}

impl ApiClient {
    /// A client for the API at `base_url` (trailing `/` removed) that
    /// authenticates with `token` when there is one.
    pub fn new(base_url: &str, token: Option<String>, http: reqwest::Client) -> (c: ApiClient)
        ensures
            c.base_url@ == trim_slashes(base_url@),
            opt_str(c.token) == opt_str(token),
    {
        let cs = chars_of(base_url);
        let mut end: usize = cs.len();
        assert(cs@.take(cs@.len() as int) =~= cs@);
        while end > 0 && cs[end - 1] == '/'
            invariant
                end <= cs@.len(),
                trim_slashes(cs@.take(end as int)) == trim_slashes(cs@),
            decreases end,
        {
            assert(cs@.take(end as int).drop_last() =~= cs@.take(end - 1));
            end = end - 1;
        }
        proof {
            assert(cs@.take(cs@.len() as int) =~= cs@);
        }
        let base = String::from_str(base_url.substring_char(0, end));
        proof {
            assert(base@ =~= cs@.take(end as int));
        }
        ApiClient { base_url: base, token, http }
    }

    /// The error for a request to this API that never got an answer, for the
    /// given reason.
    pub fn network_error(&self, reason: String) -> (e: ApiError)
        ensures
            e@ == (ApiErrorView::Network { url: self.base_url@, reason: reason@ }),
    {
        ApiError::Network { url: self.base_url.clone(), reason }
    }

    /// The full URL of an API path.
    pub fn url(&self, path: &str) -> (s: String)
        ensures
            s@ == url_spec(self.base_url@, path@),
    {
        let starts = if path.unicode_len() > 0 {
            path.get_char(0) == '/'
        } else {
            false
        };
        if starts {
            self.base_url.clone().concat(path)
        } else {
            self.base_url.clone().concat("/").concat(path)
        }
    }

    /// The request for `method` on `path`, with a JSON `body` when given:
    /// standard headers, the bearer token when there is one, and the body's
    /// type when there is a body.
    pub fn request(&self, method: HttpMethod, path: &str, body: Option<String>) -> (r: HttpRequest)
        ensures
            r@ == request_spec(self.base_url@, opt_str(self.token), method, path@, opt_str(body)),
    {
        let token = match &self.token {
            Some(t) => Some(t),
            None => None,
        };
        build_request(&self.base_url, token, method, self.url(path), body)
    }

    /// The device-authorization poll: a `POST` of the device code that
    /// carries no bearer token.
    pub fn poll_request(&self, device_code: &str) -> (r: HttpRequest)
        ensures
            r@ == request_spec(
                self.base_url@,
                None,
                HttpMethod::Post,
                "/cli/v1/device_authorizations/poll"@,
                Some(poll_body_spec(device_code@)),
            ),
    {
        let path = device_poll_path();
        build_request(
            &self.base_url,
            None,
            HttpMethod::Post,
            self.url(path.as_str()),
            Some(poll_body(device_code)),
        )
    }
}

fn build_request(
    base_url: &String,
    token: Option<&String>,
    method: HttpMethod,
    url: String,
    body: Option<String>,
) -> (r: HttpRequest)
    ensures
        r@ == (RequestView {
            method,
            url: url@,
            headers: headers_spec(
                match token {
                    Some(t) => Some(t@),
                    None => None,
                },
                body is Some,
            ),
            body: opt_str(body),
        }),
{
    let mut headers: Vec<(String, String)> = Vec::new();
    headers.push((lit("user-agent"), user_agent()));
    headers.push((lit("accept"), lit("application/json")));
    match token {
        Some(t) => {
            headers.push((lit("authorization"), lit("Bearer ").concat(t.as_str())));
        },
        None => {},
    }
    let has_body = body.is_some();
    if has_body {
        headers.push((lit("content-type"), lit("application/json")));
    }
    let r = HttpRequest { method, url, headers, body };
    assert(r@.headers =~= headers_spec(
        match token {
            Some(t) => Some(t@),
            None => None,
        },
        has_body,
    ));
    r
}

/// What a poll answer means: approved (the body holds the token), pending, or
/// expired.
#[derive(PartialEq, Eq, Structural)]
pub enum PollStep {
    Approved,
    Pending,
    Expired,
}

/// The meaning of a poll answer with `status` and body `text`, given the
/// body's `error.code` string (empty when absent).
pub open spec fn poll_decision(status: u16, code: Seq<char>, text: Seq<char>) -> Result<
    PollStep,
    ApiErrorView,
> {
    if is_success(status) {
        Ok(PollStep::Approved)
    } else if status == 400 {
        if code == "authorization_pending"@ {
            Ok(PollStep::Pending)
        } else if code == "expired_token"@ {
            Ok(PollStep::Expired)
        } else {
            Err(ApiErrorView::Unexpected("poll error: "@ + code))
        }
    } else if status == 404 {
        Err(ApiErrorView::NotFound("Device authorization not found."@))
    } else if is_server_error(status) {
        Err(ApiErrorView::Server(status))
    } else {
        Err(ApiErrorView::Unexpected("HTTP "@ + decimal(status as nat) + " "@ + text))
    }
}

/// The meaning of a poll answer with `status` and body `text`.
pub open spec fn poll_spec(status: u16, text: Seq<char>) -> Result<PollStep, ApiErrorView> {
    poll_decision(status, or_empty(nested_string(text, "error"@, "code"@)), text)
}

/// Decides a poll answer from its status, its body's `error.code` (empty
/// when absent) and its body: pending and expired are normal answers, every
/// other failure is an error.
pub fn poll_step_for(status: u16, code: &str, text: &str) -> (r: Result<PollStep, ApiError>)
    ensures
        match r {
            Ok(step) => poll_decision(status, code@, text@) == Ok::<PollStep, ApiErrorView>(step),
            Err(e) => poll_decision(status, code@, text@) == Err::<PollStep, ApiErrorView>(e@),
        },
{
    if 200 <= status && status <= 299 {
        Ok(PollStep::Approved)
    } else if status == 400 {
        let code = lit(code);
        if code == lit("authorization_pending") {
            Ok(PollStep::Pending)
        } else if code == lit("expired_token") {
            Ok(PollStep::Expired)
        } else {
            Err(ApiError::Unexpected(lit("poll error: ").concat(code.as_str())))
        }
    } else if status == 404 {
        Err(ApiError::NotFound(lit("Device authorization not found.")))
    } else if 500 <= status && status <= 599 {
        Err(ApiError::Server(status))
    } else {
        Err(
            ApiError::Unexpected(
                lit("HTTP ").concat(fmt_u16(status).as_str()).concat(" ").concat(text),
            ),
        )
    }
}

/// Reads a poll answer without turning the normal pending and expired
/// answers into errors; other failures are errors.
pub fn classify_poll(status: u16, text: &str) -> (r: Result<PollStep, ApiError>)
    ensures
        match r {
            Ok(step) => poll_spec(status, text@) == Ok::<PollStep, ApiErrorView>(step),
            Err(e) => poll_spec(status, text@) == Err::<PollStep, ApiErrorView>(e@),
        },
{
    let code = if status == 400 {
        match nested_str(text, "error", "code") {
            Some(c) => c,
            None => String::new(),
        }
    } else {
        String::new()
    };
    poll_step_for(status, code.as_str(), text)
}

/// How a successful response body is decoded: the text to decode (`null`
/// for an empty body) and the context of a decoding failure.
pub struct DecodePlan {
    pub json: String,
    pub context: String,
}

pub fn decode_plan(text: &str) -> (p: DecodePlan)
    ensures
        text@.len() == 0 ==> p.json@ == "null"@ && p.context@ == "expected JSON body"@,
        text@.len() != 0 ==> p.json@ == text@ && p.context@ == "decoding JSON"@,
{
    if text.unicode_len() == 0 {
        DecodePlan { json: lit("null"), context: lit("expected JSON body") }
    } else {
        DecodePlan { json: lit(text), context: lit("decoding JSON") }
    }
}

/// The error for a body that could not be read or decoded.
pub fn unexpected(context: &str, detail: &str) -> (e: ApiError)
    ensures
        e@ == ApiErrorView::Unexpected(context@ + ": "@ + detail@),
{
    ApiError::Unexpected(lit(context).concat(": ").concat(detail))
}

/// The base URL of a client never ends with `/`, so that joining a path
/// never doubles the slash.
pub proof fn law_base_url_has_no_trailing_slash(s: Seq<char>)
    ensures
        trim_slashes(s).len() == 0 || trim_slashes(s).last() != '/',
    decreases s.len(),
{
    if s.len() > 0 && s.last() == '/' {
        law_base_url_has_no_trailing_slash(s.drop_last());
    }
}

/// A path reaches the same URL with or without its leading `/`.
pub proof fn law_leading_slash_optional(base: Seq<char>, path: Seq<char>)
    requires
        !starts_with_slash(path),
    ensures
        url_spec(base, "/"@ + path) == url_spec(base, path),
{
    reveal_strlit("/");
    assert(("/"@ + path)[0] == '/');
    assert(base + ("/"@ + path) =~= base + "/"@ + path);
}

/// Whether some header of `hs` is named `name`.
pub open spec fn has_header(hs: Seq<(Seq<char>, Seq<char>)>, name: Seq<char>) -> bool {
    exists|k: int| 0 <= k < hs.len() && (#[trigger] hs[k]).0 == name
}

/// Every request names the client and accepts JSON; it carries the client's
/// token as a bearer `authorization` header exactly when the client has one,
/// whatever the method and whether or not there is a body; and it declares a
/// JSON body exactly when it has one. Its method and body are those asked
/// for, and its URL is the base URL followed by the path.
pub proof fn law_request_headers(
    base: Seq<char>,
    token: Option<Seq<char>>,
    method: HttpMethod,
    path: Seq<char>,
    body: Option<Seq<char>>,
)
    ensures
        request_spec(base, token, method, path, body).method == method,
        request_spec(base, token, method, path, body).body == body,
        request_spec(base, token, method, path, body).url.take(base.len() as int) == base,
        request_spec(base, token, method, path, body).url.skip(
            request_spec(base, token, method, path, body).url.len() - path.len(),
        ) == path,
        request_spec(base, token, method, path, body).headers.contains(
            ("user-agent"@, "nvg/0.1.0"@),
        ),
        request_spec(base, token, method, path, body).headers.contains(
            ("accept"@, "application/json"@),
        ),
        token matches Some(t) ==> request_spec(base, token, method, path, body).headers.contains(
            ("authorization"@, "Bearer "@ + t),
        ),
        has_header(request_spec(base, token, method, path, body).headers, "authorization"@) <==> token
            is Some,
        body is Some ==> request_spec(base, token, method, path, body).headers.contains(
            ("content-type"@, "application/json"@),
        ),
        has_header(request_spec(base, token, method, path, body).headers, "content-type"@) <==> body
            is Some,
{
    reveal_strlit("user-agent");
    reveal_strlit("accept");
    reveal_strlit("authorization");
    reveal_strlit("content-type");
    reveal_strlit("/");
    let r = request_spec(base, token, method, path, body);
    let hs = r.headers;
    assert(hs[0] == ("user-agent"@, "nvg/0.1.0"@));
    assert(hs[1] == ("accept"@, "application/json"@));
    if starts_with_slash(path) {
        assert(r.url.take(base.len() as int) =~= base);
        assert(r.url.skip(r.url.len() - path.len()) =~= path);
    } else {
        assert(r.url =~= base + ("/"@ + path));
        assert(r.url.take(base.len() as int) =~= base);
        assert(r.url.skip(r.url.len() - path.len()) =~= path);
    }
    assert("user-agent"@[0] != "authorization"@[0]);
    assert("accept"@[1] != "authorization"@[1]);
    assert("content-type"@[0] != "authorization"@[0]);
    assert("user-agent"@[0] != "content-type"@[0]);
    assert("accept"@[0] != "content-type"@[0]);
    match token {
        Some(t) => {
            assert(hs[2] == ("authorization"@, "Bearer "@ + t));
            assert(has_header(hs, "authorization"@));
            if body is Some {
                assert(hs[3] == ("content-type"@, "application/json"@));
                assert(has_header(hs, "content-type"@));
            } else {
                assert(hs.len() == 3);
            }
        },
        None => {
            if body is Some {
                assert(hs[2] == ("content-type"@, "application/json"@));
                assert(has_header(hs, "content-type"@));
            } else {
                assert(hs.len() == 2);
            }
        },
    }
}

/// Whether `part` occurs in `s` as a run of consecutive characters.
pub open spec fn occurs_in(part: Seq<char>, s: Seq<char>) -> bool {
    exists|k: int|
        0 <= k && k + part.len() <= s.len() && #[trigger] s.subrange(k, k + part.len()) == part
}

proof fn lemma_occurs_between(a: Seq<char>, b: Seq<char>, c: Seq<char>)
    ensures
        occurs_in(b, a + b + c),
{
    let k = a.len() as int;
    assert((a + b + c).subrange(k, k + b.len()) =~= b);
}

proof fn lemma_occurs_widen(part: Seq<char>, a: Seq<char>, b: Seq<char>, c: Seq<char>)
    requires
        occurs_in(part, b),
    ensures
        occurs_in(part, a + b + c),
{
    let k = choose|k: int|
        0 <= k && k + part.len() <= b.len() && #[trigger] b.subrange(k, k + part.len()) == part;
    let m = a.len() + k;
    assert((a + b + c).subrange(m, m + part.len()) =~= b.subrange(k, k + part.len()));
}

proof fn lemma_join_holds(parts: Seq<Seq<char>>, sep: Seq<char>, i: int)
    requires
        0 <= i < parts.len(),
    ensures
        occurs_in(parts[i], join(parts, sep)),
    decreases parts.len(),
{
    let e = Seq::<char>::empty();
    if parts.len() == 1 {
        lemma_occurs_between(e, parts[0], e);
        assert(e + parts[0] + e =~= join(parts, sep));
    } else if i == parts.len() - 1 {
        lemma_occurs_between(join(parts.drop_last(), sep) + sep, parts.last(), e);
        assert(join(parts.drop_last(), sep) + sep + parts.last() + e =~= join(parts, sep));
    } else {
        lemma_join_holds(parts.drop_last(), sep, i);
        assert(parts.drop_last()[i] == parts[i]);
        lemma_occurs_widen(parts[i], e, join(parts.drop_last(), sep), sep + parts.last());
        assert(e + join(parts.drop_last(), sep) + (sep + parts.last()) =~= join(parts, sep));
    }
}

proof fn lemma_field_occurs(
    before: Seq<char>,
    fields: Seq<Seq<char>>,
    after: Seq<char>,
    i: int,
)
    requires
        0 <= i < fields.len(),
    ensures
        occurs_in(fields[i], before + join(fields, ","@) + after),
{
    lemma_join_holds(fields, ","@, i);
    lemma_occurs_widen(fields[i], before, join(fields, ","@), after);
}

/// The body that creates a deployment sends each override that is given as
/// a member of its own, with the value as a JSON string: the branch as
/// `branch_name`, the commit as `commit_hash`, the image as `image`. With no
/// override the deployment object is empty.
pub proof fn law_deployment_body_carries_overrides(
    branch: Option<Seq<char>>,
    commit: Option<Seq<char>>,
    image: Option<Seq<char>>,
)
    ensures
        branch matches Some(x) ==> occurs_in(
            "\"branch_name\":"@ + json_quote(x),
            deployment_create_body_spec(branch, commit, image),
        ),
        commit matches Some(x) ==> occurs_in(
            "\"commit_hash\":"@ + json_quote(x),
            deployment_create_body_spec(branch, commit, image),
        ),
        image matches Some(x) ==> occurs_in(
            "\"image\":"@ + json_quote(x),
            deployment_create_body_spec(branch, commit, image),
        ),
        branch is None && commit is None && image is None ==> deployment_create_body_spec(
            branch,
            commit,
            image,
        ) == "{\"deployment\":{}}"@,
{
    let fb = json_field("branch_name"@, branch);
    let fc = json_field("commit_hash"@, commit);
    let fi = json_field("image"@, image);
    let fields = fb + fc + fi;
    let pre = "{\"deployment\":{"@;
    let post = "}}"@;
    if let Some(x) = branch {
        lemma_field_occurs(pre, fields, post, 0);
        assert(fields[0] == "\"branch_name\":"@ + json_quote(x)) by {
            reveal_strlit("\"");
            reveal_strlit("\":");
            reveal_strlit("branch_name");
            reveal_strlit("\"branch_name\":");
            assert("\""@ + "branch_name"@ + "\":"@ =~= "\"branch_name\":"@);
            assert(fields[0] =~= "\"branch_name\":"@ + json_quote(x));
        }
    }
    if let Some(x) = commit {
        let i = fb.len() as int;
        lemma_field_occurs(pre, fields, post, i);
        assert(fields[i] == "\"commit_hash\":"@ + json_quote(x)) by {
            reveal_strlit("\"");
            reveal_strlit("\":");
            reveal_strlit("commit_hash");
            reveal_strlit("\"commit_hash\":");
            assert("\""@ + "commit_hash"@ + "\":"@ =~= "\"commit_hash\":"@);
            assert(fields[i] =~= "\"commit_hash\":"@ + json_quote(x));
        }
    }
    if let Some(x) = image {
        let i = (fb.len() + fc.len()) as int;
        lemma_field_occurs(pre, fields, post, i);
        assert(fields[i] == "\"image\":"@ + json_quote(x)) by {
            reveal_strlit("\"");
            reveal_strlit("\":");
            reveal_strlit("image");
            reveal_strlit("\"image\":");
            assert("\""@ + "image"@ + "\":"@ =~= "\"image\":"@);
            assert(fields[i] =~= "\"image\":"@ + json_quote(x));
        }
    }
    if branch is None && commit is None && image is None {
        assert(fields =~= Seq::<Seq<char>>::empty());
        assert(pre + join(fields, ","@) + post == "{\"deployment\":{}}"@) by {
            reveal_strlit("{\"deployment\":{");
            reveal_strlit("}}");
            reveal_strlit("{\"deployment\":{}}");
            assert(pre + join(fields, ","@) + post =~= "{\"deployment\":{}}"@);
        }
    }
}

/// The body that creates a token sends the name as a JSON string and the
/// expiry as a JSON string, or `null` when there is none.
pub proof fn law_token_body_carries_fields(name: Seq<char>, expires_at: Option<Seq<char>>)
    ensures
        occurs_in("\"name\":"@ + json_quote(name), token_create_body_spec(name, expires_at)),
        occurs_in(
            "\"expires_at\":"@ + (match expires_at {
                Some(e) => json_quote(e),
                None => "null"@,
            }),
            token_create_body_spec(name, expires_at),
        ),
{
    reveal_strlit("{\"token\":{\"expires_at\":");
    reveal_strlit("{\"token\":{");
    reveal_strlit("\"expires_at\":");
    reveal_strlit(",\"name\":");
    reveal_strlit(",");
    reveal_strlit("\"name\":");
    let x = match expires_at {
        Some(e) => json_quote(e),
        None => "null"@,
    };
    let b = token_create_body_spec(name, expires_at);
    lemma_occurs_between("{\"token\":{\"expires_at\":"@ + x + ","@, "\"name\":"@ + json_quote(name), "}}"@);
    assert(b =~= ("{\"token\":{\"expires_at\":"@ + x + ","@) + ("\"name\":"@ + json_quote(name))
        + "}}"@);
    lemma_occurs_between(
        "{\"token\":{"@,
        "\"expires_at\":"@ + x,
        ",\"name\":"@ + json_quote(name) + "}}"@,
    );
    assert(b =~= "{\"token\":{"@ + ("\"expires_at\":"@ + x) + (",\"name\":"@ + json_quote(name)
        + "}}"@));
}

/// The poll body sends the device code as a JSON string.
pub proof fn law_poll_body_carries_code(device_code: Seq<char>)
    ensures
        occurs_in("\"device_code\":"@ + json_quote(device_code), poll_body_spec(device_code)),
{
    reveal_strlit("{\"device_code\":");
    reveal_strlit("{");
    reveal_strlit("\"device_code\":");
    lemma_occurs_between("{"@, "\"device_code\":"@ + json_quote(device_code), "}"@);
    assert(poll_body_spec(device_code) =~= "{"@ + ("\"device_code\":"@ + json_quote(device_code))
        + "}"@);
}

/// The body that creates a project sends the name and the plan as JSON
/// strings, the datacenter and the organization as numbers, and every
/// repository id given, as a JSON string, in its list.
pub proof fn law_project_body_carries_fields(
    name: Seq<char>,
    plan_type: Seq<char>,
    datacenter_id: i64,
    organization_id: i64,
    repository_ids: Seq<Seq<char>>,
)
    ensures
        occurs_in(
            "\"name\":"@ + json_quote(name),
            project_create_body_spec(name, plan_type, datacenter_id, organization_id, repository_ids),
        ),
        occurs_in(
            "\"plan_type\":"@ + json_quote(plan_type),
            project_create_body_spec(name, plan_type, datacenter_id, organization_id, repository_ids),
        ),
        occurs_in(
            "\"datacenter_id\":"@ + decimal_int(datacenter_id as int),
            project_create_body_spec(name, plan_type, datacenter_id, organization_id, repository_ids),
        ),
        occurs_in(
            "\"organization_id\":"@ + decimal_int(organization_id as int),
            project_create_body_spec(name, plan_type, datacenter_id, organization_id, repository_ids),
        ),
        forall|j: int|
            0 <= j < repository_ids.len() ==> occurs_in(
                json_quote(#[trigger] repository_ids[j]),
                project_create_body_spec(
                    name,
                    plan_type,
                    datacenter_id,
                    organization_id,
                    repository_ids,
                ),
            ),
{
    let b = project_create_body_spec(name, plan_type, datacenter_id, organization_id, repository_ids);
    let qn = json_quote(name);
    let qp = json_quote(plan_type);
    let dd = decimal_int(datacenter_id as int);
    let dor = decimal_int(organization_id as int);
    let qs = repository_ids.map_values(|r: Seq<char>| json_quote(r));
    let tail = ",\"repository_ids\":["@ + join(qs, ","@) + "]}}"@;
    assert(occurs_in("\"name\":"@ + qn, b)) by {
        reveal_strlit("{\"project\":{\"name\":");
        reveal_strlit("{\"project\":{");
        reveal_strlit("\"name\":");
        let c = ",\"plan_type\":"@ + qp + ",\"datacenter_id\":"@ + dd + ",\"organization_id\":"@ + dor
            + tail;
        lemma_occurs_between("{\"project\":{"@, "\"name\":"@ + qn, c);
        assert(b =~= "{\"project\":{"@ + ("\"name\":"@ + qn) + c);
    }
    assert(occurs_in("\"plan_type\":"@ + qp, b)) by {
        reveal_strlit(",\"plan_type\":");
        reveal_strlit(",");
        reveal_strlit("\"plan_type\":");
        let a = "{\"project\":{\"name\":"@ + qn + ","@;
        let c = ",\"datacenter_id\":"@ + dd + ",\"organization_id\":"@ + dor + tail;
        lemma_occurs_between(a, "\"plan_type\":"@ + qp, c);
        assert(b =~= a + ("\"plan_type\":"@ + qp) + c);
    }
    assert(occurs_in("\"datacenter_id\":"@ + dd, b)) by {
        reveal_strlit(",\"datacenter_id\":");
        reveal_strlit(",");
        reveal_strlit("\"datacenter_id\":");
        let a = "{\"project\":{\"name\":"@ + qn + ",\"plan_type\":"@ + qp + ","@;
        let c = ",\"organization_id\":"@ + dor + tail;
        lemma_occurs_between(a, "\"datacenter_id\":"@ + dd, c);
        assert(b =~= a + ("\"datacenter_id\":"@ + dd) + c);
    }
    assert(occurs_in("\"organization_id\":"@ + dor, b)) by {
        reveal_strlit(",\"organization_id\":");
        reveal_strlit(",");
        reveal_strlit("\"organization_id\":");
        let a = "{\"project\":{\"name\":"@ + qn + ",\"plan_type\":"@ + qp + ",\"datacenter_id\":"@
            + dd + ","@;
        lemma_occurs_between(a, "\"organization_id\":"@ + dor, tail);
        assert(b =~= a + ("\"organization_id\":"@ + dor) + tail);
    }
    assert forall|j: int| 0 <= j < repository_ids.len() implies occurs_in(
        json_quote(#[trigger] repository_ids[j]),
        b,
    ) by {
        let a = "{\"project\":{\"name\":"@ + qn + ",\"plan_type\":"@ + qp + ",\"datacenter_id\":"@
            + dd + ",\"organization_id\":"@ + dor + ",\"repository_ids\":["@;
        lemma_field_occurs(a, qs, "]}}"@, j);
        assert(qs[j] == json_quote(repository_ids[j]));
        assert(b =~= a + join(qs, ","@) + "]}}"@);
    }
}

proof fn lemma_join_first(parts: Seq<Seq<char>>, sep: Seq<char>)
    requires
        parts.len() > 0,
    ensures
        join(parts, sep).len() >= parts[0].len(),
        join(parts, sep).take(parts[0].len() as int) == parts[0],
    decreases parts.len(),
{
    if parts.len() > 1 {
        lemma_join_first(parts.drop_last(), sep);
        assert(parts.drop_last()[0] == parts[0]);
        let j = join(parts.drop_last(), sep);
        assert((j + sep + parts.last()).take(parts[0].len() as int) =~= j.take(
            parts[0].len() as int,
        ));
    }
}

proof fn lemma_query_holds(path: Seq<char>, params: Seq<Seq<char>>)
    ensures
        with_query_spec(path, params).take(path.len() as int) == path,
        params.len() == 0 ==> with_query_spec(path, params) == path,
        params.len() > 0 ==> with_query_spec(path, params).subrange(
            path.len() as int,
            (path.len() + 1 + params[0].len()) as int,
        ) == "?"@ + params[0],
        forall|i: int| 0 <= i < params.len() ==> occurs_in(#[trigger] params[i], with_query_spec(path, params)),
{
    reveal_strlit("?");
    let q = with_query_spec(path, params);
    if params.len() > 0 {
        let j = join(params, "&"@);
        assert(q =~= path + ("?"@ + j));
        assert(q.take(path.len() as int) =~= path);
        lemma_join_first(params, "&"@);
        assert(q.subrange(path.len() as int, (path.len() + 1 + params[0].len()) as int) =~= "?"@ + params[0]);
        assert forall|i: int| 0 <= i < params.len() implies occurs_in(#[trigger] params[i], q) by {
            lemma_join_holds(params, "&"@, i);
            lemma_occurs_widen(params[i], path + "?"@, j, Seq::empty());
            assert(path + "?"@ + j + Seq::<char>::empty() =~= q);
        }
    } else {
        assert(q.take(path.len() as int) =~= path);
    }
}

proof fn lemma_two_params(
    base: Seq<char>,
    n1: Seq<char>,
    v1: Option<Seq<char>>,
    n2: Seq<char>,
    v2: Option<Seq<char>>,
)
    ensures
        with_query_spec(base, param_spec(n1, v1) + param_spec(n2, v2)).take(base.len() as int)
            == base,
        v1 is None && v2 is None ==> with_query_spec(base, param_spec(n1, v1) + param_spec(n2, v2))
            == base,
        v1 matches Some(x) ==> with_query_spec(
            base,
            param_spec(n1, v1) + param_spec(n2, v2),
        ).subrange(base.len() as int, (base.len() + 1 + (n1 + "="@ + x).len()) as int) == "?"@
            + (n1 + "="@ + x),
        v2 matches Some(y) ==> occurs_in(
            n2 + "="@ + y,
            with_query_spec(base, param_spec(n1, v1) + param_spec(n2, v2)),
        ),
{
    let p1 = param_spec(n1, v1);
    let p2 = param_spec(n2, v2);
    let params = p1 + p2;
    lemma_query_holds(base, params);
    if let Some(x) = v1 {
        assert(params[0] == n1 + "="@ + x);
    }
    if let Some(y) = v2 {
        assert(params[p1.len() as int] == n2 + "="@ + y);
    }
    if v1 is None && v2 is None {
        assert(params =~= Seq::<Seq<char>>::empty());
    }
}

/// The path that lists deployments is the deployments path of the app, with
/// a query only when a page or a page size is asked for: the page first, as
/// `page=N`, and the page size as `per_page=N`.
#[verifier::rlimit(60)]
pub proof fn law_deployments_list_query(
    project_id: i64,
    app_id: i64,
    page: Option<u32>,
    per_page: Option<u32>,
)
    ensures
        deployments_list_path_spec(project_id, app_id, page, per_page).take(
            deployments_path_spec(project_id, app_id).len() as int,
        ) == deployments_path_spec(project_id, app_id),
        page is None && per_page is None ==> deployments_list_path_spec(
            project_id,
            app_id,
            page,
            per_page,
        ) == deployments_path_spec(project_id, app_id),
        page matches Some(n) ==> deployments_list_path_spec(project_id, app_id, page, per_page).subrange(
            deployments_path_spec(project_id, app_id).len() as int,
            (deployments_path_spec(project_id, app_id).len() + ("?page="@ + decimal(n as nat)).len())
                as int,
        ) == "?page="@ + decimal(n as nat),
        per_page matches Some(m) ==> occurs_in(
            "per_page="@ + decimal(m as nat),
            deployments_list_path_spec(project_id, app_id, page, per_page),
        ),
{
    reveal_strlit("?");
    let base = deployments_path_spec(project_id, app_id);
    lemma_two_params(base, "page"@, opt_decimal(page), "per_page"@, opt_decimal(per_page));
    if let Some(n) = page {
        assert("?"@ + ("page"@ + "="@ + decimal(n as nat)) == "?page="@ + decimal(n as nat)) by {
            reveal_strlit("?");
            reveal_strlit("=");
            reveal_strlit("page");
            reveal_strlit("?page=");
            assert("?"@ + ("page"@ + "="@ + decimal(n as nat)) =~= "?page="@ + decimal(n as nat));
        }
        let q = deployments_list_path_spec(project_id, app_id, page, per_page);
        assert(opt_decimal(page) == Some(decimal(n as nat)));
        assert(q.subrange(
            base.len() as int,
            (base.len() + 1 + ("page"@ + "="@ + decimal(n as nat)).len()) as int,
        ) == "?"@ + ("page"@ + "="@ + decimal(n as nat)));
    }
    if let Some(m) = per_page {
        assert("per_page"@ + "="@ + decimal(m as nat) == "per_page="@ + decimal(m as nat)) by {
            reveal_strlit("=");
            reveal_strlit("per_page");
            reveal_strlit("per_page=");
            assert("per_page"@ + "="@ + decimal(m as nat) =~= "per_page="@ + decimal(m as nat));
        }
    }
}

/// The path that lists recent commits is the app's deployments path and
/// `/commits`, with a query only when a branch or a limit is given: the
/// branch first, as `branch=B`, and the limit as `limit=N`.
#[verifier::rlimit(60)]
pub proof fn law_deployments_commits_query(
    project_id: i64,
    app_id: i64,
    branch: Option<Seq<char>>,
    limit: Option<u32>,
)
    ensures
        deployments_commits_path_spec(project_id, app_id, branch, limit).take(
            (deployments_path_spec(project_id, app_id) + "/commits"@).len() as int,
        ) == deployments_path_spec(project_id, app_id) + "/commits"@,
        branch is None && limit is None ==> deployments_commits_path_spec(
            project_id,
            app_id,
            branch,
            limit,
        ) == deployments_path_spec(project_id, app_id) + "/commits"@,
        branch matches Some(b) ==> deployments_commits_path_spec(project_id, app_id, branch, limit).subrange(
            (deployments_path_spec(project_id, app_id) + "/commits"@).len() as int,
            ((deployments_path_spec(project_id, app_id) + "/commits"@).len() + ("?branch="@
                + b).len()) as int,
        ) == "?branch="@ + b,
        limit matches Some(n) ==> occurs_in(
            "limit="@ + decimal(n as nat),
            deployments_commits_path_spec(project_id, app_id, branch, limit),
        ),
{
    reveal_strlit("?");
    let base = deployments_path_spec(project_id, app_id) + "/commits"@;
    lemma_two_params(base, "branch"@, branch, "limit"@, opt_decimal(limit));
    if let Some(b) = branch {
        assert("?"@ + ("branch"@ + "="@ + b) == "?branch="@ + b) by {
            reveal_strlit("?");
            reveal_strlit("=");
            reveal_strlit("branch");
            reveal_strlit("?branch=");
            assert("?"@ + ("branch"@ + "="@ + b) =~= "?branch="@ + b);
        }
        let q = deployments_commits_path_spec(project_id, app_id, branch, limit);
        assert(q.subrange(base.len() as int, (base.len() + 1 + ("branch"@ + "="@ + b).len()) as int)
            == "?"@ + ("branch"@ + "="@ + b));
    }
    if let Some(n) = limit {
        assert("limit"@ + "="@ + decimal(n as nat) == "limit="@ + decimal(n as nat)) by {
            reveal_strlit("=");
            reveal_strlit("limit");
            reveal_strlit("limit=");
            assert("limit"@ + "="@ + decimal(n as nat) =~= "limit="@ + decimal(n as nat));
        }
    }
}

} // verus!
