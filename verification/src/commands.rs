//! The decisions of the commands: which action a command line asks for, who
//! may run it, and what each step of the polling loops does next. The caller
//! performs the requests, the waiting and the printing.

use vstd::prelude::*;
use vstd::string::StringSliceAdditionalSpecFns;
use crate::api::{ApiClient, trim_slashes};
use crate::cli::{
    AuthCommand, Command, DcsCommand, NestedProjectCommand, NestedSpec, OrgsCommand,
    ProjectsCommand, TokensCommand, nested_spec, opt_str, parse_nested, words,
};
use crate::config::{Config, ResolvedProfile};
use crate::error::{ApiError, ApiErrorView};
use crate::models::{ApiToken, AppDeployment, DeploymentLogs, InfrastructureProject, PollOutcome, PollTokenPayload, ProjectCreateResult, Viewer};
use crate::text::{debug_quoted, debug_str, decimal_int, fmt_i64, parse_i64, parse_i64_spec};

verus! {

/// Shared per-invocation context: resolved profile, API client, and global
/// flags.
pub struct Context {
    pub profile: ResolvedProfile,
    pub api: ApiClient,
    pub json: bool,
}

impl Context {
    /// The context of a command run with `cfg`, the `--profile` override and
    /// `--json`; `http` carries the requests.
    pub fn build(cfg: &Config, profile_override: Option<&str>, json: bool, http: reqwest::Client) -> (c:
        Context)
        ensures
            c.profile@ == cfg@.resolve(
                match profile_override {
                    Some(s) => Some(s@),
                    None => None,
                },
            ),
            c.api.base_url@ == trim_slashes(c.profile.api_url@),
            opt_str(c.api.token) == c.profile@.token,
            c.json == json,
    {
        let profile = cfg.resolve(profile_override);
        let token = match &profile.token {
            Some(t) => Some(t.clone()),
            None => None,
        };
        let api = ApiClient::new(profile.api_url.as_str(), token, http);
        Context { profile, api, json }
    }
}

/// Commands that talk to the API need a token.
pub fn require_auth(profile: &ResolvedProfile) -> (r: Result<(), ApiError>)
    ensures
        r is Ok <==> profile.token is Some,
        r matches Err(e) ==> e@ == ApiErrorView::Unauthorized,
{
    match &profile.token {
        Some(_) => Ok(()),
        None => Err(ApiError::Unauthorized),
    }
}

/// An argument that should have been a numeric id: which one, and what was
/// given.
pub struct IdError {
    pub label: String,
    pub input: String,
}

impl IdError {
    /// What the user is told, such as `project_id must be a numeric id (got "v3")`.
    pub fn message(&self) -> (s: String)
        ensures
            s@ == self.label@ + " must be a numeric id (got "@ + debug_quoted(self.input@)
                + ")"@,
    {
        self.label.clone().concat(" must be a numeric id (got ").concat(
            debug_str(self.input.as_str()).as_str(),
        ).concat(")")
    }
}

/// Reads a numeric id argument (`project_id`, `--org`, ...).
pub fn parse_id(s: &str, label: &str) -> (r: Result<i64, IdError>)
    ensures
        match r {
            Ok(id) => parse_i64_spec(s@) == Some(id),
            Err(e) => parse_i64_spec(s@) is None && e.label@ == label@ && e.input@ == s@,
        },
{
    match parse_i64(s) {
        Some(id) => Ok(id),
        None => Err(IdError { label: String::from_str(label), input: String::from_str(s) }),
    }
}

/// A listed id reads back as the same id: every id that a table shows can be
/// given back to a command.
pub proof fn law_listed_id_parses_back(id: i64)
    ensures
        parse_i64_spec(decimal_int(id as int)) == Some(id),
{
    crate::text::lemma_parse_decimal_int(id);
}

// ---------------------------------------------------------------------------
// Deployment logs
// ---------------------------------------------------------------------------

pub open spec fn terminal_status_spec(status: Option<Seq<char>>) -> bool {
    match status {
        Some(s) => s == "completed"@ || s == "error"@ || s == "canceled"@ || s == "cancelled"@ || s
            == "failed"@,
        None => false,
    }
}

fn is_lit(s: &str, lit: &str) -> (b: bool)
    ensures
        b == (s@ == lit@),
{
    String::from_str(s) == String::from_str(lit)
}

/// Whether a deployment in `status` has finished, so that its log will not
/// grow any more.
pub fn is_terminal_status(status: Option<&str>) -> (b: bool)
    ensures
        b == terminal_status_spec(
            match status {
                Some(s) => Some(s@),
                None => None,
            },
        ),
{
    match status {
        Some(s) => is_lit(s, "completed") || is_lit(s, "error") || is_lit(s, "canceled") || is_lit(
            s,
            "cancelled",
        ) || is_lit(s, "failed"),
        None => false,
    }
}

/// Whether `logs --follow` keeps polling after the first fetch.
pub fn should_follow(follow: bool, status: Option<&str>) -> (b: bool)
    ensures
        b == (follow && !terminal_status_spec(
            match status {
                Some(s) => Some(s@),
                None => None,
            },
        )),
{
    follow && !is_terminal_status(status)
}

pub open spec fn is_prefix(p: Seq<u8>, s: Seq<u8>) -> bool {
    p.len() <= s.len() && s.take(p.len() as int) == p
}

/// While following a log: `printed` bytes are on screen, `initial` is the
/// first fetch and `next` the latest. The answer is the offset in `next` from
/// which to print, if anything is to be printed.
pub open spec fn follow_emit_spec(initial: Seq<u8>, printed: nat, next: Seq<u8>) -> Option<nat> {
    let seen = if printed <= initial.len() {
        printed
    } else {
        initial.len()
    };
    if next.len() > printed && is_prefix(initial.take(seen as int), next) {
        Some(printed)
    } else if next != initial && next.len() != printed && next.len() > printed {
        Some(printed)
    } else {
        None
    }
}

fn bytes_prefix(p: &[u8], n: usize, s: &[u8]) -> (b: bool)
    requires
        n <= p@.len(),
    ensures
        b == is_prefix(p@.take(n as int), s@),
{
    if n > s.len() {
        return false;
    }
    let mut i: usize = 0;
    while i < n
        invariant
            n <= p@.len(),
            n <= s@.len(),
            i <= n,
            forall|k: int| 0 <= k < i ==> s@[k] == p@[k],
        decreases n - i,
    {
        if p[i] != s[i] {
            assert(s@.take(n as int)[i as int] != p@.take(n as int)[i as int]);
            return false;
        }
        i = i + 1;
    }
    assert(s@.take(n as int) =~= p@.take(n as int));
    true
}

fn bytes_eq(a: &[u8], b: &[u8]) -> (r: bool)
    ensures
        r == (a@ == b@),
{
    if a.len() != b.len() {
        return false;
    }
    let r = bytes_prefix(a, a.len(), b);
    assert(a@.take(a@.len() as int) =~= a@);
    assert(r ==> b@ =~= a@);
    r
}

/// The part of the latest log text to print, given as a byte offset into
/// `next` (the caller slices and prints `next[offset..]`, then counts
/// `next.len()` bytes as printed).
pub fn follow_emit(initial: &str, printed: usize, next: &str) -> (r: Option<usize>)
    ensures
        match r {
            Some(k) => follow_emit_spec(initial.spec_bytes(), printed as nat, next.spec_bytes())
                == Some(k as nat),
            None => follow_emit_spec(initial.spec_bytes(), printed as nat, next.spec_bytes())
                is None,
        },
{
    let a = initial.as_bytes();
    let b = next.as_bytes();
    let seen = if printed <= a.len() {
        printed
    } else {
        a.len()
    };
    if b.len() > printed && bytes_prefix(a, seen, b) {
        Some(printed)
    } else if !bytes_eq(b, a) && b.len() != printed && b.len() > printed {
        Some(printed)
    } else {
        None
    }
}

/// Once at least the first fetch is on screen, following prints exactly
/// when the log has grown past what is on screen, and only what is new.
pub proof fn law_follow_prints_only_growth(initial: Seq<u8>, printed: nat, next: Seq<u8>)
    requires
        printed >= initial.len(),
    ensures
        follow_emit_spec(initial, printed, next) is Some <==> next.len() > printed,
        follow_emit_spec(initial, printed, next) matches Some(k) ==> k == printed,
{
    if next.len() > printed {
        assert(initial.take(initial.len() as int) =~= initial);
    }
}

/// What one poll of a followed log leads to.
pub struct FollowDecision {
    /// The byte offset into the fetched log from which to print, if anything.
    pub emit_from: Option<usize>,
    /// How many bytes are on screen afterwards.
    pub printed: usize,
    /// Whether following ends here.
    pub stop: bool,
}

pub open spec fn opt_view(o: Option<String>) -> Option<Seq<char>> {
    match o {
        Some(s) => Some(s@),
        None => None,
    }
}

/// One poll of `logs --follow`: `printed` bytes are on screen and `initial`
/// was the first fetch. A failed fetch changes nothing and keeps polling; a
/// successful one prints what is new (then all of the fetched log counts as
/// printed) and stops once the deployment has finished.
pub fn follow_step(
    initial: &str,
    printed: usize,
    outcome: &Result<DeploymentLogs, ApiError>,
) -> (d: FollowDecision)
    ensures
        match outcome {
            Err(_) => d.emit_from is None && d.printed == printed && !d.stop,
            Ok(next) => {
                &&& match follow_emit_spec(
                    initial.spec_bytes(),
                    printed as nat,
                    vstd::utf8::encode_utf8(next.log_string@),
                ) {
                    Some(k) => d.emit_from == Some(k as usize) && d.printed
                        == vstd::utf8::encode_utf8(next.log_string@).len(),
                    None => d.emit_from is None && d.printed == printed,
                }
                &&& d.stop == terminal_status_spec(opt_view(next.status))
            },
        },
{
    match outcome {
        Err(_) => FollowDecision { emit_from: None, printed, stop: false },
        Ok(next) => {
            let emit_from = follow_emit(initial, printed, next.log_string.as_str());
            let now = match emit_from {
                Some(_) => next.log_string.as_str().as_bytes().len(),
                None => printed,
            };
            let status = match &next.status {
                Some(st) => Some(st.as_str()),
                None => None,
            };
            FollowDecision { emit_from, printed: now, stop: is_terminal_status(status) }
        },
    }
}

// ---------------------------------------------------------------------------
// Device login
// ---------------------------------------------------------------------------

/// The first wait of the login loop, in seconds.
pub open spec fn first_poll_interval_spec(server_interval: u64) -> u64 {
    if server_interval >= 1 {
        server_interval
    } else {
        1
    }
}

/// Seconds between polls at the start: the server's interval, at least 1.
pub fn first_poll_interval(server_interval: u64) -> (s: u64)
    ensures
        s == first_poll_interval_spec(server_interval),
{
    if server_interval >= 1 {
        server_interval
    } else {
        1
    }
}

/// What the login loop does after a poll.
pub enum LoginStep {
    /// Approved: save this token.
    Approved(PollTokenPayload),
    /// Not yet: poll again after waiting this many seconds.
    Retry { interval_secs: u64 },
    /// The device code expired before approval.
    Expired,
    /// The poll failed.
    Failed(ApiError),
}

pub open spec fn is_network(e: ApiError) -> bool {
    e is Network
}

/// The wait after a network failure: one second more, at most ten, but
/// never less than the server's interval `server_interval` (a minimum, as in
/// RFC 8628).
pub open spec fn backoff_spec(interval_secs: u64, server_interval: u64) -> u64 {
    let slower: u64 = if interval_secs < 10 {
        (interval_secs + 1) as u64
    } else {
        10
    };
    if slower >= server_interval {
        slower
    } else {
        server_interval
    }
}

/// The next step of the login loop after a poll answer, waiting
/// `interval_secs` between polls for a server that asked for
/// `server_interval`: approval ends the loop with the token, a pending answer
/// polls again at the same pace, a network failure polls again one second
/// slower (at most every ten seconds, but never faster than the server
/// asked), expiry and every other failure end the loop.
pub fn login_step(
    outcome: Result<PollOutcome, ApiError>,
    interval_secs: u64,
    server_interval: u64,
) -> (s: LoginStep)
    ensures
        match outcome {
            Ok(PollOutcome::Approved(tok)) => s == LoginStep::Approved(tok),
            Ok(PollOutcome::Pending) => s == LoginStep::Retry { interval_secs },
            Ok(PollOutcome::Expired) => s == LoginStep::Expired,
            Err(e) => if is_network(e) {
                s == LoginStep::Retry {
                    interval_secs: backoff_spec(interval_secs, server_interval),
                }
            } else {
                s == LoginStep::Failed(e)
            },
        },
{
    match outcome {
        Ok(PollOutcome::Approved(tok)) => LoginStep::Approved(tok),
        Ok(PollOutcome::Pending) => LoginStep::Retry { interval_secs },
        Ok(PollOutcome::Expired) => LoginStep::Expired,
        Err(ApiError::Network { .. }) => {
            let slower = if interval_secs < 10 {
                interval_secs + 1
            } else {
                10
            };
            let next = if slower >= server_interval {
                slower
            } else {
                server_interval
            };
            LoginStep::Retry { interval_secs: next }
        },
        Err(e) => LoginStep::Failed(e),
    }
}

/// The login loop never polls faster than the server asked: the first wait
/// is at least the server's interval (and at least a second), and from a wait
/// no shorter than that, a network failure never brings it below the
/// server's interval; nor does a network failure slow it beyond ten seconds
/// or the server's interval, whichever is longer.
pub proof fn law_login_wait_never_below_server_interval(interval_secs: u64, server_interval: u64)
    requires
        interval_secs >= server_interval,
    ensures
        first_poll_interval_spec(server_interval) >= server_interval,
        first_poll_interval_spec(server_interval) >= 1,
        backoff_spec(interval_secs, server_interval) >= server_interval,
        backoff_spec(interval_secs, server_interval) >= 1,
        backoff_spec(interval_secs, server_interval) <= if server_interval > 10 {
            server_interval
        } else {
            10
        },
{
}

pub fn login_expired_message() -> (s: String)
    ensures
        s@ == "device authorization expired before approval"@,
{
    String::from_str("device authorization expired before approval")
}

// ---------------------------------------------------------------------------
// Logout and status
// ---------------------------------------------------------------------------

/// The first token in `tokens` marked as the current one.
pub open spec fn current_token_spec(tokens: Seq<ApiToken>) -> Option<int>
    decreases tokens.len(),
{
    if tokens.len() == 0 {
        None
    } else {
        match current_token_spec(tokens.drop_last()) {
            Some(i) => Some(i),
            None => if tokens.last().current {
                Some(tokens.len() - 1)
            } else {
                None
            },
        }
    }
}

/// The id of the token that `logout` revokes: the first one marked current.
pub fn current_token_id(tokens: &Vec<ApiToken>) -> (r: Option<i64>)
    ensures
        match current_token_spec(tokens@) {
            Some(i) => r == Some(tokens@[i].id),
            None => r is None,
        },
{
    let n = tokens.len();
    let mut i: usize = 0;
    while i < n
        invariant
            n == tokens@.len(),
            i <= n,
            current_token_spec(tokens@.take(i as int)) is None,
        decreases n - i,
    {
        assert(tokens@.take(i + 1).drop_last() =~= tokens@.take(i as int));
        if tokens[i].current {
            proof {
                lemma_current_token_prefix(tokens@, i + 1);
            }
            return Some(tokens[i].id);
        }
        i = i + 1;
    }
    assert(tokens@.take(n as int) =~= tokens@);
    None
}

proof fn lemma_current_token_prefix(tokens: Seq<ApiToken>, k: int)
    requires
        0 < k <= tokens.len(),
        current_token_spec(tokens.take(k - 1)) is None,
        tokens[k - 1].current,
    ensures
        current_token_spec(tokens) == Some(k - 1),
    decreases tokens.len() - k,
{
    assert(tokens.take(k).drop_last() =~= tokens.take(k - 1));
    lemma_current_token_prefix_grow(tokens, k, k - 1);
}

proof fn lemma_current_token_prefix_grow(tokens: Seq<ApiToken>, k: int, j: int)
    requires
        0 < k <= tokens.len(),
        current_token_spec(tokens.take(k)) == Some(j),
    ensures
        current_token_spec(tokens) == Some(j),
    decreases tokens.len() - k,
{
    if k == tokens.len() {
        assert(tokens.take(k) =~= tokens);
    } else {
        assert(tokens.take(k + 1).drop_last() =~= tokens.take(k));
        lemma_current_token_prefix_grow(tokens, k + 1, j);
    }
}

/// What `logout` prints.
pub fn logout_message(revoked: Option<i64>) -> (s: String)
    ensures
        s@ == match revoked {
            Some(id) => "Logged out (revoked token "@ + decimal_int(id as int) + ")."@,
            None => "Logged out."@,
        },
{
    match revoked {
        Some(id) => String::from_str("Logged out (revoked token ").concat(fmt_i64(id).as_str()).concat(
            ").",
        ),
        None => String::from_str("Logged out."),
    }
}

/// What `auth status` reports.
pub struct StatusReport {
    pub profile: String,
    pub api_url: String,
    pub authenticated: bool,
    pub viewer: Option<Viewer>,
}

/// The status of a profile; `viewer` is who the API says the token belongs
/// to, absent when there is no token.
pub fn status_report(profile: &ResolvedProfile, viewer: Option<Viewer>) -> (r: StatusReport)
    ensures
        r.profile@ == profile.name@,
        r.api_url@ == profile.api_url@,
        r.authenticated == viewer is Some,
        r.viewer == viewer,
{
    let authenticated = viewer.is_some();
    StatusReport {
        profile: profile.name.clone(),
        api_url: profile.api_url.clone(),
        authenticated,
        viewer,
    }
}

pub fn token_revoked_message(id: &str) -> (s: String)
    ensures
        s@ == "Token "@ + id@ + " revoked."@,
{
    String::from_str("Token ").concat(id).concat(" revoked.")
}

// ---------------------------------------------------------------------------
// Projects
// ---------------------------------------------------------------------------

/// A project waits for its Stripe payment while its status is
/// `pending_payment`.
pub open spec fn payment_pending_spec(p: InfrastructureProject) -> bool {
    p.status@ == "pending_payment"@
}

/// After a project is created, the wait for its payment depends on its
/// status alone: it lasts exactly while the status is `pending_payment`,
/// whatever the checkout field says.
pub proof fn law_payment_wait_follows_status(p: InfrastructureProject, q: InfrastructureProject)
    ensures
        payment_pending_spec(p) <==> p.status@ == "pending_payment"@,
        p.status@ == q.status@ ==> payment_pending_spec(p) == payment_pending_spec(q),
{
}

/// Whether a project still waits for its Stripe payment.
pub fn checkout_pending(p: &InfrastructureProject) -> (b: bool)
    ensures
        b == payment_pending_spec(*p),
{
    is_lit(p.status.as_str(), "pending_payment")
}

/// What `projects create` does once the project exists.
pub enum CreateFollowUp {
    /// Nothing to wait for; print `ready_line` when there is one.
    Done { ready_line: Option<String> },
    /// Open the checkout URL and wait for the payment.
    AwaitPayment { checkout_url: String },
}

pub open spec fn ready_line_spec(id: i64) -> Seq<char> {
    "Project "@ + decimal_int(id as int) + " ready."@
}

/// A pending project with a checkout URL waits for the payment; otherwise
/// the command ends, saying the project is ready unless it still waits for a
/// payment.
pub fn after_create(result: &ProjectCreateResult) -> (f: CreateFollowUp)
    ensures
        match f {
            CreateFollowUp::AwaitPayment { checkout_url } => payment_pending_spec(result.project)
                && opt_str(result.checkout_url) == Some(checkout_url@),
            CreateFollowUp::Done { ready_line } => !(payment_pending_spec(result.project)
                && result.checkout_url is Some) && (match ready_line {
                Some(l) => !payment_pending_spec(result.project) && l@ == ready_line_spec(
                    result.project.id,
                ),
                None => payment_pending_spec(result.project),
            }),
        },
{
    let pending = checkout_pending(&result.project);
    match &result.checkout_url {
        Some(url) => {
            if pending {
                return CreateFollowUp::AwaitPayment { checkout_url: url.clone() };
            }
        },
        None => {},
    }
    if pending {
        CreateFollowUp::Done { ready_line: None }
    } else {
        CreateFollowUp::Done {
            ready_line: Some(
                String::from_str("Project ").concat(fmt_i64(result.project.id).as_str()).concat(
                    " ready.",
                ),
            ),
        }
    }
}

/// Seconds between checks while waiting for a payment.
pub const CHECKOUT_POLL_SECS: u64 = 3;

/// Seconds after which the wait for a payment gives up.
pub const CHECKOUT_TIMEOUT_SECS: u64 = 600;

/// Seconds between fetches while following a deployment log.
pub const LOG_POLL_SECS: u64 = 3;

/// What the payment wait does after checking the project.
pub enum CheckoutStep {
    /// Paid: print this line and stop.
    Ready(String),
    /// Still pending, or the server could not be reached: check again.
    Wait,
    /// The check failed.
    Failed(ApiError),
}

/// The next step of the payment wait for project `project_id` after a check.
pub fn checkout_step(project_id: i64, outcome: Result<InfrastructureProject, ApiError>) -> (s:
    CheckoutStep)
    ensures
        match outcome {
            Ok(p) => if payment_pending_spec(p) {
                s is Wait
            } else {
                s matches CheckoutStep::Ready(l) && l@ == "Project "@ + decimal_int(
                    project_id as int,
                ) + " ready (status: "@ + p.status@ + ")."@
            },
            Err(e) => if is_network(e) {
                s is Wait
            } else {
                s == CheckoutStep::Failed(e)
            },
        },
{
    match outcome {
        Ok(p) => {
            if checkout_pending(&p) {
                CheckoutStep::Wait
            } else {
                CheckoutStep::Ready(
                    String::from_str("Project ").concat(fmt_i64(project_id).as_str()).concat(
                        " ready (status: ",
                    ).concat(p.status.as_str()).concat(")."),
                )
            }
        },
        Err(ApiError::Network { .. }) => CheckoutStep::Wait,
        Err(e) => CheckoutStep::Failed(e),
    }
}

/// What the payment wait prints when it gives up.
pub fn checkout_timeout_message(project_id: i64) -> (s: String)
    ensures
        s@ == "Timed out waiting for payment. Re-run `nvg projects show "@ + decimal_int(
            project_id as int,
        ) + "` later."@,
{
    String::from_str("Timed out waiting for payment. Re-run `nvg projects show ").concat(
        fmt_i64(project_id).as_str(),
    ).concat("` later.")
}

pub fn project_deleted_message(id: i64) -> (s: String)
    ensures
        s@ == "Project "@ + decimal_int(id as int) + " deleted."@,
{
    String::from_str("Project ").concat(fmt_i64(id).as_str()).concat(" deleted.")
}

pub fn deployment_created_message(d: &AppDeployment) -> (s: String)
    ensures
        s@ == "Created deployment "@ + decimal_int(d.id as int) + " ("@ + d.version_number@
            + ")."@,
{
    String::from_str("Created deployment ").concat(fmt_i64(d.id).as_str()).concat(" (").concat(
        d.version_number.as_str(),
    ).concat(").")
}

// ---------------------------------------------------------------------------
// Dispatch
// ---------------------------------------------------------------------------

/// Every leaf command of `nvg`.
pub enum Action {
    Skill,
    Login { no_wait: bool },
    Logout,
    Status,
    TokensList,
    TokensRevoke { id: String },
    OrgsList,
    DcsList,
    ProjectsList { org: Option<String> },
    ProjectsShow { project_id: String },
    ProjectsCreate { name: String, datacenter: String, plan: String, org: String, repos: Vec<String> },
    ProjectsDelete { project_id: String },
    Nested(NestedProjectCommand),
}

impl Action {
    /// Only the quick-reference guide runs without config and API client.
    pub fn needs_context(&self) -> (b: bool)
        ensures
            b == !(self is Skill),
    {
        match self {
            Action::Skill => false,
            _ => true,
        }
    }
}

/// The action a parsed command line asks for; the nested project forms are
/// parsed here, and a malformed one is refused with its message.
pub fn route(command: Command) -> (r: Result<Action, String>)
    ensures
        match command {
            Command::Skill => r == Ok::<Action, String>(Action::Skill),
            Command::Auth { command } => match command {
                AuthCommand::Login { no_wait } => r == Ok::<Action, String>(
                    Action::Login { no_wait },
                ),
                AuthCommand::Logout => r == Ok::<Action, String>(Action::Logout),
                AuthCommand::Status => r == Ok::<Action, String>(Action::Status),
                AuthCommand::Tokens { command } => match command {
                    TokensCommand::List => r == Ok::<Action, String>(Action::TokensList),
                    TokensCommand::Revoke { id } => r == Ok::<Action, String>(
                        Action::TokensRevoke { id },
                    ),
                },
            },
            Command::Orgs { command } => r == Ok::<Action, String>(Action::OrgsList),
            Command::Dcs { command } => r == Ok::<Action, String>(Action::DcsList),
            Command::Projects(p) => match p.command {
                ProjectsCommand::List { org } => r == Ok::<Action, String>(
                    Action::ProjectsList { org },
                ),
                ProjectsCommand::Show { project_id } => r == Ok::<Action, String>(
                    Action::ProjectsShow { project_id },
                ),
                ProjectsCommand::Create { name, datacenter, plan, org, repos } => r == Ok::<
                    Action,
                    String,
                >(Action::ProjectsCreate { name, datacenter, plan, org, repos }),
                ProjectsCommand::Delete { project_id } => r == Ok::<Action, String>(
                    Action::ProjectsDelete { project_id },
                ),
                ProjectsCommand::Nested(w) => match r {
                    Ok(Action::Nested(n)) => nested_spec(words(w@)) == Ok::<NestedSpec, Seq<char>>(
                        n@,
                    ),
                    Ok(_) => false,
                    Err(m) => nested_spec(words(w@)) == Err::<NestedSpec, Seq<char>>(m@),
                },
            },
        },
{
    match command {
        Command::Skill => Ok(Action::Skill),
        Command::Auth { command } => match command {
            AuthCommand::Login { no_wait } => Ok(Action::Login { no_wait }),
            AuthCommand::Logout => Ok(Action::Logout),
            AuthCommand::Status => Ok(Action::Status),
            AuthCommand::Tokens { command } => match command {
                TokensCommand::List => Ok(Action::TokensList),
                TokensCommand::Revoke { id } => Ok(Action::TokensRevoke { id }),
            },
        },
        Command::Orgs { command } => match command {
            OrgsCommand::List => Ok(Action::OrgsList),
        },
        Command::Dcs { command } => match command {
            DcsCommand::List => Ok(Action::DcsList),
        },
        Command::Projects(p) => match p.command {
            ProjectsCommand::List { org } => Ok(Action::ProjectsList { org }),
            ProjectsCommand::Show { project_id } => Ok(Action::ProjectsShow { project_id }),
            ProjectsCommand::Create { name, datacenter, plan, org, repos } => Ok(
                Action::ProjectsCreate { name, datacenter, plan, org, repos },
            ),
            ProjectsCommand::Delete { project_id } => Ok(Action::ProjectsDelete { project_id }),
            ProjectsCommand::Nested(w) => match parse_nested(w.as_slice()) {
                Ok(n) => Ok(Action::Nested(n)),
                Err(m) => Err(m),
            },
        },
    }
}

} // verus!
