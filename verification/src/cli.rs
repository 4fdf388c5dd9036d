//! The command tree of `nvg`, and the parser for the nested
//! `nvg projects <project_id> apps ...` forms.

use vstd::prelude::*;
use crate::text::{parse_u32, parse_u32_spec};

verus! {

/// Navegante CLI: global flags and the chosen command.
pub struct Cli {
    /// Output JSON instead of human-readable text.
    pub json: bool,
    /// Disable ANSI color in output.
    pub no_color: bool,
    /// Config profile to use.
    pub profile: Option<String>,
    /// Verbosity (-v, -vv).
    pub verbose: u8,
    pub command: Command,
}

pub enum Command {
    /// Authentication commands.
    Auth { command: AuthCommand },
    /// List organizations.
    Orgs { command: OrgsCommand },
    /// List datacenters.
    Dcs { command: DcsCommand },
    /// Infrastructure project commands.
    Projects(ProjectsArgs),
    /// Show the nvg CLI skill / quick-reference guide.
    Skill,
}

pub enum AuthCommand {
    /// Log in via device flow; with `no_wait`, print the code and stop.
    Login { no_wait: bool },
    /// Log out and revoke the local token.
    Logout,
    /// Show current auth status.
    Status,
    /// Manage API tokens.
    Tokens { command: TokensCommand },
}

pub enum TokensCommand {
    /// List API tokens.
    List,
    /// Revoke an API token.
    Revoke { id: String },
}

pub enum OrgsCommand {
    /// List organizations.
    List,
}

pub enum DcsCommand {
    /// List datacenters.
    List,
}

pub struct ProjectsArgs {
    pub command: ProjectsCommand,
}

pub enum ProjectsCommand {
    /// List infrastructure projects, optionally of one organization.
    List { org: Option<String> },
    /// Show an infrastructure project.
    Show { project_id: String },
    /// Create an infrastructure project.
    Create {
        name: String,
        datacenter: String,
        plan: String,
        org: String,
        repos: Vec<String>,
    },
    /// Delete an infrastructure project.
    Delete { project_id: String },
    /// Per-project app and deployment commands, as raw words.
    Nested(Vec<String>),
}

/// Parsed nested form: `nvg projects <project_id> apps ...`
pub enum NestedProjectCommand {
    AppsList { project_id: String },
    AppsShow { project_id: String, app_id: String },
    DeploymentsList { project_id: String, app_id: String, page: Option<u32> },
    DeploymentsShow { project_id: String, app_id: String, version: String },
    DeploymentsCommits {
        project_id: String,
        app_id: String,
        branch: Option<String>,
        limit: Option<u32>,
    },
    DeploymentsCreate {
        project_id: String,
        app_id: String,
        image: Option<String>,
        branch: Option<String>,
        commit: Option<String>,
    },
    DeploymentsLogs { project_id: String, app_id: String, version: String, follow: bool },
}

/// The meaning of a [`NestedProjectCommand`], with its words as character sequences.
pub enum NestedSpec {
    AppsList { project_id: Seq<char> },
    AppsShow { project_id: Seq<char>, app_id: Seq<char> },
    DeploymentsList { project_id: Seq<char>, app_id: Seq<char>, page: Option<u32> },
    DeploymentsShow { project_id: Seq<char>, app_id: Seq<char>, version: Seq<char> },
    DeploymentsCommits {
        project_id: Seq<char>,
        app_id: Seq<char>,
        branch: Option<Seq<char>>,
        limit: Option<u32>,
    },
    DeploymentsCreate {
        project_id: Seq<char>,
        app_id: Seq<char>,
        image: Option<Seq<char>>,
        branch: Option<Seq<char>>,
        commit: Option<Seq<char>>,
    },
    DeploymentsLogs { project_id: Seq<char>, app_id: Seq<char>, version: Seq<char>, follow: bool },
}

pub open spec fn opt_str(o: Option<String>) -> Option<Seq<char>> {
    match o {
        Some(s) => Some(s@),
        None => None,
    }
}

pub open spec fn words(args: Seq<String>) -> Seq<Seq<char>> {
    args.map_values(|s: String| s@)
}

impl View for NestedProjectCommand {
    type V = NestedSpec;

    open spec fn view(&self) -> NestedSpec {
        match self {
            NestedProjectCommand::AppsList { project_id } => NestedSpec::AppsList {
                project_id: project_id@,
            },
            NestedProjectCommand::AppsShow { project_id, app_id } => NestedSpec::AppsShow {
                project_id: project_id@,
                app_id: app_id@,
            },
            NestedProjectCommand::DeploymentsList { project_id, app_id, page } =>
                NestedSpec::DeploymentsList {
                project_id: project_id@,
                app_id: app_id@,
                page: *page,
            },
            NestedProjectCommand::DeploymentsShow { project_id, app_id, version } =>
                NestedSpec::DeploymentsShow {
                project_id: project_id@,
                app_id: app_id@,
                version: version@,
            },
            NestedProjectCommand::DeploymentsCommits { project_id, app_id, branch, limit } =>
                NestedSpec::DeploymentsCommits {
                project_id: project_id@,
                app_id: app_id@,
                branch: opt_str(*branch),
                limit: *limit,
            },
            NestedProjectCommand::DeploymentsCreate { project_id, app_id, image, branch, commit } =>
                NestedSpec::DeploymentsCreate {
                project_id: project_id@,
                app_id: app_id@,
                image: opt_str(*image),
                branch: opt_str(*branch),
                commit: opt_str(*commit),
            },
            NestedProjectCommand::DeploymentsLogs { project_id, app_id, version, follow } =>
                NestedSpec::DeploymentsLogs {
                project_id: project_id@,
                app_id: app_id@,
                version: version@,
                follow: *follow,
            },
        }
    }
}

/// The value of `--page` in the words `rest`, scanning from `i`: a `--page`
/// takes the next word as its value (a value that is not a `u32` gives no
/// page) and the scan resumes after that value; any other word is skipped.
pub open spec fn scan_page(rest: Seq<Seq<char>>, i: int, page: Option<u32>) -> Option<u32>
    decreases rest.len() - i,
{
    if i < 0 || i >= rest.len() {
        page
    } else if rest[i] == "--page"@ {
        if i + 1 < rest.len() {
            scan_page(rest, i + 2, parse_u32_spec(rest[i + 1]))
        } else {
            None
        }
    } else {
        scan_page(rest, i + 1, page)
    }
}

/// The flags of `deployments create` in the words `rest`, scanning from `i`:
/// each of `--image` (also spelled `--docker-image`), `--branch`, `--commit`
/// takes the next word as its value (none when it is the last word) and the
/// scan resumes after that value; any other word is skipped. The result is
/// (image, branch, commit).
pub open spec fn scan_create(
    rest: Seq<Seq<char>>,
    i: int,
    flags: (Option<Seq<char>>, Option<Seq<char>>, Option<Seq<char>>),
) -> (Option<Seq<char>>, Option<Seq<char>>, Option<Seq<char>>)
    decreases rest.len() - i,
{
    if i < 0 || i >= rest.len() {
        flags
    } else if rest[i] == "--image"@ || rest[i] == "--docker-image"@ || rest[i] == "--branch"@
        || rest[i] == "--commit"@ {
        let value = if i + 1 < rest.len() {
            Some(rest[i + 1])
        } else {
            None
        };
        let next = if rest[i] == "--image"@ || rest[i] == "--docker-image"@ {
            (value, flags.1, flags.2)
        } else if rest[i] == "--branch"@ {
            (flags.0, value, flags.2)
        } else {
            (flags.0, flags.1, value)
        };
        if i + 1 < rest.len() {
            scan_create(rest, i + 2, next)
        } else {
            next
        }
    } else {
        scan_create(rest, i + 1, flags)
    }
}

/// The flags of `deployments commits` in the words `rest`, scanning from `i`:
/// `--branch` takes the next word as its value (none when it is the last
/// word), `--limit` takes the next word as a `u32` (none when it is not one or
/// is missing), and the scan resumes after that value; any other word is
/// skipped. The result is (branch, limit).
pub open spec fn scan_commits(
    rest: Seq<Seq<char>>,
    i: int,
    flags: (Option<Seq<char>>, Option<u32>),
) -> (Option<Seq<char>>, Option<u32>)
    decreases rest.len() - i,
{
    if i < 0 || i >= rest.len() {
        flags
    } else if rest[i] == "--branch"@ || rest[i] == "--limit"@ {
        let next = if rest[i] == "--branch"@ {
            (
                if i + 1 < rest.len() {
                    Some(rest[i + 1])
                } else {
                    None
                },
                flags.1,
            )
        } else {
            (
                flags.0,
                if i + 1 < rest.len() {
                    parse_u32_spec(rest[i + 1])
                } else {
                    None
                },
            )
        };
        if i + 1 < rest.len() {
            scan_commits(rest, i + 2, next)
        } else {
            next
        }
    } else {
        scan_commits(rest, i + 1, flags)
    }
}

/// The meaning of `nvg projects <words...>`, or the message that rejects it.
pub open spec fn nested_spec(a: Seq<Seq<char>>) -> Result<NestedSpec, Seq<char>> {
    if a.len() < 1 {
        Err("missing <project_id>"@)
    } else if a.len() < 2 {
        Err("expected `apps` after project id"@)
    } else if a[1] != "apps"@ {
        Err("unknown subcommand `"@ + a[1] + "`, expected `apps`"@)
    } else if a.len() < 3 {
        Err("expected apps subcommand"@)
    } else if a[2] == "list"@ {
        Ok(NestedSpec::AppsList { project_id: a[0] })
    } else if a[2] == "show"@ {
        if a.len() < 4 {
            Err("missing <app_id>"@)
        } else {
            Ok(NestedSpec::AppsShow { project_id: a[0], app_id: a[3] })
        }
    } else if a.len() < 4 {
        Err("expected `deployments` after app id"@)
    } else if a[3] == "show"@ {
        Ok(NestedSpec::AppsShow { project_id: a[0], app_id: a[2] })
    } else if a[3] != "deployments"@ {
        Err("unknown group `"@ + a[3] + "`, expected `deployments`"@)
    } else if a.len() < 5 {
        Err("expected deployments subcommand"@)
    } else {
        let rest = a.skip(5);
        if a[4] == "list"@ {
            Ok(
                NestedSpec::DeploymentsList {
                    project_id: a[0],
                    app_id: a[2],
                    page: scan_page(rest, 0, None),
                },
            )
        } else if a[4] == "show"@ {
            if rest.len() == 0 {
                Err("missing <version>"@)
            } else {
                Ok(
                    NestedSpec::DeploymentsShow {
                        project_id: a[0],
                        app_id: a[2],
                        version: rest[0],
                    },
                )
            }
        } else if a[4] == "commits"@ {
            let flags = scan_commits(rest, 0, (None, None));
            Ok(
                NestedSpec::DeploymentsCommits {
                    project_id: a[0],
                    app_id: a[2],
                    branch: flags.0,
                    limit: flags.1,
                },
            )
        } else if a[4] == "create"@ {
            let flags = scan_create(rest, 0, (None, None, None));
            Ok(
                NestedSpec::DeploymentsCreate {
                    project_id: a[0],
                    app_id: a[2],
                    image: flags.0,
                    branch: flags.1,
                    commit: flags.2,
                },
            )
        } else if a[4] == "logs"@ {
            if rest.len() == 0 {
                Err("missing <version>"@)
            } else {
                Ok(
                    NestedSpec::DeploymentsLogs {
                        project_id: a[0],
                        app_id: a[2],
                        version: rest[0],
                        follow: rest.contains("--follow"@),
                    },
                )
            }
        } else {
            Err("unknown deployments subcommand `"@ + a[4] + "`"@)
        }
    }
}

/// Whether the word `s` is the literal `lit`.
pub fn word_is(s: &String, lit: &str) -> (b: bool)
    ensures
        b == (s@ == lit@),
{
    let l = String::from_str(lit);
    *s == l
}

fn msg(lit: &str) -> (r: String)
    ensures
        r@ == lit@,
{
    String::from_str(lit)
}

fn msg3(a: &str, b: &String, c: &str) -> (r: String)
    ensures
        r@ == a@ + b@ + c@,
{
    String::from_str(a).concat(b.as_str()).concat(c)
}

fn clone_word(s: &String) -> (r: String)
    ensures
        r@ == s@,
{
    s.clone()
}

fn page_flag(args: &[String]) -> (page: Option<u32>)
    requires
        args@.len() >= 5,
    ensures
        page == scan_page(words(args@).skip(5), 0, None),
{
    let ghost rest = words(args@).skip(5);
    let n = args.len();
    let mut page: Option<u32> = None;
    let mut i: usize = 5;
    while i < n
        invariant
            n == args@.len(),
            5 <= i <= n,
            rest == words(args@).skip(5),
            rest.len() == n - 5,
            forall|k: int| 0 <= k < rest.len() ==> #[trigger] rest[k] == args@[k + 5]@,
            scan_page(rest, i - 5, page) == scan_page(rest, 0, None),
        decreases n - i,
    {
        if word_is(&args[i], "--page") {
            if i + 1 < n {
                page = parse_u32(args[i + 1].as_str());
                i = i + 2;
            } else {
                page = None;
                i = n;
            }
        } else {
            i = i + 1;
        }
    }
    page
}

fn create_flags(args: &[String]) -> (flags: (Option<String>, Option<String>, Option<String>))
    requires
        args@.len() >= 5,
    ensures
        (opt_str(flags.0), opt_str(flags.1), opt_str(flags.2)) == scan_create(
            words(args@).skip(5),
            0,
            (None, None, None),
        ),
{
    let ghost rest = words(args@).skip(5);
    let n = args.len();
    let mut image: Option<String> = None;
    let mut branch: Option<String> = None;
    let mut commit: Option<String> = None;
    let mut i: usize = 5;
    while i < n
        invariant
            n == args@.len(),
            5 <= i <= n,
            rest == words(args@).skip(5),
            rest.len() == n - 5,
            forall|k: int| 0 <= k < rest.len() ==> #[trigger] rest[k] == args@[k + 5]@,
            scan_create(rest, i - 5, (opt_str(image), opt_str(branch), opt_str(commit)))
                == scan_create(rest, 0, (None, None, None)),
        decreases n - i,
    {
        let is_image = word_is(&args[i], "--image") || word_is(&args[i], "--docker-image");
        let is_branch = word_is(&args[i], "--branch");
        let is_commit = word_is(&args[i], "--commit");
        if is_image || is_branch || is_commit {
            let value = if i + 1 < n {
                Some(clone_word(&args[i + 1]))
            } else {
                None
            };
            if is_image {
                image = value;
            } else if is_branch {
                branch = value;
            } else {
                commit = value;
            }
            i = if i + 1 < n {
                i + 2
            } else {
                n
            };
        } else {
            i = i + 1;
        }
    }
    (image, branch, commit)
}

fn commits_flags(args: &[String]) -> (flags: (Option<String>, Option<u32>))
    requires
        args@.len() >= 5,
    ensures
        (opt_str(flags.0), flags.1) == scan_commits(words(args@).skip(5), 0, (None, None)),
{
    let ghost rest = words(args@).skip(5);
    let n = args.len();
    let mut branch: Option<String> = None;
    let mut limit: Option<u32> = None;
    let mut i: usize = 5;
    while i < n
        invariant
            n == args@.len(),
            5 <= i <= n,
            rest == words(args@).skip(5),
            rest.len() == n - 5,
            forall|k: int| 0 <= k < rest.len() ==> #[trigger] rest[k] == args@[k + 5]@,
            scan_commits(rest, i - 5, (opt_str(branch), limit)) == scan_commits(
                rest,
                0,
                (None, None),
            ),
        decreases n - i,
    {
        if word_is(&args[i], "--branch") {
            branch = if i + 1 < n {
                Some(clone_word(&args[i + 1]))
            } else {
                None
            };
            i = if i + 1 < n {
                i + 2
            } else {
                n
            };
        } else if word_is(&args[i], "--limit") {
            limit = if i + 1 < n {
                parse_u32(args[i + 1].as_str())
            } else {
                None
            };
            i = if i + 1 < n {
                i + 2
            } else {
                n
            };
        } else {
            i = i + 1;
        }
    }
    (branch, limit)
}

fn has_follow(args: &[String]) -> (b: bool)
    requires
        args@.len() >= 5,
    ensures
        b == words(args@).skip(5).contains("--follow"@),
{
    let ghost rest = words(args@).skip(5);
    let n = args.len();
    let mut i: usize = 5;
    while i < n
        invariant
            n == args@.len(),
            5 <= i <= n,
            rest == words(args@).skip(5),
            rest.len() == n - 5,
            forall|k: int| 0 <= k < rest.len() ==> #[trigger] rest[k] == args@[k + 5]@,
            forall|k: int| 0 <= k < i - 5 ==> rest[k] != "--follow"@,
        decreases n - i,
    {
        if word_is(&args[i], "--follow") {
            assert(rest[i - 5] == "--follow"@);
            return true;
        }
        i = i + 1;
    }
    false
}

/// Parse the trailing positional args after `nvg projects <project_id> ...`.
/// Supports these command shapes:
/// `<pid> apps list`, `<pid> apps <app_id> show` (also `<pid> apps show
/// <app_id>`), and `<pid> apps <app_id> deployments {list [--page N] |
/// show <version> | commits [--branch B] [--limit N] |
/// create [--image R | --docker-image R] [--branch B] [--commit C] |
/// logs <version> [--follow]}`.
pub fn parse_nested(args: &[String]) -> (r: Result<NestedProjectCommand, String>)
    ensures
        match r {
            Ok(cmd) => nested_spec(words(args@)) == Ok::<NestedSpec, Seq<char>>(cmd@),
            Err(m) => nested_spec(words(args@)) == Err::<NestedSpec, Seq<char>>(m@),
        },
{
    let ghost a = words(args@);
    let n = args.len();
    assert(a.len() == n);
    if n < 1 {
        return Err(msg("missing <project_id>"));
    }
    let project_id = clone_word(&args[0]);
    if n < 2 {
        return Err(msg("expected `apps` after project id"));
    }
    assert(a[1] == args@[1]@);
    if !word_is(&args[1], "apps") {
        return Err(msg3("unknown subcommand `", &args[1], "`, expected `apps`"));
    }
    if n < 3 {
        return Err(msg("expected apps subcommand"));
    }
    assert(a[2] == args@[2]@);
    if word_is(&args[2], "list") {
        return Ok(NestedProjectCommand::AppsList { project_id });
    }
    if word_is(&args[2], "show") {
        if n < 4 {
            return Err(msg("missing <app_id>"));
        }
        let app_id = clone_word(&args[3]);
        return Ok(NestedProjectCommand::AppsShow { project_id, app_id });
    }
    let app_id = clone_word(&args[2]);
    if n < 4 {
        return Err(msg("expected `deployments` after app id"));
    }
    assert(a[3] == args@[3]@);
    if word_is(&args[3], "show") {
        return Ok(NestedProjectCommand::AppsShow { project_id, app_id });
    }
    if !word_is(&args[3], "deployments") {
        return Err(msg3("unknown group `", &args[3], "`, expected `deployments`"));
    }
    if n < 5 {
        return Err(msg("expected deployments subcommand"));
    }
    assert(a[4] == args@[4]@);
    let ghost rest = a.skip(5);
    assert(n > 5 ==> rest[0] == args@[5]@);
    if word_is(&args[4], "list") {
        let page = page_flag(args);
        Ok(NestedProjectCommand::DeploymentsList { project_id, app_id, page })
    } else if word_is(&args[4], "show") {
        if n < 6 {
            return Err(msg("missing <version>"));
        }
        let version = clone_word(&args[5]);
        Ok(NestedProjectCommand::DeploymentsShow { project_id, app_id, version })
    } else if word_is(&args[4], "commits") {
        let (branch, limit) = commits_flags(args);
        Ok(NestedProjectCommand::DeploymentsCommits { project_id, app_id, branch, limit })
    } else if word_is(&args[4], "create") {
        let (image, branch, commit) = create_flags(args);
        Ok(NestedProjectCommand::DeploymentsCreate { project_id, app_id, image, branch, commit })
    } else if word_is(&args[4], "logs") {
        if n < 6 {
            return Err(msg("missing <version>"));
        }
        let version = clone_word(&args[5]);
        let follow = has_follow(args);
        Ok(NestedProjectCommand::DeploymentsLogs { project_id, app_id, version, follow })
    } else {
        let s = String::from_str("unknown deployments subcommand `").concat(args[4].as_str());
        Err(s.concat("`"))
    }
}

/// Every accepted nested form acts on the project named by its first word;
/// every deployment form acts on the app named by its third word, and
/// `apps ... show` on the app named by its third or fourth word.
pub proof fn law_nested_targets(a: Seq<Seq<char>>)
    requires
        nested_spec(a) is Ok,
    ensures
        match nested_spec(a) {
            Ok(NestedSpec::AppsList { project_id }) => project_id == a[0],
            Ok(NestedSpec::AppsShow { project_id, app_id }) => project_id == a[0] && (app_id == a[3]
                || app_id == a[2]),
            Ok(NestedSpec::DeploymentsList { project_id, app_id, .. }) => project_id == a[0]
                && app_id == a[2],
            Ok(NestedSpec::DeploymentsShow { project_id, app_id, .. }) => project_id == a[0]
                && app_id == a[2],
            Ok(NestedSpec::DeploymentsCreate { project_id, app_id, .. }) => project_id == a[0]
                && app_id == a[2],
            Ok(NestedSpec::DeploymentsCommits { project_id, app_id, .. }) => project_id == a[0]
                && app_id == a[2],
            Ok(NestedSpec::DeploymentsLogs { project_id, app_id, .. }) => project_id == a[0]
                && app_id == a[2],
            Err(_) => false,
        },
{
}

/// Whether no word of `ws` is `w`.
pub open spec fn never_names(ws: Seq<Seq<char>>, w: Seq<char>) -> bool {
    forall|k: int| 0 <= k < ws.len() ==> #[trigger] ws[k] != w
}

/// A word that `deployments create` reads as a flag.
pub open spec fn is_create_flag(w: Seq<char>) -> bool {
    w == "--image"@ || w == "--docker-image"@ || w == "--branch"@ || w == "--commit"@
}

/// A word that sets the image of `deployments create`.
pub open spec fn is_image_flag(w: Seq<char>) -> bool {
    w == "--image"@ || w == "--docker-image"@
}

proof fn lemma_scan_create_skips(
    r: Seq<Seq<char>>,
    i: int,
    j: int,
    f: (Option<Seq<char>>, Option<Seq<char>>, Option<Seq<char>>),
)
    requires
        0 <= i <= j <= r.len(),
        forall|k: int| i <= k < j ==> !is_create_flag(#[trigger] r[k]),
    ensures
        scan_create(r, i, f) == scan_create(r, j, f),
    decreases j - i,
{
    if i < j {
        assert(!is_create_flag(r[i]));
        lemma_scan_create_skips(r, i + 1, j, f);
    }
}

proof fn lemma_scan_create_keeps(
    r: Seq<Seq<char>>,
    i: int,
    f: (Option<Seq<char>>, Option<Seq<char>>, Option<Seq<char>>),
)
    requires
        0 <= i,
    ensures
        (forall|k: int| i <= k < r.len() ==> !is_image_flag(#[trigger] r[k])) ==> scan_create(
            r,
            i,
            f,
        ).0 == f.0,
        (forall|k: int| i <= k < r.len() ==> #[trigger] r[k] != "--branch"@) ==> scan_create(
            r,
            i,
            f,
        ).1 == f.1,
        (forall|k: int| i <= k < r.len() ==> #[trigger] r[k] != "--commit"@) ==> scan_create(
            r,
            i,
            f,
        ).2 == f.2,
    decreases r.len() - i,
{
    if i < r.len() {
        if is_create_flag(r[i]) {
            let value = if i + 1 < r.len() {
                Some(r[i + 1])
            } else {
                None
            };
            let next = if is_image_flag(r[i]) {
                (value, f.1, f.2)
            } else if r[i] == "--branch"@ {
                (f.0, value, f.2)
            } else {
                (f.0, f.1, value)
            };
            if i + 1 < r.len() {
                lemma_scan_create_keeps(r, i + 2, next);
                assert(scan_create(r, i, f) == scan_create(r, i + 2, next));
            }
        } else {
            lemma_scan_create_keeps(r, i + 1, f);
        }
    }
}

/// In `deployments create`, a flag and the word after it set that flag's
/// field to the word (the image by either spelling), after any words that
/// are not flags and however the command line ends; the word may be the last
/// one. A field that no word of the command line names stays unset.
pub proof fn law_create_flag_sets_field(
    p: Seq<char>,
    app: Seq<char>,
    junk: Seq<Seq<char>>,
    flag: Seq<char>,
    v: Seq<char>,
    rest: Seq<Seq<char>>,
)
    requires
        app != "list"@,
        app != "show"@,
        is_create_flag(flag),
        forall|k: int| 0 <= k < junk.len() ==> !is_create_flag(#[trigger] junk[k]),
    ensures
        match nested_spec(
            seq![p, "apps"@, app, "deployments"@, "create"@] + junk + seq![flag, v] + rest,
        ) {
            Ok(NestedSpec::DeploymentsCreate { project_id, app_id, image, branch, commit }) => {
                &&& project_id == p
                &&& app_id == app
                &&& never_names(rest, "--image"@) && never_names(rest, "--docker-image"@) ==> image
                    == (if is_image_flag(flag) {
                    Some(v)
                } else {
                    None
                })
                &&& never_names(rest, "--branch"@) ==> branch == (if flag == "--branch"@ {
                    Some(v)
                } else {
                    None
                })
                &&& never_names(rest, "--commit"@) ==> commit == (if flag == "--commit"@ {
                    Some(v)
                } else {
                    None
                })
            },
            _ => false,
        },
{
    reveal_strlit("apps");
    reveal_strlit("list");
    reveal_strlit("show");
    reveal_strlit("deployments");
    reveal_strlit("create");
    reveal_strlit("commits");
    reveal_strlit("--image");
    reveal_strlit("--docker-image");
    reveal_strlit("--branch");
    reveal_strlit("--commit");
    assert("--branch"@[2] != "--commit"@[2]);
    assert("--branch"@ != "--image"@ && "--branch"@ != "--docker-image"@);
    assert("--commit"@ != "--image"@ && "--commit"@ != "--docker-image"@);
    let a = seq![p, "apps"@, app, "deployments"@, "create"@] + junk + seq![flag, v] + rest;
    let r = junk + seq![flag, v] + rest;
    assert(a.skip(5) =~= r);
    assert(a[1] == "apps"@);
    assert(a[2] == app);
    assert(a[3] == "deployments"@);
    assert(a[4] == "create"@);
    let jl = junk.len() as int;
    assert forall|k: int| 0 <= k < jl implies !is_create_flag(#[trigger] r[k]) by {
        assert(r[k] == junk[k]);
    }
    let none3: (Option<Seq<char>>, Option<Seq<char>>, Option<Seq<char>>) = (None, None, None);
    lemma_scan_create_skips(r, 0, jl, none3);
    assert(r[jl] == flag);
    assert(r[jl + 1] == v);
    let next = if is_image_flag(flag) {
        (Some(v), none3.1, none3.2)
    } else if flag == "--branch"@ {
        (none3.0, Some(v), none3.2)
    } else {
        (none3.0, none3.1, Some(v))
    };
    assert(scan_create(r, jl, none3) == scan_create(r, jl + 2, next));
    lemma_scan_create_keeps(r, jl + 2, next);
    assert forall|k: int| jl + 2 <= k < r.len() implies #[trigger] r[k] == rest[k - jl - 2] by {}
    let out = scan_create(r, 0, none3);
    assert(a[0] == p);
    assert(a.len() >= 5);
    assert("deployments"@ != "show"@);
    assert("create"@ != "list"@ && "create"@ != "show"@ && "create"@ != "commits"@);
    assert(nested_spec(a) == Ok::<NestedSpec, Seq<char>>(
        NestedSpec::DeploymentsCreate {
            project_id: p,
            app_id: app,
            image: out.0,
            branch: out.1,
            commit: out.2,
        },
    ));
    if never_names(rest, "--image"@) && never_names(rest, "--docker-image"@) {
        assert forall|k: int| jl + 2 <= k < r.len() implies !is_image_flag(#[trigger] r[k]) by {
            assert(r[k] == rest[k - jl - 2]);
            assert(rest[k - jl - 2] != "--image"@);
            assert(rest[k - jl - 2] != "--docker-image"@);
        }
    }
    if never_names(rest, "--branch"@) {
        assert forall|k: int| jl + 2 <= k < r.len() implies #[trigger] r[k] != "--branch"@ by {
            assert(r[k] == rest[k - jl - 2]);
            assert(rest[k - jl - 2] != "--branch"@);
        }
    }
    if never_names(rest, "--commit"@) {
        assert forall|k: int| jl + 2 <= k < r.len() implies #[trigger] r[k] != "--commit"@ by {
            assert(r[k] == rest[k - jl - 2]);
            assert(rest[k - jl - 2] != "--commit"@);
        }
    }
}

proof fn lemma_scan_commits_skips(
    r: Seq<Seq<char>>,
    i: int,
    j: int,
    f: (Option<Seq<char>>, Option<u32>),
)
    requires
        0 <= i <= j <= r.len(),
        forall|k: int| i <= k < j ==> #[trigger] r[k] != "--branch"@ && r[k] != "--limit"@,
    ensures
        scan_commits(r, i, f) == scan_commits(r, j, f),
    decreases j - i,
{
    if i < j {
        assert(r[i] != "--branch"@);
        lemma_scan_commits_skips(r, i + 1, j, f);
    }
}

proof fn lemma_scan_commits_keeps(r: Seq<Seq<char>>, i: int, f: (Option<Seq<char>>, Option<u32>))
    requires
        0 <= i,
    ensures
        (forall|k: int| i <= k < r.len() ==> #[trigger] r[k] != "--branch"@) ==> scan_commits(
            r,
            i,
            f,
        ).0 == f.0,
        (forall|k: int| i <= k < r.len() ==> #[trigger] r[k] != "--limit"@) ==> scan_commits(
            r,
            i,
            f,
        ).1 == f.1,
    decreases r.len() - i,
{
    if i < r.len() {
        if r[i] == "--branch"@ || r[i] == "--limit"@ {
            let next = if r[i] == "--branch"@ {
                (
                    if i + 1 < r.len() {
                        Some(r[i + 1])
                    } else {
                        None
                    },
                    f.1,
                )
            } else {
                (
                    f.0,
                    if i + 1 < r.len() {
                        parse_u32_spec(r[i + 1])
                    } else {
                        None
                    },
                )
            };
            if i + 1 < r.len() {
                lemma_scan_commits_keeps(r, i + 2, next);
            }
        } else {
            lemma_scan_commits_keeps(r, i + 1, f);
        }
    }
}

/// In `deployments commits`, `--branch` and the word after it select that
/// branch, and `--limit` and the word after it set the limit to that word
/// read as a number (none when it is not one), after any words that are not
/// flags and however the command line ends; the word may be the last one. A
/// flag that no word of the command line names leaves its field unset.
pub proof fn law_commits_flag_sets_field(
    p: Seq<char>,
    app: Seq<char>,
    junk: Seq<Seq<char>>,
    flag: Seq<char>,
    v: Seq<char>,
    rest: Seq<Seq<char>>,
)
    requires
        app != "list"@,
        app != "show"@,
        flag == "--branch"@ || flag == "--limit"@,
        forall|k: int| 0 <= k < junk.len() ==> #[trigger] junk[k] != "--branch"@ && junk[k] != "--limit"@,
    ensures
        match nested_spec(
            seq![p, "apps"@, app, "deployments"@, "commits"@] + junk + seq![flag, v] + rest,
        ) {
            Ok(NestedSpec::DeploymentsCommits { project_id, app_id, branch, limit }) => {
                &&& project_id == p
                &&& app_id == app
                &&& never_names(rest, "--branch"@) ==> branch == (if flag == "--branch"@ {
                    Some(v)
                } else {
                    None
                })
                &&& never_names(rest, "--limit"@) ==> limit == (if flag == "--limit"@ {
                    parse_u32_spec(v)
                } else {
                    None
                })
            },
            _ => false,
        },
{
    reveal_strlit("apps");
    reveal_strlit("list");
    reveal_strlit("show");
    reveal_strlit("deployments");
    reveal_strlit("commits");
    reveal_strlit("--branch");
    reveal_strlit("--limit");
    assert("--branch"@[2] != "--limit"@[2]);
    let a = seq![p, "apps"@, app, "deployments"@, "commits"@] + junk + seq![flag, v] + rest;
    let r = junk + seq![flag, v] + rest;
    assert(a.skip(5) =~= r);
    assert(a[0] == p && a[1] == "apps"@ && a[2] == app && a[3] == "deployments"@);
    assert(a[4] == "commits"@);
    let jl = junk.len() as int;
    assert forall|k: int| 0 <= k < jl implies #[trigger] r[k] != "--branch"@ && r[k] != "--limit"@ by {
        assert(r[k] == junk[k]);
    }
    let none2: (Option<Seq<char>>, Option<u32>) = (None, None);
    lemma_scan_commits_skips(r, 0, jl, none2);
    assert(r[jl] == flag);
    assert(r[jl + 1] == v);
    let next = if flag == "--branch"@ {
        (Some(v), none2.1)
    } else {
        (none2.0, parse_u32_spec(v))
    };
    assert(scan_commits(r, jl, none2) == scan_commits(r, jl + 2, next));
    lemma_scan_commits_keeps(r, jl + 2, next);
    let out = scan_commits(r, 0, none2);
    assert("deployments"@[0] != "show"@[0]);
    assert("commits"@[0] != "list"@[0] && "commits"@[0] != "show"@[0]);
    assert(nested_spec(a) == Ok::<NestedSpec, Seq<char>>(
        NestedSpec::DeploymentsCommits { project_id: p, app_id: app, branch: out.0, limit: out.1 },
    ));
    if never_names(rest, "--branch"@) {
        assert forall|k: int| jl + 2 <= k < r.len() implies #[trigger] r[k] != "--branch"@ by {
            assert(r[k] == rest[k - jl - 2]);
            assert(rest[k - jl - 2] != "--branch"@);
        }
    }
    if never_names(rest, "--limit"@) {
        assert forall|k: int| jl + 2 <= k < r.len() implies #[trigger] r[k] != "--limit"@ by {
            assert(r[k] == rest[k - jl - 2]);
            assert(rest[k - jl - 2] != "--limit"@);
        }
    }
}

proof fn lemma_scan_page_skips(r: Seq<Seq<char>>, i: int, j: int, page: Option<u32>)
    requires
        0 <= i <= j <= r.len(),
        forall|k: int| i <= k < j ==> #[trigger] r[k] != "--page"@,
    ensures
        scan_page(r, i, page) == scan_page(r, j, page),
    decreases j - i,
{
    if i < j {
        assert(r[i] != "--page"@);
        lemma_scan_page_skips(r, i + 1, j, page);
    }
}

/// In `deployments list`, `--page` and the word after it select that page
/// (none when the word is not a number), after any other words, when no
/// later word is `--page`; the word may be the last one. With no `--page`
/// at all there is no page.
pub proof fn law_list_page_flag(
    p: Seq<char>,
    app: Seq<char>,
    junk: Seq<Seq<char>>,
    v: Seq<char>,
    rest: Seq<Seq<char>>,
)
    requires
        app != "list"@,
        app != "show"@,
        never_names(junk, "--page"@),
    ensures
        match nested_spec(
            seq![p, "apps"@, app, "deployments"@, "list"@] + junk + seq!["--page"@, v] + rest,
        ) {
            Ok(NestedSpec::DeploymentsList { project_id, app_id, page }) => {
                &&& project_id == p
                &&& app_id == app
                &&& never_names(rest, "--page"@) ==> page == parse_u32_spec(v)
            },
            _ => false,
        },
        match nested_spec(seq![p, "apps"@, app, "deployments"@, "list"@] + junk) {
            Ok(NestedSpec::DeploymentsList { project_id, app_id, page }) => project_id == p
                && app_id == app && page is None,
            _ => false,
        },
{
    reveal_strlit("apps");
    reveal_strlit("list");
    reveal_strlit("show");
    reveal_strlit("deployments");
    let a = seq![p, "apps"@, app, "deployments"@, "list"@] + junk + seq!["--page"@, v] + rest;
    let b = seq![p, "apps"@, app, "deployments"@, "list"@] + junk;
    let r = junk + seq!["--page"@, v] + rest;
    assert(a.skip(5) =~= r);
    assert(b.skip(5) =~= junk);
    assert(a[0] == p && a[1] == "apps"@ && a[2] == app && a[3] == "deployments"@);
    assert(a[4] == "list"@);
    assert(b[0] == p && b[1] == "apps"@ && b[2] == app && b[3] == "deployments"@);
    assert(b[4] == "list"@);
    assert("deployments"@[0] != "show"@[0]);
    assert("list"@[0] != "show"@[0]);
    let jl = junk.len() as int;
    assert forall|k: int| 0 <= k < jl implies #[trigger] r[k] != "--page"@ by {
        assert(r[k] == junk[k]);
    }
    lemma_scan_page_skips(r, 0, jl, None);
    lemma_scan_page_skips(junk, 0, jl, None);
    assert(r[jl] == "--page"@);
    assert(r[jl + 1] == v);
    assert(scan_page(r, jl, None) == scan_page(r, jl + 2, parse_u32_spec(v)));
    if never_names(rest, "--page"@) {
        assert forall|k: int| jl + 2 <= k < r.len() implies #[trigger] r[k] != "--page"@ by {
            assert(r[k] == rest[k - jl - 2]);
            assert(rest[k - jl - 2] != "--page"@);
        }
        lemma_scan_page_skips(r, jl + 2, r.len() as int, parse_u32_spec(v));
    }
}

/// `deployments show` and `deployments logs` act on the version named by the
/// word after the subcommand, whatever follows it; `logs` follows the log
/// exactly when some word from there on is `--follow`.
pub proof fn law_version_word_and_follow(
    p: Seq<char>,
    app: Seq<char>,
    version: Seq<char>,
    rest: Seq<Seq<char>>,
)
    requires
        app != "list"@,
        app != "show"@,
    ensures
        match nested_spec(seq![p, "apps"@, app, "deployments"@, "show"@, version] + rest) {
            Ok(NestedSpec::DeploymentsShow { project_id, app_id, version: v }) => project_id == p
                && app_id == app && v == version,
            _ => false,
        },
        match nested_spec(seq![p, "apps"@, app, "deployments"@, "logs"@, version] + rest) {
            Ok(NestedSpec::DeploymentsLogs { project_id, app_id, version: v, follow }) => {
                &&& project_id == p
                &&& app_id == app
                &&& v == version
                &&& follow == (version == "--follow"@ || exists|k: int|
                    0 <= k < rest.len() && #[trigger] rest[k] == "--follow"@)
            },
            _ => false,
        },
{
    reveal_strlit("apps");
    reveal_strlit("list");
    reveal_strlit("show");
    reveal_strlit("deployments");
    reveal_strlit("commits");
    reveal_strlit("create");
    reveal_strlit("logs");
    assert("deployments"@[0] != "show"@[0]);
    assert("logs"@[0] != "show"@[0] && "logs"@[0] != "commits"@[0] && "logs"@[0] != "create"@[0]);
    assert("logs"@[1] != "list"@[1]);
    let a = seq![p, "apps"@, app, "deployments"@, "show"@, version] + rest;
    let b = seq![p, "apps"@, app, "deployments"@, "logs"@, version] + rest;
    let r = seq![version] + rest;
    assert(a.skip(5) =~= r);
    assert(b.skip(5) =~= r);
    assert(a[0] == p && a[1] == "apps"@ && a[2] == app && a[3] == "deployments"@ && a[4]
        == "show"@);
    assert(b[0] == p && b[1] == "apps"@ && b[2] == app && b[3] == "deployments"@ && b[4]
        == "logs"@);
    assert(r[0] == version);
    if r.contains("--follow"@) {
        let j = choose|j: int| 0 <= j < r.len() && r[j] == "--follow"@;
        if j > 0 {
            assert(rest[j - 1] == "--follow"@);
        }
    }
    if exists|k: int| 0 <= k < rest.len() && #[trigger] rest[k] == "--follow"@ {
        let k = choose|k: int| 0 <= k < rest.len() && #[trigger] rest[k] == "--follow"@;
        assert(r[k + 1] == "--follow"@);
    }
    if version == "--follow"@ {
        assert(r[0] == "--follow"@);
    }
}

} // verus!
