//! Human-readable output: the tables of the list commands and the detail
//! views of single records, as lines of text.

use vstd::prelude::*;
use crate::cli::opt_str;
use crate::models::{
    ApiToken, AppConfiguration, AppDeployment, CommitSummary, Datacenter, InfrastructureProject,
    Organization,
};
use crate::text::{decimal, decimal_int, fmt_i64, fmt_u32, fmt_usize, pad, pad_spec, truncate, truncate_spec};

verus! {

pub open spec fn or_default(o: Option<Seq<char>>, d: Seq<char>) -> Seq<char> {
    match o {
        Some(s) => s,
        None => d,
    }
}

pub open spec fn opt_id_spec(id: Option<i64>) -> Seq<char> {
    match id {
        Some(n) => decimal_int(n as int),
        None => "-"@,
    }
}

/// A column of `width` followed by the two-space gutter.
pub open spec fn col(s: Seq<char>, width: nat) -> Seq<char> {
    pad_spec(s, width) + "  "@
}

/// `s` shortened to `width` and set in a column of that width.
pub open spec fn tcol(s: Seq<char>, width: nat) -> Seq<char> {
    col(truncate_spec(s, width), width)
}

fn lit(s: &str) -> (r: String)
    ensures
        r@ == s@,
{
    String::from_str(s)
}

fn or_lit(o: &Option<String>, d: &str) -> (r: String)
    ensures
        r@ == or_default(opt_str(*o), d@),
{
    match o {
        Some(s) => s.clone(),
        None => lit(d),
    }
}

fn col_of(s: &str, width: usize) -> (r: String)
    ensures
        r@ == col(s@, width as nat),
{
    pad(s, width).concat("  ")
}

fn tcol_of(s: &str, width: usize) -> (r: String)
    ensures
        r@ == tcol(s@, width as nat),
{
    col_of(truncate(s, width).as_str(), width)
}

/// An optional id, `-` when absent.
pub fn opt_id(id: Option<i64>) -> (s: String)
    ensures
        s@ == opt_id_spec(id),
{
    match id {
        Some(n) => fmt_i64(n),
        None => lit("-"),
    }
}

// ---------------------------------------------------------------------------
// Tables
// ---------------------------------------------------------------------------

pub open spec fn tokens_header_spec() -> Seq<char> {
    col("ID"@, 6) + col("NAME"@, 24) + col("CREATED"@, 25) + col("LAST USED"@, 25) + "EXPIRES"@
}

pub open spec fn token_row_spec(t: ApiToken) -> Seq<char> {
    pad_spec(decimal_int(t.id as int), 6) + (if t.current {
        " *"@
    } else {
        "  "@
    }) + tcol(t.name@, 24) + col(t.created_at@, 25) + col(
        or_default(opt_str(t.last_used_at), "never"@),
        25,
    ) + or_default(opt_str(t.expires_at), "never"@)
}

pub fn tokens_header() -> (s: String)
    ensures
        s@ == tokens_header_spec(),
{
    col_of("ID", 6).concat(col_of("NAME", 24).as_str()).concat(col_of("CREATED", 25).as_str()).concat(
        col_of("LAST USED", 25).as_str(),
    ).concat("EXPIRES")
}

/// A row of `nvg auth tokens list`; the current token is marked with `*`.
pub fn token_row(t: &ApiToken) -> (s: String)
    ensures
        s@ == token_row_spec(*t),
{
    let marker = if t.current {
        lit(" *")
    } else {
        lit("  ")
    };
    pad(fmt_i64(t.id).as_str(), 6).concat(marker.as_str()).concat(
        tcol_of(t.name.as_str(), 24).as_str(),
    ).concat(col_of(t.created_at.as_str(), 25).as_str()).concat(
        col_of(or_lit(&t.last_used_at, "never").as_str(), 25).as_str(),
    ).concat(or_lit(&t.expires_at, "never").as_str())
}

pub open spec fn apps_header_spec() -> Seq<char> {
    col("ID"@, 6) + col("REPO"@, 32) + col("DOMAIN"@, 24) + col("DEPLOYMENT"@, 14) + pad_spec(
        "ACCESS"@,
        14,
    )
}

pub open spec fn app_row_spec(a: AppConfiguration) -> Seq<char> {
    col(decimal_int(a.id as int), 6) + tcol(or_default(opt_str(a.repository_full_name), "-"@), 32)
        + tcol(or_default(opt_str(a.fallback_domain_name), "-"@), 24) + tcol(
        or_default(opt_str(a.deployment_status), "-"@),
        14,
    ) + pad_spec(truncate_spec(or_default(opt_str(a.accessibility_status), "-"@), 14), 14)
}

pub fn apps_header() -> (s: String)
    ensures
        s@ == apps_header_spec(),
{
    col_of("ID", 6).concat(col_of("REPO", 32).as_str()).concat(col_of("DOMAIN", 24).as_str()).concat(
        col_of("DEPLOYMENT", 14).as_str(),
    ).concat(pad("ACCESS", 14).as_str())
}

/// A row of `nvg projects <pid> apps list`.
pub fn app_row(a: &AppConfiguration) -> (s: String)
    ensures
        s@ == app_row_spec(*a),
{
    col_of(fmt_i64(a.id).as_str(), 6).concat(
        tcol_of(or_lit(&a.repository_full_name, "-").as_str(), 32).as_str(),
    ).concat(tcol_of(or_lit(&a.fallback_domain_name, "-").as_str(), 24).as_str()).concat(
        tcol_of(or_lit(&a.deployment_status, "-").as_str(), 14).as_str(),
    ).concat(pad(truncate(or_lit(&a.accessibility_status, "-").as_str(), 14).as_str(), 14).as_str())
}

pub open spec fn datacenters_header_spec() -> Seq<char> {
    col("ID"@, 8) + col("CC"@, 3) + col("REGION"@, 20) + col("CITY"@, 20) + "ACTIVE"@
}

pub open spec fn datacenter_row_spec(d: Datacenter) -> Seq<char> {
    col(decimal_int(d.id as int), 8) + col(d.country@, 3) + tcol(d.region@, 20) + tcol(
        d.city@,
        20,
    ) + (if d.active {
        "yes"@
    } else {
        "no"@
    })
}

pub fn datacenters_header() -> (s: String)
    ensures
        s@ == datacenters_header_spec(),
{
    col_of("ID", 8).concat(col_of("CC", 3).as_str()).concat(col_of("REGION", 20).as_str()).concat(
        col_of("CITY", 20).as_str(),
    ).concat("ACTIVE")
}

/// A row of `nvg dcs list`.
pub fn datacenter_row(d: &Datacenter) -> (s: String)
    ensures
        s@ == datacenter_row_spec(*d),
{
    let active = if d.active {
        lit("yes")
    } else {
        lit("no")
    };
    col_of(fmt_i64(d.id).as_str(), 8).concat(col_of(d.country.as_str(), 3).as_str()).concat(
        tcol_of(d.region.as_str(), 20).as_str(),
    ).concat(tcol_of(d.city.as_str(), 20).as_str()).concat(active.as_str())
}

pub open spec fn organizations_header_spec() -> Seq<char> {
    col("ID"@, 8) + "NAME"@
}

pub open spec fn organization_row_spec(o: Organization) -> Seq<char> {
    col(decimal_int(o.id as int), 8) + o.name@
}

pub fn organizations_header() -> (s: String)
    ensures
        s@ == organizations_header_spec(),
{
    col_of("ID", 8).concat("NAME")
}

/// A row of `nvg orgs list`.
pub fn organization_row(o: &Organization) -> (s: String)
    ensures
        s@ == organization_row_spec(*o),
{
    col_of(fmt_i64(o.id).as_str(), 8).concat(o.name.as_str())
}

pub open spec fn projects_header_spec() -> Seq<char> {
    col("ID"@, 6) + col("NAME"@, 24) + col("STATUS"@, 20) + col("PLAN"@, 12) + col("ORG"@, 6)
        + col("DC"@, 6) + "CREATED"@
}

pub open spec fn project_row_spec(p: InfrastructureProject) -> Seq<char> {
    col(decimal_int(p.id as int), 6) + tcol(p.name@, 24) + tcol(p.status@, 20) + tcol(
        or_default(opt_str(p.plan), "-"@),
        12,
    ) + col(opt_id_spec(p.organization_id), 6) + col(opt_id_spec(p.datacenter_id), 6)
        + or_default(opt_str(p.created_at), "-"@)
}

pub fn projects_header() -> (s: String)
    ensures
        s@ == projects_header_spec(),
{
    col_of("ID", 6).concat(col_of("NAME", 24).as_str()).concat(col_of("STATUS", 20).as_str()).concat(
        col_of("PLAN", 12).as_str(),
    ).concat(col_of("ORG", 6).as_str()).concat(col_of("DC", 6).as_str()).concat("CREATED")
}

/// A row of `nvg projects list`.
pub fn project_row(p: &InfrastructureProject) -> (s: String)
    ensures
        s@ == project_row_spec(*p),
{
    col_of(fmt_i64(p.id).as_str(), 6).concat(tcol_of(p.name.as_str(), 24).as_str()).concat(
        tcol_of(p.status.as_str(), 20).as_str(),
    ).concat(tcol_of(or_lit(&p.plan, "-").as_str(), 12).as_str()).concat(
        col_of(opt_id(p.organization_id).as_str(), 6).as_str(),
    ).concat(col_of(opt_id(p.datacenter_id).as_str(), 6).as_str()).concat(
        or_lit(&p.created_at, "-").as_str(),
    )
}

pub open spec fn deployments_header_spec() -> Seq<char> {
    col("ID"@, 6) + col("VERSION"@, 8) + col("STATUS"@, 14) + col("COMMIT"@, 12) + col(
        "CREATED"@,
        24,
    ) + "FINISHED"@
}

pub open spec fn deployment_row_spec(d: AppDeployment) -> Seq<char> {
    col(decimal_int(d.id as int), 6) + tcol(d.version_number@, 8) + tcol(d.status@, 14) + tcol(
        or_default(opt_str(d.commit_sha), "-"@),
        12,
    ) + col(or_default(opt_str(d.created_at), "-"@), 24) + or_default(
        opt_str(d.finished_at),
        "-"@,
    )
}

pub fn deployments_header() -> (s: String)
    ensures
        s@ == deployments_header_spec(),
{
    col_of("ID", 6).concat(col_of("VERSION", 8).as_str()).concat(col_of("STATUS", 14).as_str()).concat(
        col_of("COMMIT", 12).as_str(),
    ).concat(col_of("CREATED", 24).as_str()).concat("FINISHED")
}

/// A row of `... deployments list`.
pub fn deployment_row(d: &AppDeployment) -> (s: String)
    ensures
        s@ == deployment_row_spec(*d),
{
    col_of(fmt_i64(d.id).as_str(), 6).concat(tcol_of(d.version_number.as_str(), 8).as_str()).concat(
        tcol_of(d.status.as_str(), 14).as_str(),
    ).concat(tcol_of(or_lit(&d.commit_sha, "-").as_str(), 12).as_str()).concat(
        col_of(or_lit(&d.created_at, "-").as_str(), 24).as_str(),
    ).concat(or_lit(&d.finished_at, "-").as_str())
}

pub open spec fn commits_header_spec() -> Seq<char> {
    col("COMMIT"@, 12) + "MESSAGE"@
}

pub open spec fn commit_row_spec(c: CommitSummary) -> Seq<char> {
    tcol(c.sha@, 12) + c.message@
}

pub fn commits_header() -> (s: String)
    ensures
        s@ == commits_header_spec(),
{
    col_of("COMMIT", 12).concat("MESSAGE")
}

/// A row of `... deployments commits`: the commit, shortened as in the
/// deployments table, and its message.
pub fn commit_row(c: &CommitSummary) -> (s: String)
    ensures
        s@ == commit_row_spec(*c),
{
    tcol_of(c.sha.as_str(), 12).concat(c.message.as_str())
}

/// The number of pages of `total` items, `per_page` (at least 1) to a page,
/// rounded up.
pub open spec fn page_count_spec(total: u32, per_page: u32) -> nat {
    let per: int = if per_page == 0 {
        1
    } else {
        per_page as int
    };
    ((total as int + per - 1) / per) as nat
}

pub fn page_count(total: u32, per_page: u32) -> (n: u32)
    ensures
        n == page_count_spec(total, per_page),
        n as int * (if per_page == 0 {
            1int
        } else {
            per_page as int
        }) >= total,
{
    let per: u64 = if per_page == 0 {
        1
    } else {
        per_page as u64
    };
    let n: u64 = (total as u64 + per - 1) / per;
    assert(n * per >= total) by (nonlinear_arith)
        requires
            n as int == (total as int + per as int - 1) / (per as int),
            per >= 1,
    ;
    assert(n <= total as u64) by (nonlinear_arith)
        requires
            n as int == (total as int + per as int - 1) / (per as int),
            per >= 1,
    ;
    n as u32
}

pub open spec fn page_footer_spec(page: u32, per_page: u32, shown: nat, total: u32) -> Seq<char> {
    "Page "@ + decimal(page as nat) + " of "@ + decimal(page_count_spec(total, per_page))
        + " (showing "@ + decimal(shown) + "/"@ + decimal(total as nat) + ")"@
}

/// The line under the deployments table: the page, the number of pages,
/// and how many of the total this page shows.
pub fn page_footer(page: u32, per_page: u32, shown: usize, total: u32) -> (s: String)
    ensures
        s@ == page_footer_spec(page, per_page, shown as nat, total),
{
    lit("Page ").concat(fmt_u32(page).as_str()).concat(" of ").concat(
        fmt_u32(page_count(total, per_page)).as_str(),
    ).concat(" (showing ").concat(fmt_usize(shown).as_str()).concat("/").concat(
        fmt_u32(total).as_str(),
    ).concat(")")
}

// ---------------------------------------------------------------------------
// Detail views
// ---------------------------------------------------------------------------

pub open spec fn lines_of(v: Seq<String>) -> Seq<Seq<char>> {
    v.map_values(|s: String| s@)
}

pub open spec fn app_lines_spec(a: AppConfiguration) -> Seq<Seq<char>> {
    seq![
        "ID:                   "@ + decimal_int(a.id as int),
        "Project:              "@ + decimal_int(a.infrastructure_project_id as int),
        "Repository:           "@ + or_default(opt_str(a.repository_full_name), "-"@),
        "Domain:               "@ + or_default(opt_str(a.fallback_domain_name), "-"@),
        "IP:                   "@ + or_default(opt_str(a.ip_address), "-"@),
        "Deployment status:    "@ + or_default(opt_str(a.deployment_status), "-"@),
        "Accessibility status: "@ + or_default(opt_str(a.accessibility_status), "-"@),
        "Flavor:               "@ + or_default(opt_str(a.deployment_flavor), "-"@),
        "Status:               "@ + or_default(opt_str(a.status), "-"@),
        "Created:              "@ + or_default(opt_str(a.created_at), "-"@),
    ]
}

fn push_line(lines: &mut Vec<String>, label: &str, value: String)
    ensures
        lines_of(final(lines)@) == lines_of(old(lines)@).push(label@ + value@),
{
    lines.push(lit(label).concat(value.as_str()));
    assert(lines_of(lines@) =~= lines_of(old(lines)@).push(label@ + value@));
}

/// The detail view of an app configuration.
pub fn app_lines(a: &AppConfiguration) -> (v: Vec<String>)
    ensures
        lines_of(v@) == app_lines_spec(*a),
{
    let mut v: Vec<String> = Vec::new();
    assert(lines_of(v@) =~= Seq::<Seq<char>>::empty());
    push_line(&mut v, "ID:                   ", fmt_i64(a.id));
    push_line(&mut v, "Project:              ", fmt_i64(a.infrastructure_project_id));
    push_line(&mut v, "Repository:           ", or_lit(&a.repository_full_name, "-"));
    push_line(&mut v, "Domain:               ", or_lit(&a.fallback_domain_name, "-"));
    push_line(&mut v, "IP:                   ", or_lit(&a.ip_address, "-"));
    push_line(&mut v, "Deployment status:    ", or_lit(&a.deployment_status, "-"));
    push_line(&mut v, "Accessibility status: ", or_lit(&a.accessibility_status, "-"));
    push_line(&mut v, "Flavor:               ", or_lit(&a.deployment_flavor, "-"));
    push_line(&mut v, "Status:               ", or_lit(&a.status, "-"));
    push_line(&mut v, "Created:              ", or_lit(&a.created_at, "-"));
    assert(lines_of(v@) =~= app_lines_spec(*a));
    v
}

pub open spec fn deployment_lines_spec(d: AppDeployment) -> Seq<Seq<char>> {
    seq![
        "ID:              "@ + decimal_int(d.id as int),
        "Version:         "@ + d.version_number@,
        "Status:          "@ + d.status@,
        "App config:      "@ + opt_id_spec(d.app_configuration_id),
        "Commit:          "@ + or_default(opt_str(d.commit_sha), "-"@),
        "Image:           "@ + or_default(opt_str(d.image), "-"@),
        "Triggered by:    "@ + or_default(opt_str(d.triggered_by), "-"@),
        "Created:         "@ + or_default(opt_str(d.created_at), "-"@),
        "Finished:        "@ + or_default(opt_str(d.finished_at), "-"@),
    ] + match d.error_message {
        Some(e) => seq!["Error:           "@ + e@],
        None => Seq::empty(),
    }
}

/// The detail view of a deployment; the error line only when it failed.
pub fn deployment_lines(d: &AppDeployment) -> (v: Vec<String>)
    ensures
        lines_of(v@) == deployment_lines_spec(*d),
{
    let mut v: Vec<String> = Vec::new();
    assert(lines_of(v@) =~= Seq::<Seq<char>>::empty());
    push_line(&mut v, "ID:              ", fmt_i64(d.id));
    push_line(&mut v, "Version:         ", d.version_number.clone());
    push_line(&mut v, "Status:          ", d.status.clone());
    push_line(&mut v, "App config:      ", opt_id(d.app_configuration_id));
    push_line(&mut v, "Commit:          ", or_lit(&d.commit_sha, "-"));
    push_line(&mut v, "Image:           ", or_lit(&d.image, "-"));
    push_line(&mut v, "Triggered by:    ", or_lit(&d.triggered_by, "-"));
    push_line(&mut v, "Created:         ", or_lit(&d.created_at, "-"));
    push_line(&mut v, "Finished:        ", or_lit(&d.finished_at, "-"));
    match &d.error_message {
        Some(e) => push_line(&mut v, "Error:           ", e.clone()),
        None => {},
    }
    assert(lines_of(v@) =~= deployment_lines_spec(*d));
    v
}

pub open spec fn project_lines_spec(p: InfrastructureProject) -> Seq<Seq<char>> {
    seq![
        "ID:           "@ + decimal_int(p.id as int),
        "Name:         "@ + p.name@,
        "Status:       "@ + p.status@,
        "Plan:         "@ + or_default(opt_str(p.plan), "-"@),
        "Organization: "@ + opt_id_spec(p.organization_id),
        "Datacenter:   "@ + opt_id_spec(p.datacenter_id),
        "Created:      "@ + or_default(opt_str(p.created_at), "-"@),
    ]
}

/// The detail view of an infrastructure project.
pub fn project_lines(p: &InfrastructureProject) -> (v: Vec<String>)
    ensures
        lines_of(v@) == project_lines_spec(*p),
{
    let mut v: Vec<String> = Vec::new();
    assert(lines_of(v@) =~= Seq::<Seq<char>>::empty());
    push_line(&mut v, "ID:           ", fmt_i64(p.id));
    push_line(&mut v, "Name:         ", p.name.clone());
    push_line(&mut v, "Status:       ", p.status.clone());
    push_line(&mut v, "Plan:         ", or_lit(&p.plan, "-"));
    push_line(&mut v, "Organization: ", opt_id(p.organization_id));
    push_line(&mut v, "Datacenter:   ", opt_id(p.datacenter_id));
    push_line(&mut v, "Created:      ", or_lit(&p.created_at, "-"));
    assert(lines_of(v@) =~= project_lines_spec(*p));
    v
}

/// The footer under a page of deployments names the page, the number of
/// pages, and how many of the total the page shows. The number of pages is
/// the total divided by the page size (taken as 1 when it is 0) and rounded
/// up: `pages` below is any number with that property, so it depends on the
/// total and the page size alone, not on how many rows the page shows.
pub proof fn law_page_footer_counts_pages(
    page: u32,
    per_page: u32,
    shown: nat,
    total: u32,
    pages: nat,
)
    requires
        pages * (if per_page == 0 {
            1nat
        } else {
            per_page as nat
        }) >= total,
        pages * (if per_page == 0 {
            1nat
        } else {
            per_page as nat
        }) < total + (if per_page == 0 {
            1nat
        } else {
            per_page as nat
        }),
    ensures
        page_footer_spec(page, per_page, shown, total) == "Page "@ + decimal(page as nat) + " of "@
            + decimal(pages) + " (showing "@ + decimal(shown) + "/"@ + decimal(total as nat) + ")"@,
{
    let m: int = if per_page == 0 {
        1
    } else {
        per_page as int
    };
    let t: int = total as int;
    let n: int = pages as int;
    assert(n == (t + m - 1) / m) by (nonlinear_arith)
        requires
            m >= 1,
            t >= 0,
            n >= 0,
            n * m >= t,
            n * m < t + m,
    {
        let q = (t + m - 1) / m;
        let r = (t + m - 1) % m;
        assert(q * m + r == t + m - 1);
        assert(0 <= r < m);
        if n < q {
            assert(n + 1 <= q);
            assert((n + 1) * m <= q * m);
        } else if n > q {
            assert(q + 1 <= n);
            assert((q + 1) * m <= n * m);
        }
    }
    assert(pages == page_count_spec(total, per_page));
}

/// A token's row begins with its id, in a column of at least six
/// characters, followed by ` *` when it is the current token and by two
/// spaces when it is not.
pub proof fn law_token_row_marks_current(t: ApiToken)
    ensures
        token_row_spec(t).take(decimal_int(t.id as int).len() as int) == decimal_int(t.id as int),
        token_row_spec(t).subrange(
            if decimal_int(t.id as int).len() >= 6 {
                decimal_int(t.id as int).len() as int
            } else {
                6
            },
            (if decimal_int(t.id as int).len() >= 6 {
                decimal_int(t.id as int).len() as int
            } else {
                6
            }) + 2,
        ) == (if t.current {
            " *"@
        } else {
            "  "@
        }),
{
    let d = decimal_int(t.id as int);
    let w: int = if d.len() >= 6 {
        d.len() as int
    } else {
        6
    };
    let col_id = pad_spec(d, 6);
    let marker = if t.current {
        " *"@
    } else {
        "  "@
    };
    reveal_strlit(" *");
    reveal_strlit("  ");
    let rest = tcol(t.name@, 24) + col(t.created_at@, 25) + col(
        or_default(opt_str(t.last_used_at), "never"@),
        25,
    ) + or_default(opt_str(t.expires_at), "never"@);
    assert(col_id.len() == w);
    assert(col_id.take(d.len() as int) =~= d);
    assert(token_row_spec(t) =~= col_id + marker + rest);
    assert(token_row_spec(t).take(d.len() as int) =~= d);
    assert(token_row_spec(t).subrange(w, w + 2) =~= marker);
}

/// Whether `c` stands in `row` from position `at` on.
pub open spec fn cell_at(row: Seq<char>, at: int, c: Seq<char>) -> bool {
    0 <= at && at + c.len() <= row.len() && row.subrange(at, at + c.len()) == c
}

proof fn lemma_cell(pre: Seq<char>, x: Seq<char>, post: Seq<char>, c: Seq<char>)
    requires
        c.len() <= x.len(),
        x.take(c.len() as int) == c,
    ensures
        cell_at(pre + x + post, pre.len() as int, c),
{
    assert((pre + x + post).subrange(pre.len() as int, (pre.len() + c.len()) as int) =~= x.take(
        c.len() as int,
    ));
}

proof fn lemma_pad(s: Seq<char>, w: nat)
    ensures
        pad_spec(s, w).len() == if s.len() >= w {
            s.len()
        } else {
            w
        },
        pad_spec(s, w).take(s.len() as int) == s,
{
    assert(pad_spec(s, w).take(s.len() as int) =~= s);
}

proof fn lemma_col(s: Seq<char>, w: nat)
    ensures
        s.len() <= w ==> col(s, w).len() == w + 2,
        s.len() <= col(s, w).len(),
        col(s, w).take(s.len() as int) == s,
{
    lemma_pad(s, w);
    reveal_strlit("  ");
    assert(col(s, w).take(s.len() as int) =~= pad_spec(s, w).take(s.len() as int));
}

proof fn lemma_tcol(s: Seq<char>, w: nat)
    requires
        w > 0,
    ensures
        truncate_spec(s, w).len() <= w,
        tcol(s, w).len() == w + 2,
        tcol(s, w).take(truncate_spec(s, w).len() as int) == truncate_spec(s, w),
{
    lemma_col(truncate_spec(s, w), w);
}

/// Each row of the tokens table lines up with its header: the id under `ID`,
/// the current-token marker right after the id column, the name (shortened
/// to 24 characters) under `NAME`, then the creation time, the last use
/// (`never` when unused) and the expiry (`never` when none) under theirs,
/// as long as the id and the times fit their columns.
pub proof fn law_token_row_lines_up(t: ApiToken)
    requires
        decimal_int(t.id as int).len() <= 6,
        t.created_at@.len() <= 25,
        or_default(opt_str(t.last_used_at), "never"@).len() <= 25,
    ensures
        cell_at(tokens_header_spec(), 0, "ID"@),
        cell_at(token_row_spec(t), 0, decimal_int(t.id as int)),
        cell_at(
            token_row_spec(t),
            6,
            if t.current {
                " *"@
            } else {
                "  "@
            },
        ),
        cell_at(tokens_header_spec(), 8, "NAME"@),
        cell_at(token_row_spec(t), 8, truncate_spec(t.name@, 24)),
        cell_at(tokens_header_spec(), 34, "CREATED"@),
        cell_at(token_row_spec(t), 34, t.created_at@),
        cell_at(tokens_header_spec(), 61, "LAST USED"@),
        cell_at(token_row_spec(t), 61, or_default(opt_str(t.last_used_at), "never"@)),
        tokens_header_spec().skip(88) == "EXPIRES"@,
        token_row_spec(t).skip(88) == or_default(opt_str(t.expires_at), "never"@),
{
    reveal_strlit("ID");
    reveal_strlit("NAME");
    reveal_strlit("CREATED");
    reveal_strlit("LAST USED");
    reveal_strlit(" *");
    reveal_strlit("  ");
    let h1 = col("ID"@, 6);
    let h2 = col("NAME"@, 24);
    let h3 = col("CREATED"@, 25);
    let h4 = col("LAST USED"@, 25);
    lemma_col("ID"@, 6);
    lemma_col("NAME"@, 24);
    lemma_col("CREATED"@, 25);
    lemma_col("LAST USED"@, 25);
    let h5 = "EXPIRES"@;
    let h = tokens_header_spec();
    assert(h == h1 + h2 + h3 + h4 + h5);
    lemma_cell(Seq::empty(), h1, h2 + h3 + h4 + h5, "ID"@);
    assert(h =~= Seq::empty() + h1 + (h2 + h3 + h4 + h5));
    lemma_cell(h1, h2, h3 + h4 + h5, "NAME"@);
    assert(h =~= h1 + h2 + (h3 + h4 + h5));
    lemma_cell(h1 + h2, h3, h4 + h5, "CREATED"@);
    assert(h =~= (h1 + h2) + h3 + (h4 + h5));
    lemma_cell(h1 + h2 + h3, h4, h5, "LAST USED"@);
    assert(h.skip(88) =~= h5);
    let d = decimal_int(t.id as int);
    let r1 = pad_spec(d, 6);
    let mk = if t.current {
        " *"@
    } else {
        "  "@
    };
    let r2 = tcol(t.name@, 24);
    let r3 = col(t.created_at@, 25);
    let lu = or_default(opt_str(t.last_used_at), "never"@);
    let r4 = col(lu, 25);
    let r5 = or_default(opt_str(t.expires_at), "never"@);
    lemma_pad(d, 6);
    lemma_tcol(t.name@, 24);
    lemma_col(t.created_at@, 25);
    lemma_col(lu, 25);
    let r = token_row_spec(t);
    assert(r == r1 + mk + r2 + r3 + r4 + r5);
    lemma_cell(Seq::empty(), r1, mk + r2 + r3 + r4 + r5, d);
    assert(r =~= Seq::empty() + r1 + (mk + r2 + r3 + r4 + r5));
    assert(mk.take(2) =~= mk);
    lemma_cell(r1, mk, r2 + r3 + r4 + r5, mk);
    assert(r =~= r1 + mk + (r2 + r3 + r4 + r5));
    lemma_cell(r1 + mk, r2, r3 + r4 + r5, truncate_spec(t.name@, 24));
    assert(r =~= (r1 + mk) + r2 + (r3 + r4 + r5));
    lemma_cell(r1 + mk + r2, r3, r4 + r5, t.created_at@);
    assert(r =~= (r1 + mk + r2) + r3 + (r4 + r5));
    lemma_cell(r1 + mk + r2 + r3, r4, r5, lu);
    assert(r.skip(88) =~= r5);
}

/// Each row of the deployments table lines up with its header: the id under
/// `ID`, the version, status and commit (each shortened to its column, `-`
/// for no commit) under theirs, then the creation and finish times (`-` when
/// unknown), as long as the id and the creation time fit their columns.
pub proof fn law_deployment_row_lines_up(d: AppDeployment)
    requires
        decimal_int(d.id as int).len() <= 6,
        or_default(opt_str(d.created_at), "-"@).len() <= 24,
    ensures
        cell_at(deployments_header_spec(), 0, "ID"@),
        cell_at(deployments_header_spec(), 8, "VERSION"@),
        cell_at(deployments_header_spec(), 18, "STATUS"@),
        cell_at(deployments_header_spec(), 34, "COMMIT"@),
        cell_at(deployments_header_spec(), 48, "CREATED"@),
        deployments_header_spec().skip(74) == "FINISHED"@,
        cell_at(deployment_row_spec(d), 0, decimal_int(d.id as int)),
        cell_at(deployment_row_spec(d), 8, truncate_spec(d.version_number@, 8)),
        cell_at(deployment_row_spec(d), 18, truncate_spec(d.status@, 14)),
        cell_at(deployment_row_spec(d), 34, truncate_spec(or_default(opt_str(d.commit_sha), "-"@), 12)),
        cell_at(deployment_row_spec(d), 48, or_default(opt_str(d.created_at), "-"@)),
        deployment_row_spec(d).skip(74) == or_default(opt_str(d.finished_at), "-"@),
{
    reveal_strlit("ID");
    reveal_strlit("VERSION");
    reveal_strlit("STATUS");
    reveal_strlit("COMMIT");
    reveal_strlit("CREATED");
    reveal_strlit("FINISHED");
    let h0 = col("ID"@, 6);
    lemma_col("ID"@, 6);
    let h1 = col("VERSION"@, 8);
    lemma_col("VERSION"@, 8);
    let h2 = col("STATUS"@, 14);
    lemma_col("STATUS"@, 14);
    let h3 = col("COMMIT"@, 12);
    lemma_col("COMMIT"@, 12);
    let h4 = col("CREATED"@, 24);
    lemma_col("CREATED"@, 24);
    let h5 = "FINISHED"@;
    let h = deployments_header_spec();
    assert(h == h0 + h1 + h2 + h3 + h4 + h5);
    lemma_cell(Seq::empty(), h0, (h1 + h2 + h3 + h4 + h5), "ID"@);
    assert(h =~= Seq::empty() + h0 + (h1 + h2 + h3 + h4 + h5));
    lemma_cell((h0), h1, (h2 + h3 + h4 + h5), "VERSION"@);
    assert(h =~= (h0) + h1 + (h2 + h3 + h4 + h5));
    lemma_cell((h0 + h1), h2, (h3 + h4 + h5), "STATUS"@);
    assert(h =~= (h0 + h1) + h2 + (h3 + h4 + h5));
    lemma_cell((h0 + h1 + h2), h3, (h4 + h5), "COMMIT"@);
    assert(h =~= (h0 + h1 + h2) + h3 + (h4 + h5));
    lemma_cell((h0 + h1 + h2 + h3), h4, (h5), "CREATED"@);
    assert(h =~= (h0 + h1 + h2 + h3) + h4 + (h5));
    assert(h.skip(74) =~= h5);
    let r0 = col(decimal_int(d.id as int), 6);
    lemma_col(decimal_int(d.id as int), 6);
    let r1 = tcol(d.version_number@, 8);
    lemma_tcol(d.version_number@, 8);
    let r2 = tcol(d.status@, 14);
    lemma_tcol(d.status@, 14);
    let r3 = tcol(or_default(opt_str(d.commit_sha), "-"@), 12);
    lemma_tcol(or_default(opt_str(d.commit_sha), "-"@), 12);
    let r4 = col(or_default(opt_str(d.created_at), "-"@), 24);
    lemma_col(or_default(opt_str(d.created_at), "-"@), 24);
    let r5 = or_default(opt_str(d.finished_at), "-"@);
    let r = deployment_row_spec(d);
    assert(r == r0 + r1 + r2 + r3 + r4 + r5);
    lemma_cell(Seq::empty(), r0, (r1 + r2 + r3 + r4 + r5), decimal_int(d.id as int));
    assert(r =~= Seq::empty() + r0 + (r1 + r2 + r3 + r4 + r5));
    lemma_cell((r0), r1, (r2 + r3 + r4 + r5), truncate_spec(d.version_number@, 8));
    assert(r =~= (r0) + r1 + (r2 + r3 + r4 + r5));
    lemma_cell((r0 + r1), r2, (r3 + r4 + r5), truncate_spec(d.status@, 14));
    assert(r =~= (r0 + r1) + r2 + (r3 + r4 + r5));
    lemma_cell((r0 + r1 + r2), r3, (r4 + r5), truncate_spec(or_default(opt_str(d.commit_sha), "-"@), 12));
    assert(r =~= (r0 + r1 + r2) + r3 + (r4 + r5));
    lemma_cell((r0 + r1 + r2 + r3), r4, (r5), or_default(opt_str(d.created_at), "-"@));
    assert(r =~= (r0 + r1 + r2 + r3) + r4 + (r5));
    assert(r.skip(74) =~= r5);
}

/// Each row of the projects table lines up with its header: the id under
/// `ID`, the name, status and plan (each shortened to its column, `-` for no
/// plan) under theirs, the organization and datacenter ids (`-` when none)
/// under `ORG` and `DC`, and the creation time (`-` when unknown) last, as
/// long as the ids fit their columns.
pub proof fn law_project_row_lines_up(p: InfrastructureProject)
    requires
        decimal_int(p.id as int).len() <= 6,
        opt_id_spec(p.organization_id).len() <= 6,
        opt_id_spec(p.datacenter_id).len() <= 6,
    ensures
        cell_at(projects_header_spec(), 0, "ID"@),
        cell_at(projects_header_spec(), 8, "NAME"@),
        cell_at(projects_header_spec(), 34, "STATUS"@),
        cell_at(projects_header_spec(), 56, "PLAN"@),
        cell_at(projects_header_spec(), 70, "ORG"@),
        cell_at(projects_header_spec(), 78, "DC"@),
        projects_header_spec().skip(86) == "CREATED"@,
        cell_at(project_row_spec(p), 0, decimal_int(p.id as int)),
        cell_at(project_row_spec(p), 8, truncate_spec(p.name@, 24)),
        cell_at(project_row_spec(p), 34, truncate_spec(p.status@, 20)),
        cell_at(project_row_spec(p), 56, truncate_spec(or_default(opt_str(p.plan), "-"@), 12)),
        cell_at(project_row_spec(p), 70, opt_id_spec(p.organization_id)),
        cell_at(project_row_spec(p), 78, opt_id_spec(p.datacenter_id)),
        project_row_spec(p).skip(86) == or_default(opt_str(p.created_at), "-"@),
{
    reveal_strlit("ID");
    reveal_strlit("NAME");
    reveal_strlit("STATUS");
    reveal_strlit("PLAN");
    reveal_strlit("ORG");
    reveal_strlit("DC");
    reveal_strlit("CREATED");
    let h0 = col("ID"@, 6);
    lemma_col("ID"@, 6);
    let h1 = col("NAME"@, 24);
    lemma_col("NAME"@, 24);
    let h2 = col("STATUS"@, 20);
    lemma_col("STATUS"@, 20);
    let h3 = col("PLAN"@, 12);
    lemma_col("PLAN"@, 12);
    let h4 = col("ORG"@, 6);
    lemma_col("ORG"@, 6);
    let h5 = col("DC"@, 6);
    lemma_col("DC"@, 6);
    let h6 = "CREATED"@;
    let h = projects_header_spec();
    assert(h == h0 + h1 + h2 + h3 + h4 + h5 + h6);
    lemma_cell(Seq::empty(), h0, (h1 + h2 + h3 + h4 + h5 + h6), "ID"@);
    assert(h =~= Seq::empty() + h0 + (h1 + h2 + h3 + h4 + h5 + h6));
    lemma_cell((h0), h1, (h2 + h3 + h4 + h5 + h6), "NAME"@);
    assert(h =~= (h0) + h1 + (h2 + h3 + h4 + h5 + h6));
    lemma_cell((h0 + h1), h2, (h3 + h4 + h5 + h6), "STATUS"@);
    assert(h =~= (h0 + h1) + h2 + (h3 + h4 + h5 + h6));
    lemma_cell((h0 + h1 + h2), h3, (h4 + h5 + h6), "PLAN"@);
    assert(h =~= (h0 + h1 + h2) + h3 + (h4 + h5 + h6));
    lemma_cell((h0 + h1 + h2 + h3), h4, (h5 + h6), "ORG"@);
    assert(h =~= (h0 + h1 + h2 + h3) + h4 + (h5 + h6));
    lemma_cell((h0 + h1 + h2 + h3 + h4), h5, (h6), "DC"@);
    assert(h =~= (h0 + h1 + h2 + h3 + h4) + h5 + (h6));
    assert(h.skip(86) =~= h6);
    let r0 = col(decimal_int(p.id as int), 6);
    lemma_col(decimal_int(p.id as int), 6);
    let r1 = tcol(p.name@, 24);
    lemma_tcol(p.name@, 24);
    let r2 = tcol(p.status@, 20);
    lemma_tcol(p.status@, 20);
    let r3 = tcol(or_default(opt_str(p.plan), "-"@), 12);
    lemma_tcol(or_default(opt_str(p.plan), "-"@), 12);
    let r4 = col(opt_id_spec(p.organization_id), 6);
    lemma_col(opt_id_spec(p.organization_id), 6);
    let r5 = col(opt_id_spec(p.datacenter_id), 6);
    lemma_col(opt_id_spec(p.datacenter_id), 6);
    let r6 = or_default(opt_str(p.created_at), "-"@);
    let r = project_row_spec(p);
    assert(r == r0 + r1 + r2 + r3 + r4 + r5 + r6);
    lemma_cell(Seq::empty(), r0, (r1 + r2 + r3 + r4 + r5 + r6), decimal_int(p.id as int));
    assert(r =~= Seq::empty() + r0 + (r1 + r2 + r3 + r4 + r5 + r6));
    lemma_cell((r0), r1, (r2 + r3 + r4 + r5 + r6), truncate_spec(p.name@, 24));
    assert(r =~= (r0) + r1 + (r2 + r3 + r4 + r5 + r6));
    lemma_cell((r0 + r1), r2, (r3 + r4 + r5 + r6), truncate_spec(p.status@, 20));
    assert(r =~= (r0 + r1) + r2 + (r3 + r4 + r5 + r6));
    lemma_cell((r0 + r1 + r2), r3, (r4 + r5 + r6), truncate_spec(or_default(opt_str(p.plan), "-"@), 12));
    assert(r =~= (r0 + r1 + r2) + r3 + (r4 + r5 + r6));
    lemma_cell((r0 + r1 + r2 + r3), r4, (r5 + r6), opt_id_spec(p.organization_id));
    assert(r =~= (r0 + r1 + r2 + r3) + r4 + (r5 + r6));
    lemma_cell((r0 + r1 + r2 + r3 + r4), r5, (r6), opt_id_spec(p.datacenter_id));
    assert(r =~= (r0 + r1 + r2 + r3 + r4) + r5 + (r6));
    assert(r.skip(86) =~= r6);
}

/// Each row of the apps table lines up with its header: the id under `ID`,
/// then the repository, the domain, the deployment status and the access
/// status, each shortened to its column and `-` when unknown, under theirs,
/// as long as the id fits its column.
pub proof fn law_app_row_lines_up(a: AppConfiguration)
    requires
        decimal_int(a.id as int).len() <= 6,
    ensures
        cell_at(apps_header_spec(), 0, "ID"@),
        cell_at(apps_header_spec(), 8, "REPO"@),
        cell_at(apps_header_spec(), 42, "DOMAIN"@),
        cell_at(apps_header_spec(), 68, "DEPLOYMENT"@),
        cell_at(apps_header_spec(), 84, "ACCESS"@),
        cell_at(app_row_spec(a), 0, decimal_int(a.id as int)),
        cell_at(app_row_spec(a), 8, truncate_spec(or_default(opt_str(a.repository_full_name), "-"@), 32)),
        cell_at(app_row_spec(a), 42, truncate_spec(or_default(opt_str(a.fallback_domain_name), "-"@), 24)),
        cell_at(app_row_spec(a), 68, truncate_spec(or_default(opt_str(a.deployment_status), "-"@), 14)),
        cell_at(app_row_spec(a), 84, truncate_spec(or_default(opt_str(a.accessibility_status), "-"@), 14)),
{
    reveal_strlit("ID");
    reveal_strlit("REPO");
    reveal_strlit("DOMAIN");
    reveal_strlit("DEPLOYMENT");
    reveal_strlit("ACCESS");
    let h0 = col("ID"@, 6);
    lemma_col("ID"@, 6);
    let h1 = col("REPO"@, 32);
    lemma_col("REPO"@, 32);
    let h2 = col("DOMAIN"@, 24);
    lemma_col("DOMAIN"@, 24);
    let h3 = col("DEPLOYMENT"@, 14);
    lemma_col("DEPLOYMENT"@, 14);
    let h4 = pad_spec("ACCESS"@, 14);
    lemma_pad("ACCESS"@, 14);
    let h = apps_header_spec();
    assert(h == h0 + h1 + h2 + h3 + h4);
    lemma_cell(Seq::empty(), h0, (h1 + h2 + h3 + h4), "ID"@);
    assert(h =~= Seq::empty() + h0 + (h1 + h2 + h3 + h4));
    lemma_cell((h0), h1, (h2 + h3 + h4), "REPO"@);
    assert(h =~= (h0) + h1 + (h2 + h3 + h4));
    lemma_cell((h0 + h1), h2, (h3 + h4), "DOMAIN"@);
    assert(h =~= (h0 + h1) + h2 + (h3 + h4));
    lemma_cell((h0 + h1 + h2), h3, (h4), "DEPLOYMENT"@);
    assert(h =~= (h0 + h1 + h2) + h3 + (h4));
    lemma_cell((h0 + h1 + h2 + h3), h4, Seq::empty(), "ACCESS"@);
    assert(h =~= (h0 + h1 + h2 + h3) + h4 + Seq::empty());
    let r0 = col(decimal_int(a.id as int), 6);
    lemma_col(decimal_int(a.id as int), 6);
    let r1 = tcol(or_default(opt_str(a.repository_full_name), "-"@), 32);
    lemma_tcol(or_default(opt_str(a.repository_full_name), "-"@), 32);
    let r2 = tcol(or_default(opt_str(a.fallback_domain_name), "-"@), 24);
    lemma_tcol(or_default(opt_str(a.fallback_domain_name), "-"@), 24);
    let r3 = tcol(or_default(opt_str(a.deployment_status), "-"@), 14);
    lemma_tcol(or_default(opt_str(a.deployment_status), "-"@), 14);
    let r4 = pad_spec(truncate_spec(or_default(opt_str(a.accessibility_status), "-"@), 14), 14);
    lemma_tcol(or_default(opt_str(a.accessibility_status), "-"@), 14);
    lemma_pad(truncate_spec(or_default(opt_str(a.accessibility_status), "-"@), 14), 14);
    let r = app_row_spec(a);
    assert(r == r0 + r1 + r2 + r3 + r4);
    lemma_cell(Seq::empty(), r0, (r1 + r2 + r3 + r4), decimal_int(a.id as int));
    assert(r =~= Seq::empty() + r0 + (r1 + r2 + r3 + r4));
    lemma_cell((r0), r1, (r2 + r3 + r4), truncate_spec(or_default(opt_str(a.repository_full_name), "-"@), 32));
    assert(r =~= (r0) + r1 + (r2 + r3 + r4));
    lemma_cell((r0 + r1), r2, (r3 + r4), truncate_spec(or_default(opt_str(a.fallback_domain_name), "-"@), 24));
    assert(r =~= (r0 + r1) + r2 + (r3 + r4));
    lemma_cell((r0 + r1 + r2), r3, (r4), truncate_spec(or_default(opt_str(a.deployment_status), "-"@), 14));
    assert(r =~= (r0 + r1 + r2) + r3 + (r4));
    lemma_cell((r0 + r1 + r2 + r3), r4, Seq::empty(), truncate_spec(or_default(opt_str(a.accessibility_status), "-"@), 14));
    assert(r =~= (r0 + r1 + r2 + r3) + r4 + Seq::empty());
}

/// Each row of the datacenters table lines up with its header: the id under
/// `ID`, the country code under `CC`, the region and city (each shortened to
/// its column) under theirs, and `yes` or `no` for whether the datacenter is
/// active last, as long as the id and the country code fit their columns.
pub proof fn law_datacenter_row_lines_up(d: Datacenter)
    requires
        decimal_int(d.id as int).len() <= 8,
        d.country@.len() <= 3,
    ensures
        cell_at(datacenters_header_spec(), 0, "ID"@),
        cell_at(datacenters_header_spec(), 10, "CC"@),
        cell_at(datacenters_header_spec(), 15, "REGION"@),
        cell_at(datacenters_header_spec(), 37, "CITY"@),
        datacenters_header_spec().skip(59) == "ACTIVE"@,
        cell_at(datacenter_row_spec(d), 0, decimal_int(d.id as int)),
        cell_at(datacenter_row_spec(d), 10, d.country@),
        cell_at(datacenter_row_spec(d), 15, truncate_spec(d.region@, 20)),
        cell_at(datacenter_row_spec(d), 37, truncate_spec(d.city@, 20)),
        datacenter_row_spec(d).skip(59) == (if d.active { "yes"@ } else { "no"@ }),
{
    reveal_strlit("ID");
    reveal_strlit("CC");
    reveal_strlit("REGION");
    reveal_strlit("CITY");
    reveal_strlit("ACTIVE");
    let h0 = col("ID"@, 8);
    lemma_col("ID"@, 8);
    let h1 = col("CC"@, 3);
    lemma_col("CC"@, 3);
    let h2 = col("REGION"@, 20);
    lemma_col("REGION"@, 20);
    let h3 = col("CITY"@, 20);
    lemma_col("CITY"@, 20);
    let h4 = "ACTIVE"@;
    let h = datacenters_header_spec();
    assert(h == h0 + h1 + h2 + h3 + h4);
    lemma_cell(Seq::empty(), h0, (h1 + h2 + h3 + h4), "ID"@);
    assert(h =~= Seq::empty() + h0 + (h1 + h2 + h3 + h4));
    lemma_cell((h0), h1, (h2 + h3 + h4), "CC"@);
    assert(h =~= (h0) + h1 + (h2 + h3 + h4));
    lemma_cell((h0 + h1), h2, (h3 + h4), "REGION"@);
    assert(h =~= (h0 + h1) + h2 + (h3 + h4));
    lemma_cell((h0 + h1 + h2), h3, (h4), "CITY"@);
    assert(h =~= (h0 + h1 + h2) + h3 + (h4));
    assert(h.skip(59) =~= h4);
    let r0 = col(decimal_int(d.id as int), 8);
    lemma_col(decimal_int(d.id as int), 8);
    let r1 = col(d.country@, 3);
    lemma_col(d.country@, 3);
    let r2 = tcol(d.region@, 20);
    lemma_tcol(d.region@, 20);
    let r3 = tcol(d.city@, 20);
    lemma_tcol(d.city@, 20);
    let r4 = (if d.active { "yes"@ } else { "no"@ });
    let r = datacenter_row_spec(d);
    assert(r == r0 + r1 + r2 + r3 + r4);
    lemma_cell(Seq::empty(), r0, (r1 + r2 + r3 + r4), decimal_int(d.id as int));
    assert(r =~= Seq::empty() + r0 + (r1 + r2 + r3 + r4));
    lemma_cell((r0), r1, (r2 + r3 + r4), d.country@);
    assert(r =~= (r0) + r1 + (r2 + r3 + r4));
    lemma_cell((r0 + r1), r2, (r3 + r4), truncate_spec(d.region@, 20));
    assert(r =~= (r0 + r1) + r2 + (r3 + r4));
    lemma_cell((r0 + r1 + r2), r3, (r4), truncate_spec(d.city@, 20));
    assert(r =~= (r0 + r1 + r2) + r3 + (r4));
    assert(r.skip(59) =~= r4);
}

/// Each row of the organizations table lines up with its header: the id
/// under `ID` and the whole name under `NAME`, as long as the id fits its
/// column.
pub proof fn law_organization_row_lines_up(o: Organization)
    requires
        decimal_int(o.id as int).len() <= 8,
    ensures
        cell_at(organizations_header_spec(), 0, "ID"@),
        organizations_header_spec().skip(10) == "NAME"@,
        cell_at(organization_row_spec(o), 0, decimal_int(o.id as int)),
        organization_row_spec(o).skip(10) == o.name@,
{
    reveal_strlit("ID");
    reveal_strlit("NAME");
    let h0 = col("ID"@, 8);
    lemma_col("ID"@, 8);
    let h1 = "NAME"@;
    let h = organizations_header_spec();
    assert(h == h0 + h1);
    lemma_cell(Seq::empty(), h0, (h1), "ID"@);
    assert(h =~= Seq::empty() + h0 + (h1));
    assert(h.skip(10) =~= h1);
    let r0 = col(decimal_int(o.id as int), 8);
    lemma_col(decimal_int(o.id as int), 8);
    let r1 = o.name@;
    let r = organization_row_spec(o);
    assert(r == r0 + r1);
    lemma_cell(Seq::empty(), r0, (r1), decimal_int(o.id as int));
    assert(r =~= Seq::empty() + r0 + (r1));
    assert(r.skip(10) =~= r1);
}

/// Each row of the commits table lines up with its header: the commit,
/// shortened to 12 characters, under `COMMIT`, and the whole message under
/// `MESSAGE`.
pub proof fn law_commit_row_lines_up(c: CommitSummary)
    ensures
        cell_at(commits_header_spec(), 0, "COMMIT"@),
        commits_header_spec().skip(14) == "MESSAGE"@,
        cell_at(commit_row_spec(c), 0, truncate_spec(c.sha@, 12)),
        commit_row_spec(c).skip(14) == c.message@,
{
    reveal_strlit("COMMIT");
    reveal_strlit("MESSAGE");
    let h0 = col("COMMIT"@, 12);
    lemma_col("COMMIT"@, 12);
    let h1 = "MESSAGE"@;
    let h = commits_header_spec();
    assert(h == h0 + h1);
    lemma_cell(Seq::empty(), h0, (h1), "COMMIT"@);
    assert(h =~= Seq::empty() + h0 + (h1));
    assert(h.skip(14) =~= h1);
    let r0 = tcol(c.sha@, 12);
    lemma_tcol(c.sha@, 12);
    let r1 = c.message@;
    let r = commit_row_spec(c);
    assert(r == r0 + r1);
    lemma_cell(Seq::empty(), r0, (r1), truncate_spec(c.sha@, 12));
    assert(r =~= Seq::empty() + r0 + (r1));
    assert(r.skip(14) =~= r1);
}

/// The detail view of a deployment has nine lines, and a tenth, naming the
/// error, exactly when the deployment has an error message; its first line
/// names the id and its third the status.
pub proof fn law_deployment_lines_error_only_when_failed(d: AppDeployment)
    ensures
        deployment_lines_spec(d).len() == if d.error_message is Some {
            10int
        } else {
            9int
        },
        d.error_message matches Some(e) ==> deployment_lines_spec(d).last() == "Error:           "@
            + e@,
        deployment_lines_spec(d)[0] == "ID:              "@ + decimal_int(d.id as int),
        deployment_lines_spec(d)[2] == "Status:          "@ + d.status@,
{
}

} // verus!
