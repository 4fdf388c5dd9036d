use nvg::commands::{
    CheckoutStep, Context, CreateFollowUp, LoginStep, after_create, checkout_pending,
    checkout_step, checkout_timeout_message, current_token_id, deployment_created_message,
    first_poll_interval, follow_emit, follow_step, is_terminal_status, login_expired_message, login_step,
    logout_message, parse_id, project_deleted_message, require_auth, should_follow,
    status_report, token_revoked_message,
};
use nvg::config::{Config, ResolvedProfile};
use nvg::error::ApiError;
use nvg::models::{
    ApiToken, AppConfiguration, AppDeployment, Datacenter, DeploymentLogs, InfrastructureProject, Organization,
    PollOutcome, PollTokenPayload, ProjectCreateResult, Viewer,
};
use nvg::render::{
    app_lines, app_row, apps_header, datacenter_row, datacenters_header, deployment_lines,
    deployment_row, deployments_header, opt_id, organization_row, organizations_header,
    page_count, page_footer, project_lines, project_row, projects_header, token_row, tokens_header,
};

fn token(id: i64, name: &str, current: bool) -> ApiToken {
    ApiToken {
        id,
        name: name.to_string(),
        last_used_at: None,
        expires_at: Some("2030-01-01T00:00:00Z".to_string()),
        created_at: "2025-01-01T00:00:00Z".to_string(),
        current,
        plaintext: None,
    }
}

fn project(id: i64, checkout_status: Option<&str>) -> InfrastructureProject {
    project_with_status(id, "active", checkout_status)
}

fn project_with_status(id: i64, status: &str, checkout_status: Option<&str>) -> InfrastructureProject {
    InfrastructureProject {
        id,
        name: "my-app".to_string(),
        status: status.to_string(),
        plan: Some("hobby".to_string()),
        datacenter_id: Some(3),
        organization_id: None,
        checkout_status: checkout_status.map(String::from),
        created_at: None,
        checkout_url: None,
    }
}

fn deployment(error: Option<&str>) -> AppDeployment {
    AppDeployment {
        id: 41,
        version_number: "v3".to_string(),
        status: "completed".to_string(),
        created_at: Some("2025-02-02".to_string()),
        finished_at: None,
        commit_sha: Some("0123456789abcdef".to_string()),
        app_configuration_id: Some(2),
        triggered_by: None,
        image: None,
        error_message: error.map(String::from),
    }
}

fn profile(token: Option<&str>) -> ResolvedProfile {
    ResolvedProfile {
        name: "default".to_string(),
        api_url: "https://api.example".to_string(),
        token: token.map(String::from),
    }
}

#[test]
fn auth_is_required() {
    assert!(require_auth(&profile(Some("nvg_x"))).is_ok());
    assert!(matches!(require_auth(&profile(None)), Err(ApiError::Unauthorized)));
}

#[test]
fn context_from_config() {
    let mut cfg = Config::new();
    cfg.set_profile("default", "https://api.example/", Some("nvg_t".to_string()));
    let ctx = Context::build(&cfg, None, true, reqwest::Client::new());
    assert_eq!(ctx.profile.name, "default");
    assert_eq!(ctx.api.base_url, "https://api.example");
    assert_eq!(ctx.api.token.as_deref(), Some("nvg_t"));
    assert!(ctx.json);
}

#[test]
fn numeric_ids() {
    assert_eq!(parse_id("42", "project_id").ok(), Some(42));
    match parse_id("abc", "--org") {
        Err(e) => {
            assert_eq!(e.label, "--org");
            assert_eq!(e.input, "abc");
        }
        Ok(_) => panic!("expected an error"),
    }
    assert!(parse_id("", "app_id").is_err());
    match parse_id("v3", "project_id") {
        Err(e) => assert_eq!(e.message(), "project_id must be a numeric id (got \"v3\")"),
        Ok(_) => panic!("expected an error"),
    }
    match parse_id("a\"b\\", "app_id") {
        Err(e) => assert_eq!(e.message(), "app_id must be a numeric id (got \"a\\\"b\\\\\")"),
        Ok(_) => panic!("expected an error"),
    }
}

#[test]
fn terminal_statuses() {
    for s in ["completed", "error", "canceled", "cancelled", "failed"] {
        assert!(is_terminal_status(Some(s)), "{s}");
    }
    assert!(!is_terminal_status(Some("running")));
    assert!(!is_terminal_status(Some("Completed")));
    assert!(!is_terminal_status(None));
    assert!(should_follow(true, Some("running")));
    assert!(!should_follow(true, Some("failed")));
    assert!(!should_follow(false, None));
}

#[test]
fn following_logs() {
    // The log grew: print the new tail.
    assert_eq!(follow_emit("abc", 3, "abcdef"), Some(3));
    // Nothing new.
    assert_eq!(follow_emit("abc", 3, "abc"), None);
    assert_eq!(follow_emit("abc", 6, "abcdef"), None);
    // The buffer was replaced by a longer one: print past what is on screen.
    assert_eq!(follow_emit("abc", 3, "xyzxyz"), Some(3));
    // A replaced, shorter buffer prints nothing.
    assert_eq!(follow_emit("abcdef", 6, "xy"), None);
    // Offsets count bytes, as `str::len` does.
    assert_eq!(follow_emit("é", 2, "éa"), Some(2));
}

fn logs(text: &str, status: Option<&str>) -> DeploymentLogs {
    DeploymentLogs {
        deployment_id: "41".to_string(),
        log_string: text.to_string(),
        fetched_at: "2025-01-01T00:00:00Z".to_string(),
        status: status.map(String::from),
    }
}

#[test]
fn follow_steps() {
    let failed: Result<DeploymentLogs, ApiError> = Err(net("down"));
    let d = follow_step("abc", 3, &failed);
    assert_eq!((d.emit_from, d.printed, d.stop), (None, 3, false));

    let grown = Ok(logs("abcdef", Some("running")));
    let d = follow_step("abc", 3, &grown);
    assert_eq!((d.emit_from, d.printed, d.stop), (Some(3), 6, false));

    let same = Ok(logs("abcdef", Some("completed")));
    let d = follow_step("abc", 6, &same);
    assert_eq!((d.emit_from, d.printed, d.stop), (None, 6, true));

    let last = Ok(logs("abcdefgh", Some("failed")));
    let d = follow_step("abc", 6, &last);
    assert_eq!((d.emit_from, d.printed, d.stop), (Some(6), 8, true));

    let no_status = Ok(logs("ab", None));
    let d = follow_step("abc", 3, &no_status);
    assert_eq!((d.emit_from, d.printed, d.stop), (None, 3, false));
}

#[test]
fn login_steps() {
    let payload = PollTokenPayload {
        id: 5,
        name: "cli".to_string(),
        expires_at: None,
        created_at: "now".to_string(),
        plaintext: "nvg_secret".to_string(),
    };
    match login_step(Ok(PollOutcome::Approved(payload)), 5, 5) {
        LoginStep::Approved(t) => assert_eq!(t.plaintext, "nvg_secret"),
        _ => panic!("wrong step"),
    }
    assert!(matches!(login_step(Ok(PollOutcome::Pending), 5, 5), LoginStep::Retry { interval_secs: 5 }));
    assert!(matches!(login_step(Ok(PollOutcome::Expired), 5, 5), LoginStep::Expired));
    assert!(matches!(
        login_step(Err(net("down")), 5, 5),
        LoginStep::Retry { interval_secs: 6 }
    ));
    assert!(matches!(
        login_step(Err(net("down")), 10, 5),
        LoginStep::Retry { interval_secs: 10 }
    ));
    assert!(matches!(
        login_step(Err(net("down")), 30, 30),
        LoginStep::Retry { interval_secs: 30 }
    ));
    assert!(matches!(
        login_step(Err(net("down")), 20, 20),
        LoginStep::Retry { interval_secs: 20 }
    ));
    assert!(matches!(
        login_step(Err(net("down")), 12, 5),
        LoginStep::Retry { interval_secs: 10 }
    ));
    assert!(matches!(
        login_step(Err(net("down")), u64::MAX, 5),
        LoginStep::Retry { interval_secs: 10 }
    ));
    assert!(matches!(
        login_step(Err(ApiError::Server(500)), 5, 5),
        LoginStep::Failed(ApiError::Server(500))
    ));
    assert_eq!(first_poll_interval(0), 1);
    assert_eq!(first_poll_interval(5), 5);
    assert_eq!(login_expired_message(), "device authorization expired before approval");
}

#[test]
fn logout_picks_current_token() {
    let tokens = vec![token(1, "a", false), token(2, "b", true), token(3, "c", true)];
    assert_eq!(current_token_id(&tokens), Some(2));
    assert_eq!(current_token_id(&vec![token(1, "a", false)]), None);
    assert_eq!(current_token_id(&vec![]), None);
    assert_eq!(logout_message(Some(2)), "Logged out (revoked token 2).");
    assert_eq!(logout_message(None), "Logged out.");
    assert_eq!(token_revoked_message("17"), "Token 17 revoked.");
}

#[test]
fn status_reports() {
    let r = status_report(&profile(None), None);
    assert!(!r.authenticated);
    assert_eq!(r.profile, "default");
    let viewer = Viewer { id: 1, email_address: "a@b.c".to_string(), verified: true };
    let r = status_report(&profile(Some("t")), Some(viewer));
    assert!(r.authenticated);
    assert_eq!(r.viewer.unwrap().email_address, "a@b.c");
}

#[test]
fn project_creation_follow_up() {
    let pending = ProjectCreateResult {
        project: project_with_status(9, "pending_payment", None),
        checkout_url: Some("https://checkout".to_string()),
    };
    assert!(checkout_pending(&pending.project));
    match after_create(&pending) {
        CreateFollowUp::AwaitPayment { checkout_url } => assert_eq!(checkout_url, "https://checkout"),
        _ => panic!("should wait"),
    }
    let pending_no_url = ProjectCreateResult {
        project: project_with_status(9, "pending_payment", Some("payment_pending")),
        checkout_url: None,
    };
    assert!(matches!(after_create(&pending_no_url), CreateFollowUp::Done { ready_line: None }));
    let paid = ProjectCreateResult { project: project(9, Some("paid")), checkout_url: Some("u".into()) };
    match after_create(&paid) {
        CreateFollowUp::Done { ready_line: Some(l) } => assert_eq!(l, "Project 9 ready."),
        _ => panic!("should be done"),
    }
    // The checkout field alone does not hold a project back: its status does.
    let active = ProjectCreateResult { project: project(9, Some("payment_pending")), checkout_url: Some("u".into()) };
    assert!(matches!(after_create(&active), CreateFollowUp::Done { ready_line: Some(_) }));
    assert!(!checkout_pending(&project(1, None)));
    assert!(checkout_pending(&project_with_status(1, "pending_payment", Some("paid"))));
}

#[test]
fn payment_wait_steps() {
    assert!(matches!(
        checkout_step(9, Ok(project_with_status(9, "pending_payment", None))),
        CheckoutStep::Wait
    ));
    match checkout_step(9, Ok(project(9, Some("complete")))) {
        CheckoutStep::Ready(l) => assert_eq!(l, "Project 9 ready (status: active)."),
        _ => panic!("should be ready"),
    }
    match checkout_step(9, Ok(project(9, Some("payment_pending")))) {
        CheckoutStep::Ready(l) => assert_eq!(l, "Project 9 ready (status: active)."),
        _ => panic!("status decides"),
    }
    assert!(matches!(checkout_step(9, Err(net("x"))), CheckoutStep::Wait));
    assert!(matches!(
        checkout_step(9, Err(ApiError::Forbidden)),
        CheckoutStep::Failed(ApiError::Forbidden)
    ));
    assert_eq!(
        checkout_timeout_message(9),
        "Timed out waiting for payment. Re-run `nvg projects show 9` later."
    );
    assert_eq!(project_deleted_message(-3), "Project -3 deleted.");
}

#[test]
fn token_table() {
    assert_eq!(
        tokens_header(),
        format!("{:<6}  {:<24}  {:<25}  {:<25}  {}", "ID", "NAME", "CREATED", "LAST USED", "EXPIRES")
    );
    let t = token(7, "a-very-long-token-name-that-overflows", true);
    assert_eq!(
        token_row(&t),
        format!(
            "{:<6}{}{:<24}  {:<25}  {:<25}  {}",
            7, " *", "a-very-long-token-name-…", "2025-01-01T00:00:00Z", "never", "2030-01-01T00:00:00Z"
        )
    );
}

#[test]
fn app_table_and_view() {
    let a = AppConfiguration {
        id: 2,
        infrastructure_project_id: 1,
        repository_name: None,
        repository_full_name: Some("org/repo".to_string()),
        deployment_status: Some("deployed".to_string()),
        accessibility_status: None,
        deployment_flavor: None,
        fallback_domain_name: Some("app.example.com".to_string()),
        ip_address: None,
        status: None,
        created_at: None,
    };
    assert_eq!(
        apps_header(),
        format!("{:<6}  {:<32}  {:<24}  {:<14}  {:<14}", "ID", "REPO", "DOMAIN", "DEPLOYMENT", "ACCESS")
    );
    assert_eq!(
        app_row(&a),
        format!("{:<6}  {:<32}  {:<24}  {:<14}  {:<14}", 2, "org/repo", "app.example.com", "deployed", "-")
    );
    let lines = app_lines(&a);
    assert_eq!(lines.len(), 10);
    assert_eq!(lines[0], "ID:                   2");
    assert_eq!(lines[2], "Repository:           org/repo");
    assert_eq!(lines[9], "Created:              -");
}

#[test]
fn datacenter_and_org_tables() {
    let d = Datacenter {
        id: 1,
        country: "PT".to_string(),
        region: "Lisboa".to_string(),
        city: "Lisbon".to_string(),
        active: true,
    };
    assert_eq!(
        datacenters_header(),
        format!("{:<8}  {:<3}  {:<20}  {:<20}  {}", "ID", "CC", "REGION", "CITY", "ACTIVE")
    );
    assert_eq!(
        datacenter_row(&d),
        format!("{:<8}  {:<3}  {:<20}  {:<20}  {}", 1, "PT", "Lisboa", "Lisbon", "yes")
    );
    let o = Organization { id: 12, name: "Acme".to_string() };
    assert_eq!(organizations_header(), format!("{:<8}  {}", "ID", "NAME"));
    assert_eq!(organization_row(&o), format!("{:<8}  {}", 12, "Acme"));
}

#[test]
fn project_table_and_view() {
    let p = project(9, None);
    assert_eq!(
        projects_header(),
        format!("{:<6}  {:<24}  {:<20}  {:<12}  {:<6}  {:<6}  {}", "ID", "NAME", "STATUS", "PLAN", "ORG", "DC", "CREATED")
    );
    assert_eq!(
        project_row(&p),
        format!("{:<6}  {:<24}  {:<20}  {:<12}  {:<6}  {:<6}  {}", 9, "my-app", "active", "hobby", "-", "3", "-")
    );
    let lines = project_lines(&p);
    assert_eq!(lines[4], "Organization: -");
    assert_eq!(lines[5], "Datacenter:   3");
    assert_eq!(opt_id(Some(-5)), "-5");
    assert_eq!(opt_id(None), "-");
}

#[test]
fn deployment_table_and_view() {
    let d = deployment(None);
    assert_eq!(
        deployments_header(),
        format!("{:<6}  {:<8}  {:<14}  {:<12}  {:<24}  {}", "ID", "VERSION", "STATUS", "COMMIT", "CREATED", "FINISHED")
    );
    assert_eq!(
        deployment_row(&d),
        format!("{:<6}  {:<8}  {:<14}  {:<12}  {:<24}  {}", 41, "v3", "completed", "0123456789a…", "2025-02-02", "-")
    );
    assert_eq!(deployment_lines(&d).len(), 9);
    let failed = deployment_lines(&deployment(Some("boom")));
    assert_eq!(failed.len(), 10);
    assert_eq!(failed[9], "Error:           boom");
    assert_eq!(failed[3], "App config:      2");
    assert_eq!(deployment_created_message(&d), "Created deployment 41 (v3).");
}

#[test]
fn pagination_footer() {
    assert_eq!(page_count(0, 20), 0);
    assert_eq!(page_count(41, 20), 3);
    assert_eq!(page_count(40, 20), 2);
    assert_eq!(page_count(5, 0), 5);
    assert_eq!(page_count(u32::MAX, 1), u32::MAX);
    assert_eq!(page_count(u32::MAX, u32::MAX), 1);
    for (total, per) in [(7u32, 3u32), (1, 1), (100, 7), (u32::MAX, 2)] {
        let via_float = ((total as f64) / (per.max(1) as f64)).ceil() as u32;
        assert_eq!(page_count(total, per), via_float);
    }
    assert_eq!(page_footer(2, 20, 20, 41), "Page 2 of 3 (showing 20/41)");
}

fn net(reason: &str) -> ApiError {
    ApiError::Network { url: "https://navegante.app".to_string(), reason: reason.to_string() }
}
