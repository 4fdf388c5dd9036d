use nvg::api::{
    ApiClient, HttpMethod, PollStep, apps_path, classify_poll, poll_step_for, decode_plan, deployment_create_body,
    deployment_logs_path, deployments_commits_path, deployments_list_path, poll_body,
    project_create_body, projects_path, token_create_body, token_path, unexpected,
};
use nvg::error::{ApiError, check_response, error_for_status, exit_code_for, map_error};
use nvg::json::{nested_str, top_str};

fn client(base: &str, token: Option<&str>) -> ApiClient {
    ApiClient::new(base, token.map(String::from), reqwest::Client::new())
}

fn msg(e: &ApiError) -> String {
    e.message()
}

#[test]
fn base_url_loses_trailing_slashes() {
    assert_eq!(client("https://api.example//", None).base_url, "https://api.example");
    assert_eq!(client("https://api.example", None).base_url, "https://api.example");
    assert_eq!(client("///", None).base_url, "");
}

#[test]
fn url_joins_paths() {
    let c = client("https://api.example/", None);
    assert_eq!(c.url("/cli/v1/viewer"), "https://api.example/cli/v1/viewer");
    assert_eq!(c.url("cli/v1/viewer"), "https://api.example/cli/v1/viewer");
    assert_eq!(c.url(""), "https://api.example/");
}

#[test]
fn request_headers() {
    let c = client("https://api.example", Some("nvg_abc"));
    let r = c.request(HttpMethod::Post, "/cli/v1/tokens", Some("{}".to_string()));
    assert!(r.method == HttpMethod::Post);
    assert_eq!(r.url, "https://api.example/cli/v1/tokens");
    let hs: Vec<(&str, &str)> = r.headers.iter().map(|(a, b)| (a.as_str(), b.as_str())).collect();
    assert_eq!(
        hs,
        vec![
            ("user-agent", "nvg/0.1.0"),
            ("accept", "application/json"),
            ("authorization", "Bearer nvg_abc"),
            ("content-type", "application/json"),
        ]
    );
    assert_eq!(r.body.as_deref(), Some("{}"));

    let anon = client("https://api.example", None);
    let r = anon.request(HttpMethod::Get, "/cli/v1/viewer", None);
    assert_eq!(r.headers.len(), 2);
    assert_eq!(r.body, None);
}

#[test]
fn poll_request_has_no_token() {
    let c = client("https://api.example", Some("nvg_abc"));
    let r = c.poll_request("dev\"ice");
    assert_eq!(r.url, "https://api.example/cli/v1/device_authorizations/poll");
    assert!(r.headers.iter().all(|(k, _)| k != "authorization"));
    assert_eq!(r.body.as_deref(), Some(r#"{"device_code":"dev\"ice"}"#));
}

#[test]
fn paths() {
    assert_eq!(projects_path(None), "/cli/v1/infrastructure_projects");
    assert_eq!(projects_path(Some(12)), "/cli/v1/infrastructure_projects?organization_id=12");
    assert_eq!(apps_path(5), "/cli/v1/infrastructure_projects/5/app_configurations");
    assert_eq!(token_path("17"), "/cli/v1/tokens/17");
    assert_eq!(
        deployments_list_path(1, 2, None, None),
        "/cli/v1/infrastructure_projects/1/app_configurations/2/app_deployments"
    );
    assert_eq!(
        deployments_list_path(1, 2, Some(3), Some(50)),
        "/cli/v1/infrastructure_projects/1/app_configurations/2/app_deployments?page=3&per_page=50"
    );
    assert_eq!(
        deployments_list_path(1, 2, None, Some(50)),
        "/cli/v1/infrastructure_projects/1/app_configurations/2/app_deployments?per_page=50"
    );
    assert_eq!(
        deployments_commits_path(1, 2, Some("main"), Some(5)),
        "/cli/v1/infrastructure_projects/1/app_configurations/2/app_deployments/commits?branch=main&limit=5"
    );
    assert_eq!(
        deployment_logs_path(1, 2, "v3"),
        "/cli/v1/infrastructure_projects/1/app_configurations/2/app_deployments/v3/logs"
    );
}

#[test]
fn request_bodies() {
    assert_eq!(
        token_create_body("laptop", None),
        r#"{"token":{"expires_at":null,"name":"laptop"}}"#
    );
    assert_eq!(
        token_create_body("a\"b", Some("2030-01-01")),
        r#"{"token":{"expires_at":"2030-01-01","name":"a\"b"}}"#
    );
    assert_eq!(poll_body("abc"), r#"{"device_code":"abc"}"#);
    assert_eq!(
        poll_body("a\u{1}\u{1f}\t\r\u{8}\u{c}\\/é"),
        r#"{"device_code":"a\u0001\u001f\t\r\b\f\\/é"}"#
    );
    assert_eq!(deployment_create_body(None, None, None), r#"{"deployment":{}}"#);
    assert_eq!(
        deployment_create_body(Some("main"), None, Some("nginx:1")),
        r#"{"deployment":{"branch_name":"main","image":"nginx:1"}}"#
    );
    assert_eq!(
        project_create_body("my app", "hobby", 1, -2, &["456".to_string(), "7\n".to_string()]),
        r#"{"project":{"name":"my app","plan_type":"hobby","datacenter_id":1,"organization_id":-2,"repository_ids":["456","7\n"]}}"#
    );
    assert_eq!(
        project_create_body("x", "pro", 3, 4, &[]),
        r#"{"project":{"name":"x","plan_type":"pro","datacenter_id":3,"organization_id":4,"repository_ids":[]}}"#
    );
}

#[test]
fn json_lookups() {
    let body = r#"{"error":{"code":"not_found","message":"Project","n":1},"checkout_url":"https://pay"}"#;
    assert_eq!(nested_str(body, "error", "code").as_deref(), Some("not_found"));
    assert_eq!(nested_str(body, "error", "n"), None);
    assert_eq!(nested_str(body, "missing", "code"), None);
    assert_eq!(top_str(body, "checkout_url").as_deref(), Some("https://pay"));
    assert_eq!(top_str("not json", "checkout_url"), None);
    assert_eq!(top_str("[1]", "checkout_url"), None);
}

#[test]
fn status_mapping() {
    assert!(matches!(map_error(401, ""), ApiError::Unauthorized));
    assert!(matches!(map_error(403, "{}"), ApiError::Forbidden));
    match map_error(402, r#"{"error":{"message":"pay up"},"checkout_url":"https://pay"}"#) {
        ApiError::PaymentRequired { message, checkout_url } => {
            assert_eq!(message, "pay up");
            assert_eq!(checkout_url.as_deref(), Some("https://pay"));
        }
        e => panic!("wrong error {}", e.message()),
    }
    match map_error(402, r#"{"error":{"message":"pay up"}}"#) {
        ApiError::PaymentRequired { message, checkout_url } => {
            assert_eq!(message, "pay up");
            assert_eq!(checkout_url, None);
        }
        e => panic!("wrong error {}", e.message()),
    }
    match map_error(404, r#"{"error":{"code":"project","message":""}}"#) {
        ApiError::NotFound(s) => assert_eq!(s, "project"),
        e => panic!("wrong error {}", e.message()),
    }
    match map_error(404, r#"{"error":{"code":"project","message":"Project 9"}}"#) {
        ApiError::NotFound(s) => assert_eq!(s, "Project 9"),
        e => panic!("wrong error {}", e.message()),
    }
    match map_error(422, r#"{"error":{"message":"name is taken"}}"#) {
        ApiError::Unprocessable(s) => assert_eq!(s, "name is taken"),
        e => panic!("wrong error {}", e.message()),
    }
    assert!(matches!(map_error(503, "oops"), ApiError::Server(503)));
    match map_error(418, r#"{"error":{"message":"teapot"}}"#) {
        ApiError::Unexpected(s) => assert_eq!(s, "HTTP 418 teapot"),
        e => panic!("wrong error {}", e.message()),
    }
    match map_error(301, "") {
        ApiError::Unexpected(s) => assert_eq!(s, "HTTP 301 "),
        e => panic!("wrong error {}", e.message()),
    }
    assert!(check_response(204, "").is_ok());
    assert!(matches!(check_response(401, ""), Err(ApiError::Unauthorized)));
}

#[test]
fn messages_and_exit_codes() {
    assert_eq!(msg(&ApiError::Unauthorized), "not authenticated. Run `nvg auth login`.");
    assert_eq!(
        msg(&ApiError::PaymentRequired { message: "u".into(), checkout_url: None }),
        "payment required: u"
    );
    assert_eq!(
        msg(&map_error(
            402,
            r#"{"error":{"code":"requires_payment","message":"Card required"},"checkout_url":"https://checkout.stripe.com/c/1"}"#
        )),
        "payment required: Card required (checkout: https://checkout.stripe.com/c/1)"
    );
    assert_eq!(
        msg(&ApiError::PaymentRequired { message: "".into(), checkout_url: Some("https://c".into()) }),
        "payment required: https://c"
    );
    assert_eq!(msg(&ApiError::Forbidden), "not authorized for this resource.");
    assert_eq!(msg(&ApiError::NotFound("Project".into())), "Project not found.");
    assert_eq!(msg(&ApiError::Unprocessable("bad".into())), "validation error: bad");
    assert_eq!(msg(&ApiError::Server(502)), "server error (502). Try again or contact support.");
    assert_eq!(
        msg(&net("dns")),
        "could not reach https://navegante.app: dns."
    );
    assert_eq!(msg(&ApiError::Unexpected("x".into())), "unexpected response: x");

    assert_eq!(exit_code_for(Some(&map_error(401, ""))), 3);
    assert_eq!(exit_code_for(Some(&map_error(402, ""))), 2);
    assert_eq!(exit_code_for(Some(&map_error(404, ""))), 4);
    assert_eq!(exit_code_for(Some(&map_error(500, ""))), 1);
    assert_eq!(exit_code_for(Some(&map_error(403, ""))), 1);
    assert_eq!(exit_code_for(None), 1);
    assert_eq!(error_for_status(422, "m".into(), "c".into(), None).exit_code(), 1);
}

#[test]
fn poll_classification() {
    assert!(matches!(classify_poll(200, "{}"), Ok(PollStep::Approved)));
    assert!(matches!(
        classify_poll(400, r#"{"error":{"code":"authorization_pending"}}"#),
        Ok(PollStep::Pending)
    ));
    assert!(matches!(
        classify_poll(400, r#"{"error":{"code":"expired_token"}}"#),
        Ok(PollStep::Expired)
    ));
    match classify_poll(400, r#"{"error":{"code":"access_denied"}}"#) {
        Err(ApiError::Unexpected(s)) => assert_eq!(s, "poll error: access_denied"),
        _ => panic!("wrong outcome"),
    }
    match classify_poll(400, "garbage") {
        Err(ApiError::Unexpected(s)) => assert_eq!(s, "poll error: "),
        _ => panic!("wrong outcome"),
    }
    match classify_poll(404, "") {
        Err(ApiError::NotFound(s)) => assert_eq!(s, "Device authorization not found."),
        _ => panic!("wrong outcome"),
    }
    assert!(matches!(classify_poll(502, ""), Err(ApiError::Server(502))));
    match classify_poll(429, "slow down") {
        Err(ApiError::Unexpected(s)) => assert_eq!(s, "HTTP 429 slow down"),
        _ => panic!("wrong outcome"),
    }
}

#[test]
fn decoding_plan() {
    let p = decode_plan("");
    assert_eq!((p.json.as_str(), p.context.as_str()), ("null", "expected JSON body"));
    let p = decode_plan("{\"a\":1}");
    assert_eq!((p.json.as_str(), p.context.as_str()), ("{\"a\":1}", "decoding JSON"));
    match unexpected("decoding JSON", "EOF") {
        ApiError::Unexpected(s) => assert_eq!(s, "decoding JSON: EOF"),
        _ => panic!("wrong error"),
    }
}

#[test]
fn poll_decisions_from_code() {
    assert!(matches!(poll_step_for(400, "authorization_pending", ""), Ok(PollStep::Pending)));
    assert!(matches!(poll_step_for(400, "expired_token", ""), Ok(PollStep::Expired)));
    assert!(matches!(poll_step_for(204, "expired_token", ""), Ok(PollStep::Approved)));
    match poll_step_for(400, "slow_down", "{}") {
        Err(ApiError::Unexpected(s)) => assert_eq!(s, "poll error: slow_down"),
        _ => panic!("wrong outcome"),
    }
    match poll_step_for(401, "", "nope") {
        Err(ApiError::Unexpected(s)) => assert_eq!(s, "HTTP 401 nope"),
        _ => panic!("wrong outcome"),
    }
}

fn net(reason: &str) -> ApiError {
    ApiError::Network { url: "https://navegante.app".to_string(), reason: reason.to_string() }
}

#[test]
fn unreachable_server_names_the_api_url() {
    let e = client("https://staging.navegante.app/", None).network_error("connection refused".to_string());
    assert_eq!(e.message(), "could not reach https://staging.navegante.app: connection refused.");
    assert_eq!(e.exit_code(), 1);
}
