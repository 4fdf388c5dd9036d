use nvg::cli::{
    AuthCommand, Command, NestedProjectCommand, ProjectsArgs, ProjectsCommand, TokensCommand,
    parse_nested, word_is,
};
use nvg::commands::{Action, route};

fn words(ws: &[&str]) -> Vec<String> {
    ws.iter().map(|s| s.to_string()).collect()
}

fn err_of(ws: &[&str]) -> String {
    match parse_nested(&words(ws)) {
        Err(m) => m,
        Ok(_) => panic!("expected an error"),
    }
}

#[test]
fn nested_apps_list() {
    match parse_nested(&words(&["12", "apps", "list"])).unwrap() {
        NestedProjectCommand::AppsList { project_id } => assert_eq!(project_id, "12"),
        _ => panic!("wrong command"),
    }
}

#[test]
fn nested_apps_show() {
    match parse_nested(&words(&["12", "apps", "show", "7"])).unwrap() {
        NestedProjectCommand::AppsShow { project_id, app_id } => {
            assert_eq!(project_id, "12");
            assert_eq!(app_id, "7");
        }
        _ => panic!("wrong command"),
    }
}

#[test]
fn nested_apps_show_after_app_id() {
    match parse_nested(&words(&["1", "apps", "2", "show"])).unwrap() {
        NestedProjectCommand::AppsShow { project_id, app_id } => {
            assert_eq!(project_id, "1");
            assert_eq!(app_id, "2");
        }
        _ => panic!("wrong command"),
    }
}

#[test]
fn nested_deployments_commits() {
    match parse_nested(&words(&[
        "1", "apps", "2", "deployments", "commits", "--branch", "main", "--limit", "5",
    ]))
    .unwrap()
    {
        NestedProjectCommand::DeploymentsCommits { project_id, app_id, branch, limit } => {
            assert_eq!(project_id, "1");
            assert_eq!(app_id, "2");
            assert_eq!(branch.as_deref(), Some("main"));
            assert_eq!(limit, Some(5));
        }
        _ => panic!("wrong command"),
    }
    match parse_nested(&words(&["1", "apps", "2", "deployments", "commits", "--branch", "main"])).unwrap() {
        NestedProjectCommand::DeploymentsCommits { branch, limit, .. } => {
            assert_eq!(branch.as_deref(), Some("main"));
            assert_eq!(limit, None);
        }
        _ => panic!("wrong command"),
    }
    match parse_nested(&words(&["1", "apps", "2", "deployments", "commits", "--limit", "x"])).unwrap() {
        NestedProjectCommand::DeploymentsCommits { branch, limit, .. } => {
            assert_eq!(branch, None);
            assert_eq!(limit, None);
        }
        _ => panic!("wrong command"),
    }
}

#[test]
fn nested_deployments_list_with_page() {
    match parse_nested(&words(&["1", "apps", "2", "deployments", "list", "--page", "3"])).unwrap() {
        NestedProjectCommand::DeploymentsList { project_id, app_id, page } => {
            assert_eq!(project_id, "1");
            assert_eq!(app_id, "2");
            assert_eq!(page, Some(3));
        }
        _ => panic!("wrong command"),
    }
}

#[test]
fn nested_deployments_list_page_edge_cases() {
    let page_of = |ws: &[&str]| match parse_nested(&words(ws)).unwrap() {
        NestedProjectCommand::DeploymentsList { page, .. } => page,
        _ => panic!("wrong command"),
    };
    assert_eq!(page_of(&["1", "apps", "2", "deployments", "list"]), None);
    assert_eq!(page_of(&["1", "apps", "2", "deployments", "list", "--page"]), None);
    assert_eq!(page_of(&["1", "apps", "2", "deployments", "list", "--page", "x"]), None);
    assert_eq!(page_of(&["1", "apps", "2", "deployments", "list", "--page", "+4"]), Some(4));
    assert_eq!(page_of(&["1", "apps", "2", "deployments", "list", "--page", "-4"]), None);
    assert_eq!(
        page_of(&["1", "apps", "2", "deployments", "list", "--page", "4294967296"]),
        None
    );
    // The last --page wins; a --page consumed as a value is not a flag.
    assert_eq!(
        page_of(&["1", "apps", "2", "deployments", "list", "--page", "2", "x", "--page", "5"]),
        Some(5)
    );
    assert_eq!(
        page_of(&["1", "apps", "2", "deployments", "list", "--page", "--page", "5"]),
        None
    );
}

#[test]
fn nested_deployments_show() {
    match parse_nested(&words(&["1", "apps", "2", "deployments", "show", "v3"])).unwrap() {
        NestedProjectCommand::DeploymentsShow { project_id, app_id, version } => {
            assert_eq!((project_id.as_str(), app_id.as_str(), version.as_str()), ("1", "2", "v3"));
        }
        _ => panic!("wrong command"),
    }
}

#[test]
fn nested_deployments_create_docker_image() {
    match parse_nested(&words(&[
        "1", "apps", "2", "deployments", "create", "--docker-image", "nginx:1", "--port", "8080",
    ]))
    .unwrap()
    {
        NestedProjectCommand::DeploymentsCreate { image, branch, commit, .. } => {
            assert_eq!(image.as_deref(), Some("nginx:1"));
            assert_eq!(branch, None);
            assert_eq!(commit, None);
        }
        _ => panic!("wrong command"),
    }
}

#[test]
fn nested_deployments_create_flags() {
    match parse_nested(&words(&[
        "1", "apps", "2", "deployments", "create", "--branch", "main", "--commit", "abc123",
    ]))
    .unwrap()
    {
        NestedProjectCommand::DeploymentsCreate { project_id, app_id, image, branch, commit } => {
            assert_eq!(project_id, "1");
            assert_eq!(app_id, "2");
            assert_eq!(image, None);
            assert_eq!(branch.as_deref(), Some("main"));
            assert_eq!(commit.as_deref(), Some("abc123"));
        }
        _ => panic!("wrong command"),
    }
    match parse_nested(&words(&[
        "1", "apps", "2", "deployments", "create", "--image", "a", "junk", "--image", "b", "--commit",
    ]))
    .unwrap()
    {
        NestedProjectCommand::DeploymentsCreate { image, branch, commit, .. } => {
            assert_eq!(image.as_deref(), Some("b"));
            assert_eq!(branch, None);
            assert_eq!(commit, None);
        }
        _ => panic!("wrong command"),
    }
}

#[test]
fn nested_deployments_logs_follow() {
    match parse_nested(&words(&["1", "apps", "2", "deployments", "logs", "v3", "--follow"])).unwrap() {
        NestedProjectCommand::DeploymentsLogs { version, follow, .. } => {
            assert_eq!(version, "v3");
            assert!(follow);
        }
        _ => panic!("wrong command"),
    }
    match parse_nested(&words(&["1", "apps", "2", "deployments", "logs", "v3"])).unwrap() {
        NestedProjectCommand::DeploymentsLogs { follow, .. } => assert!(!follow),
        _ => panic!("wrong command"),
    }
}

#[test]
fn nested_errors() {
    assert_eq!(err_of(&[]), "missing <project_id>");
    assert_eq!(err_of(&["1"]), "expected `apps` after project id");
    assert_eq!(err_of(&["1", "apss"]), "unknown subcommand `apss`, expected `apps`");
    assert_eq!(err_of(&["1", "apps"]), "expected apps subcommand");
    assert_eq!(err_of(&["1", "apps", "show"]), "missing <app_id>");
    assert_eq!(err_of(&["1", "apps", "2"]), "expected `deployments` after app id");
    assert_eq!(err_of(&["1", "apps", "2", "foo"]), "unknown group `foo`, expected `deployments`");
    assert_eq!(err_of(&["1", "apps", "2", "deployments"]), "expected deployments subcommand");
    assert_eq!(err_of(&["1", "apps", "2", "deployments", "show"]), "missing <version>");
    assert_eq!(err_of(&["1", "apps", "2", "deployments", "logs"]), "missing <version>");
    assert_eq!(
        err_of(&["1", "apps", "2", "deployments", "rollback"]),
        "unknown deployments subcommand `rollback`"
    );
}

#[test]
fn word_comparison() {
    assert!(word_is(&"apps".to_string(), "apps"));
    assert!(!word_is(&"app".to_string(), "apps"));
    assert!(!word_is(&"Apps".to_string(), "apps"));
}

#[test]
fn route_plain_commands() {
    assert!(matches!(route(Command::Skill), Ok(Action::Skill)));
    assert!(matches!(
        route(Command::Auth { command: AuthCommand::Login { no_wait: true } }),
        Ok(Action::Login { no_wait: true })
    ));
    match route(Command::Auth {
        command: AuthCommand::Tokens { command: TokensCommand::Revoke { id: "9".to_string() } },
    }) {
        Ok(Action::TokensRevoke { id }) => assert_eq!(id, "9"),
        _ => panic!("wrong action"),
    }
    assert!(!Action::Skill.needs_context());
    assert!(Action::Status.needs_context());
}

#[test]
fn route_nested_commands() {
    let nested = |ws: &[&str]| {
        route(Command::Projects(ProjectsArgs { command: ProjectsCommand::Nested(words(ws)) }))
    };
    assert!(matches!(
        nested(&["3", "apps", "list"]),
        Ok(Action::Nested(NestedProjectCommand::AppsList { .. }))
    ));
    match nested(&["3", "bogus"]) {
        Err(m) => assert_eq!(m, "unknown subcommand `bogus`, expected `apps`"),
        Ok(_) => panic!("expected an error"),
    }
}
