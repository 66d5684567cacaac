use git_mirror::provider::github::GitHub;
use git_mirror::provider::gitlab::{GitLab, GitLabAction, GitLabState};
use git_mirror::provider::http::HttpEvent;
use git_mirror::provider::{
    project_entry, Mirror, MirrorError, MirrorResult, ProjectRecord, Provider,
};

fn record(description: &str) -> ProjectRecord {
    ProjectRecord {
        description: description.to_string(),
        web_url: "https://forge/p".to_string(),
        ssh_url: "git@forge:g/p.git".to_string(),
        http_url: "https://forge/g/p.git".to_string(),
    }
}

fn gitlab(recursive: bool) -> GitLab {
    GitLab {
        url: "https://gitlab.com".to_string(),
        group: "g1".to_string(),
        use_http: false,
        private_token: None,
        recursive,
    }
}

fn response(status: u16, next_page: Option<&str>, body: &str) -> HttpEvent {
    HttpEvent::Response {
        status,
        next_page: next_page.map(|s| s.to_string()),
        body: body.to_string(),
    }
}

#[test]
fn description_full_mirror() {
    let rec = record("origin: ssh://u@a/x.git\nrefspec:\n  - +refs/heads/*:refs/heads/*\nlfs: false\n");
    let entry = project_entry(&rec, false);
    assert_eq!(
        entry,
        Ok(Mirror {
            origin: "ssh://u@a/x.git".to_string(),
            destination: "git@forge:g/p.git".to_string(),
            refspec: Some(vec!["+refs/heads/*:refs/heads/*".to_string()]),
            lfs: false,
        })
    );
}

#[test]
fn description_defaults() {
    let rec = record("origin: ssh://u@a/x.git");
    match project_entry(&rec, false) {
        Ok(m) => {
            assert_eq!(m.origin, "ssh://u@a/x.git");
            assert_eq!(m.refspec, None);
            assert!(m.lfs, "lfs defaults to true");
        }
        other => panic!("expected a mirror job, got {:?}", other),
    }
}

#[test]
fn description_http_destination() {
    let rec = record("origin: ssh://u@a/x.git");
    match project_entry(&rec, true) {
        Ok(m) => assert_eq!(m.destination, "https://forge/g/p.git"),
        other => panic!("expected a mirror job, got {:?}", other),
    }
}

#[test]
fn description_skip() {
    let rec = record("origin: ssh://u@a/x.git\nskip: true\n");
    assert_eq!(
        project_entry(&rec, false),
        Err(MirrorError::Skip("https://forge/p".to_string()))
    );
}

#[test]
fn description_not_yaml() {
    let rec = record(": not yaml [");
    match project_entry(&rec, false) {
        Err(MirrorError::Description(url, cause)) => {
            assert_eq!(url, "https://forge/p");
            assert!(!cause.is_empty());
        }
        other => panic!("expected a parse error, got {:?}", other),
    }
}

#[test]
fn description_missing_origin() {
    let rec = record("skip: false\n");
    match project_entry(&rec, false) {
        Err(MirrorError::Description(url, cause)) => {
            assert_eq!(url, "https://forge/p");
            assert_eq!(cause, "missing field `origin`");
        }
        other => panic!("expected a parse error, got {:?}", other),
    }
}

#[test]
fn labels() {
    assert_eq!(gitlab(true).get_label(), "https://gitlab.com/g1");
    let gh = GitHub {
        url: "https://api.github.com".to_string(),
        org: "octo".to_string(),
        use_http: false,
        private_token: None,
        useragent: "agent".to_string(),
    };
    assert_eq!(gh.get_label(), "https://api.github.com/octo");
}

#[test]
fn gitlab_single_group_single_page() {
    let provider = gitlab(false);
    let state = provider.enumerate_start();
    match provider.enumerate_action(&state) {
        GitLabAction::Request(url) => {
            assert_eq!(
                url,
                "https://gitlab.com/api/v4/groups/g1/projects?per_page=100&page=1"
            );
        }
        _ => panic!("expected a request"),
    }
    let body = "[{\"description\":\"origin: ssh://u@a/x.git\",\
                 \"web_url\":\"https://forge/p\",\
                 \"ssh_url_to_repo\":\"git@forge:g/p.git\",\
                 \"http_url_to_repo\":\"https://forge/g/p.git\"}]";
    let state = provider.enumerate_step(state, response(200, None, body));
    match provider.enumerate_action(&state) {
        GitLabAction::Finish(Ok(entries)) => {
            assert_eq!(entries.len(), 1);
            match &entries[0] {
                Ok(m) => {
                    assert_eq!(m.origin, "ssh://u@a/x.git");
                    assert_eq!(m.destination, "git@forge:g/p.git");
                }
                other => panic!("expected a mirror job, got {:?}", other),
            }
        }
        _ => panic!("expected the enumeration to finish"),
    }
}

#[test]
fn gitlab_pagination_follows_next_page_header() {
    let provider = gitlab(false);
    let state = provider.enumerate_start();
    let page1 = "[{\"description\":\"skip: true\\norigin: a\",\
                  \"web_url\":\"https://forge/p1\",\
                  \"ssh_url_to_repo\":\"s1\",\"http_url_to_repo\":\"h1\"}]";
    let state = provider.enumerate_step(state, response(200, Some("2"), page1));
    match provider.enumerate_action(&state) {
        GitLabAction::Request(url) => {
            assert_eq!(
                url,
                "https://gitlab.com/api/v4/groups/g1/projects?per_page=100&page=2"
            );
        }
        _ => panic!("expected the second page to be requested"),
    }
    let page2 = "[{\"description\":\"skip: true\\norigin: a\",\
                  \"web_url\":\"https://forge/p2\",\
                  \"ssh_url_to_repo\":\"s2\",\"http_url_to_repo\":\"h2\"}]";
    let state = provider.enumerate_step(state, response(200, Some(""), page2));
    match provider.enumerate_action(&state) {
        GitLabAction::Finish(Ok(entries)) => {
            assert_eq!(entries.len(), 2);
            assert_eq!(entries[0], Err(MirrorError::Skip("https://forge/p1".to_string())));
            assert_eq!(entries[1], Err(MirrorError::Skip("https://forge/p2".to_string())));
        }
        _ => panic!("expected the enumeration to finish"),
    }
}

#[test]
fn gitlab_subgroup_discovery_depth_first() {
    let provider = gitlab(true);
    let state = provider.enumerate_start();
    match provider.enumerate_action(&state) {
        GitLabAction::Request(url) => {
            assert_eq!(
                url,
                "https://gitlab.com/api/v4/groups/g1/subgroups?per_page=100&page=1"
            );
        }
        _ => panic!("expected a request"),
    }
    // The root group has one subgroup, 42; 42 has none.
    let state = provider.enumerate_step(state, response(200, None, "[{\"id\": 42}]"));
    match provider.enumerate_action(&state) {
        GitLabAction::Request(url) => {
            assert_eq!(
                url,
                "https://gitlab.com/api/v4/groups/42/subgroups?per_page=100&page=1"
            );
        }
        _ => panic!("expected the subgroup to be expanded"),
    }
    let state = provider.enumerate_step(state, response(200, None, "[]"));
    // Discovery is over; the root group's projects come first.
    match provider.enumerate_action(&state) {
        GitLabAction::Request(url) => {
            assert_eq!(
                url,
                "https://gitlab.com/api/v4/groups/g1/projects?per_page=100&page=1"
            );
        }
        _ => panic!("expected the root group's projects"),
    }
    let state = provider.enumerate_step(state, response(200, None, "[]"));
    match provider.enumerate_action(&state) {
        GitLabAction::Request(url) => {
            assert_eq!(
                url,
                "https://gitlab.com/api/v4/groups/42/projects?per_page=100&page=1"
            );
        }
        _ => panic!("expected the subgroup's projects"),
    }
    let state = provider.enumerate_step(state, response(200, None, "[]"));
    match provider.enumerate_action(&state) {
        GitLabAction::Finish(Ok(entries)) => assert_eq!(entries.len(), 0),
        _ => panic!("expected the enumeration to finish"),
    }
}

#[test]
fn gitlab_discovery_failure_falls_back_to_root() {
    let provider = gitlab(true);
    let state = provider.enumerate_start();
    let state = provider.enumerate_step(state, response(500, None, ""));
    match provider.enumerate_action(&state) {
        GitLabAction::Request(url) => {
            assert_eq!(
                url,
                "https://gitlab.com/api/v4/groups/g1/projects?per_page=100&page=1"
            );
        }
        _ => panic!("expected the fallback to the root group"),
    }
    assert!(matches!(state, GitLabState::FetchProjects { .. }));
}

#[test]
fn gitlab_unauthorized_is_terminal() {
    let provider = gitlab(false);
    let state = provider.enumerate_start();
    let state = provider.enumerate_step(state, response(401, None, ""));
    match provider.enumerate_action(&state) {
        GitLabAction::Finish(Err(msg)) => {
            assert_eq!(
                msg,
                "API call received unautorized (401) for: \
                 https://gitlab.com/api/v4/groups/g1/projects?per_page=100&page=1. \
                 Please make sure the `GITLAB_PRIVATE_TOKEN` environment variable is set."
            );
        }
        _ => panic!("expected the enumeration to fail"),
    }
}

#[test]
fn gitlab_invalid_status_is_terminal() {
    let provider = gitlab(false);
    let state = provider.enumerate_start();
    let state = provider.enumerate_step(state, response(503, None, ""));
    match provider.enumerate_action(&state) {
        GitLabAction::Finish(Err(msg)) => {
            assert_eq!(
                msg,
                "API call received invalid status (503) for : \
                 https://gitlab.com/api/v4/groups/g1/projects?per_page=100&page=1"
            );
        }
        _ => panic!("expected the enumeration to fail"),
    }
}

#[test]
fn gitlab_send_failure_is_terminal() {
    let provider = gitlab(false);
    let state = provider.enumerate_start();
    let state = provider.enumerate_step(
        state,
        HttpEvent::SendFailed("connection refused".to_string()),
    );
    match provider.enumerate_action(&state) {
        GitLabAction::Finish(Err(msg)) => {
            assert_eq!(
                msg,
                "Unable to connect to: \
                 https://gitlab.com/api/v4/groups/g1/projects?per_page=100&page=1 \
                 (connection refused)"
            );
        }
        _ => panic!("expected the enumeration to fail"),
    }
}

#[test]
fn gitlab_bad_json_is_terminal() {
    let provider = gitlab(false);
    let state = provider.enumerate_start();
    let state = provider.enumerate_step(state, response(200, None, "not json"));
    match provider.enumerate_action(&state) {
        GitLabAction::Finish(Err(msg)) => {
            assert!(msg.starts_with("Unable to parse response as JSON ("));
        }
        _ => panic!("expected the enumeration to fail"),
    }
}

#[test]
fn github_single_fetch() {
    let gh = GitHub {
        url: "https://api.github.com".to_string(),
        org: "octo".to_string(),
        use_http: true,
        private_token: None,
        useragent: "agent".to_string(),
    };
    assert_eq!(gh.repos_url(), "https://api.github.com/orgs/octo/repos");
    let body = "[{\"description\":\"origin: ssh://u@a/x.git\",\
                 \"url\":\"https://api.github.com/repos/octo/x\",\
                 \"ssh_url\":\"git@github.com:octo/x.git\",\
                 \"clone_url\":\"https://github.com/octo/x.git\"},\
                {\"description\":null,\
                 \"url\":\"https://api.github.com/repos/octo/y\",\
                 \"ssh_url\":\"git@github.com:octo/y.git\",\
                 \"clone_url\":\"https://github.com/octo/y.git\"}]";
    let entries: Vec<MirrorResult> = gh
        .get_mirror_repos(response(200, None, body))
        .unwrap();
    assert_eq!(entries.len(), 2);
    match &entries[0] {
        Ok(m) => {
            assert_eq!(m.origin, "ssh://u@a/x.git");
            assert_eq!(m.destination, "https://github.com/octo/x.git");
        }
        other => panic!("expected a mirror job, got {:?}", other),
    }
    // An absent description cannot parse, so the second repo is routed as
    // a parse error under its URL.
    match &entries[1] {
        Err(MirrorError::Description(url, _)) => {
            assert_eq!(url, "https://api.github.com/repos/octo/y");
        }
        other => panic!("expected a parse error, got {:?}", other),
    }
}

#[test]
fn github_unauthorized_names_its_token_variable() {
    let gh = GitHub {
        url: "https://api.github.com".to_string(),
        org: "octo".to_string(),
        use_http: false,
        private_token: None,
        useragent: "agent".to_string(),
    };
    match gh.get_mirror_repos(response(401, None, "")) {
        Err(msg) => {
            assert_eq!(
                msg,
                "API call received unautorized (401) for: \
                 https://api.github.com/orgs/octo/repos. \
                 Please make sure the `GITHUB_PRIVATE_TOKEN` environment variable is set."
            );
        }
        Ok(_) => panic!("expected the enumeration to fail"),
    }
}

#[test]
fn github_accept_header_pins_v3() {
    assert_eq!(
        git_mirror::provider::github::accept_header(),
        "application/vnd.github.v3+json"
    );
}

#[test]
fn distinct_origins_distinct_workdirs() {
    let a = git_mirror::layout::workdir_for("m", "ssh://u@a/x.git");
    let b = git_mirror::layout::workdir_for("m", "ssh://u@b/x.git");
    assert_ne!(a, b);
    // Identical origins name the identical directory across runs.
    let again = git_mirror::layout::workdir_for("m", "ssh://u@a/x.git");
    assert_eq!(a, again);
}
