use rusty_ci::{CiError, MergeRequestHandler, VersionControlSystem, Yaml};

fn merge_section() -> Yaml {
    Yaml::from_text(
        "version-control-system: gitlab\nowner: demo-owner\nrepo-name: demo\nwhitelist:\n  - \"demo-owner\"\n  - 'friend'\n",
    )
}

#[test]
fn gitlab_handler_renders_the_status_push() {
    let handler = MergeRequestHandler::from_yaml(&merge_section(), " token-9 ").unwrap();
    let output = handler.render();
    assert!(output.contains("reporters.GitLabStatusPush(token='token-9'"));
    assert!(output.contains("def is_whitelisted(props, password): return True"));
}

#[test]
fn github_handler_quotes_the_whitelist() {
    let yaml = Yaml::from_text(
        "version-control-system: github\nowner: demo-owner\nrepo-name: demo\nwhitelist:\n  - \"demo-owner\"\n  - 'friend'\n",
    );
    let handler = MergeRequestHandler::from_yaml(&yaml, "token-9").unwrap();
    let output = handler.render();
    // the document's quotes are normalized away before the list is rendered
    assert!(output.contains("whitelist_authors = [\"demo-owner\", \"friend\"]"));
    assert!(output.contains("owner=\"demo-owner\""));
    assert!(output.contains("token=\"token-9\""));
}

#[test]
fn an_empty_token_is_rejected() {
    match MergeRequestHandler::from_yaml(&merge_section(), "  ") {
        Err(CiError::EmptySecret) => {}
        _ => panic!("an empty token must be rejected"),
    }
}

#[test]
fn a_missing_owner_is_named() {
    let yaml = Yaml::from_text(
        "version-control-system: github\nrepo-name: demo\nwhitelist:\n  - x\n",
    );
    match MergeRequestHandler::from_yaml(&yaml, "token") {
        Err(CiError::MissingSection { entity, section }) => {
            assert_eq!(entity, "merge request handler");
            assert_eq!(section, "owner");
        }
        _ => panic!("a handler without an owner must not build"),
    }
}

#[test]
fn an_unknown_site_is_unsupported_not_fatal() {
    let yaml = Yaml::from_text(
        "version-control-system: darcs\nowner: o\nrepo-name: r\nwhitelist:\n  - x\n",
    );
    let handler = MergeRequestHandler::from_yaml(&yaml, "token").unwrap();
    assert_eq!(
        handler.render(),
        "print('We currently dont support building merge requests on your VCS.')"
    );
    let _ = VersionControlSystem::Unsupported;
}
