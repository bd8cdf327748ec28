use rusty_ci::{CiError, MailNotifier, MasterConfig, Yaml};

fn full_document() -> String {
    String::from(
        r#"master:
  title: "Demo"
  title-url: "https://example.com"
  repo: "https://example.com/r.git"
  webserver-ip: localhost
  webserver-port: 8010
  poll-interval: 120

merge-request-handler:
  version-control-system: github
  owner: demo-owner
  repo-name: demo
  whitelist:
    - demo-owner

workers:
  w1:
    masterhost: localhost
    basedir: "/tmp/w1"
    password: pass
  w2:
    masterhost: localhost
    basedir: "/tmp/w2"

schedulers:
  demo-change:
    builders:
      - demo-build
    branch: ".*"
    triggers:
      - '.*'
    password: "ok to test"

builders:
  demo-build:
    workers:
      - w1
      - w2
    script:
      - echo hi
    repo: "https://example.com/r.git"
"#,
    )
}

#[test]
fn a_full_document_compiles_and_renders() {
    let yaml = Yaml::from_text(full_document().as_str());
    let master = MasterConfig::from_yaml(&yaml, "token-123").unwrap();
    let workers = master.get_workers();
    assert_eq!(workers.len(), 2);
    assert_eq!(workers[0].get_name(), "w1");
    assert_eq!(workers[1].get_name(), "w2");
    let output = master.render();
    assert!(output.contains("worker.Worker(\"w1\", \"pass\")"));
    assert!(output.contains("c['title'] = \"Demo\""));
    assert!(output.contains("c['buildbotURL'] = \"http://localhost:8010/\""));
    assert!(output.contains("\"https://example.com/r.git\",\n        workdir='gitpoller-workdir'"));
    assert!(output.contains("pollInterval=120"));
    assert!(output.contains("schedulers.AnyBranchScheduler(name=\"demo_change\""));
    assert!(output.contains("util.BuilderConfig(name=\"demo-build\""));
    assert!(output.contains("token=\"token-123\""));
    // no mail notifier attached: no notifier block is rendered
    assert!(!output.contains("reporters.MailNotifier"));
}

#[test]
fn every_missing_top_level_section_is_named() {
    for section in [
        "master",
        "workers",
        "builders",
        "schedulers",
        "merge-request-handler",
    ] {
        let mut doc = String::new();
        for line in full_document().lines() {
            doc.push_str(line);
            doc.push('\n');
        }
        // strike the section's key line so the block below loses its owner
        let crippled = doc.replace(&format!("{}:\n", section), &format!("{}-gone:\n", section));
        let yaml = Yaml::from_text(crippled.as_str());
        match MasterConfig::from_yaml(&yaml, "token-123") {
            Err(CiError::MissingSection { entity, section: missing }) => {
                assert_eq!(entity, "master configuration");
                assert_eq!(missing, section);
            }
            _ => panic!("a document without '{}' must not compile", section),
        }
    }
}

#[test]
fn the_first_missing_master_field_is_named() {
    let doc = full_document().replace("  webserver-ip: localhost\n", "");
    let yaml = Yaml::from_text(doc.as_str());
    match MasterConfig::from_yaml(&yaml, "token-123") {
        Err(CiError::MissingSection { entity, section }) => {
            assert_eq!(entity, "master");
            assert_eq!(section, "webserver-ip");
        }
        _ => panic!("a master without a web UI address must not compile"),
    }
}

#[test]
fn an_empty_secret_is_fatal() {
    let yaml = Yaml::from_text(full_document().as_str());
    match MasterConfig::from_yaml(&yaml, "   \n") {
        Err(CiError::EmptySecret) => {}
        _ => panic!("an empty secret must not compile"),
    }
}

#[test]
fn unmatched_quotes_abort_the_compile() {
    let doc = full_document().replace("title: \"Demo\"", "title: \"Demo");
    let yaml = Yaml::from_text(doc.as_str());
    match MasterConfig::from_yaml(&yaml, "token-123") {
        Err(CiError::UnmatchedQuote { line }) => {
            assert_eq!(line, "  title: \"Demo");
        }
        _ => panic!("unmatched quotes must abort the compile"),
    }
}

#[test]
fn two_compiles_generate_different_passwords_in_the_same_order() {
    let yaml = Yaml::from_text(full_document().as_str());
    let first = MasterConfig::from_yaml(&yaml, "token-123").unwrap();
    let second = MasterConfig::from_yaml(&yaml, "token-123").unwrap();
    let fw = first.get_workers();
    let sw = second.get_workers();
    // identical document order of worker names
    assert_eq!(fw[0].get_name(), sw[0].get_name());
    assert_eq!(fw[1].get_name(), sw[1].get_name());
    // the explicit password is kept, the generated one is fresh
    assert_eq!(fw[0].get_password(), "pass");
    assert_eq!(sw[0].get_password(), "pass");
    assert_ne!(fw[1].get_password(), sw[1].get_password());
}

#[test]
fn the_mail_notifier_is_attached_once_set() {
    let yaml = Yaml::from_text(full_document().as_str());
    let mut master = MasterConfig::from_yaml(&yaml, "token-123").unwrap();
    let mail_yaml = Yaml::from_text(
        "extra-recipients:\n  all:\n    - a@b.c\n  failure:\n    - f@b.c\n  success:\n    - s@b.c\nfrom-address: ci@b.c\nlookup: b.c\nsmtp-relay-host: smtp.b.c\nsmtp-port: 587\nsmtp-password: pw\n",
    );
    let mail = MailNotifier::from_yaml(&mail_yaml).unwrap();
    master.set_mail_notifier(mail);
    let output = master.render();
    assert!(output.contains("reporters.MailNotifier(fromaddr=\"ci@b.c\""));
    assert!(output.contains("extraRecipients=[\"a@b.c\"]"));
}

#[test]
fn an_unsupported_site_degrades_to_a_notice() {
    let doc = full_document().replace(
        "version-control-system: github",
        "version-control-system: subversion",
    );
    let yaml = Yaml::from_text(doc.as_str());
    let master = MasterConfig::from_yaml(&yaml, "token-123").unwrap();
    let output = master.render();
    assert!(output.contains(
        "print('We currently dont support building merge requests on your VCS.')"
    ));
    assert!(!output.contains("GitHubPullrequestPoller"));
}
