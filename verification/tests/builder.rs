use rusty_ci::{Builder, Yaml};

#[test]
fn builder_from_yaml() {
    let yaml = Yaml::from_text(
        r#"xasm-build:
  workers:
    - xasm-worker

  script:
    - python main.py
    - echo XASM build done!

  repo: "https://github.com/adam-mcdaniel/xasm"
"#,
    )
    .get_section("xasm-build")
    .unwrap();

    let builder = Builder::from_yaml(&yaml).unwrap();
    let output = builder.render();

    assert_eq!(
        output,
        "
temp_factory = util.BuildFactory()
temp_factory.addStep(steps.Git(repourl=\"https://github.com/adam-mcdaniel/xasm\", mode=\"full\", branch=\"master\", method=\"clobber\", shallow=False, submodules=True))
temp_factory.addStep(steps.GitLab(repourl=\"https://github.com/adam-mcdaniel/xasm\", mode=\"full\", branch=\"master\", method=\"clobber\", shallow=False, submodules=True))
temp_factory.addStep(steps.ShellCommand(command=[\"python\", \"main.py\"], workdir=\"./build\"))
temp_factory.addStep(steps.ShellCommand(command=[\"echo\", \"XASM\", \"build\", \"done!\"], workdir=\"./build\"))
c['builders'].append(
    util.BuilderConfig(name=\"xasm-build\",
    workernames=[\"xasm-worker\"],
    factory=temp_factory))
        "
        .to_string()
    )
}

#[test]
fn directory_changes_fold_into_the_working_directory() {
    let yaml = Yaml::from_text(
        "b:\n  workers:\n    - w\n  script:\n    - cd sub\n    - cd sub2\n    - make\n  repo: r\n",
    )
    .get_section("b")
    .unwrap();
    let builder = Builder::from_yaml(&yaml).unwrap();
    let output = builder.render();
    // exactly one command step, in the tracked directory; the cd lines emit none
    assert_eq!(output.matches("steps.ShellCommand").count(), 1);
    assert!(output.contains(
        "steps.ShellCommand(command=[\"make\"], workdir=\"./build/sub/sub2\")"
    ));
    assert!(!output.contains("\"cd\""));
}

#[test]
fn builder_begins_with_the_clone_step() {
    let yaml = Yaml::from_text(
        "b:\n  workers:\n    - w\n  script:\n    - echo hi\n  repo: \"https://example.com/r.git\"\n",
    )
    .get_section("b")
    .unwrap();
    let builder = Builder::from_yaml(&yaml).unwrap();
    let output = builder.render();
    let clone_at = output.find("steps.Git(repourl=\"https://example.com/r.git\"").unwrap();
    let command_at = output.find("steps.ShellCommand").unwrap();
    assert!(clone_at < command_at);
}

#[test]
fn builder_missing_section_names_the_field() {
    let yaml = Yaml::from_text("b:\n  workers:\n    - w\n  repo: r\n")
        .get_section("b")
        .unwrap();
    match Builder::from_yaml(&yaml) {
        Err(rusty_ci::CiError::MissingSection { entity, section }) => {
            assert_eq!(entity, "builder 'b'");
            assert_eq!(section, "script");
        }
        _ => panic!("a builder without a script must not build"),
    }
}
