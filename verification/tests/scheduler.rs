use rusty_ci::{Scheduler, Yaml};

#[test]
fn scheduler_from_yaml() {
    let yaml = Yaml::from_text(
        r#"xasm-change:
  builders:
    - xasm-build
    - xasm-test

  branch: ".*"
  triggers:
    - '.*\.py'
    - '.*\.cpp'
    - '.*Makefile'
    - '.*CMakeLists.txt'
  password: "ok to test"
"#,
    )
    .get_section("xasm-change")
    .unwrap();

    let scheduler = Scheduler::from_yaml(&yaml).unwrap();
    let output = scheduler.render();

    assert_eq!(
        output,
        "\n@util.renderer\ndef xasm_change_triggers(props):\n    builders = [\"xasm-build\", \"xasm-test\"]\n\n    triggers = [\".*\\\\.py\", \".*\\\\.cpp\", \".*Makefile\", \".*CMakeLists.txt\"]\n\n    if not is_whitelisted(props, \"ok to test\"):\n        print(\'NOT WHITELISTED!!!\')\n        return []\n\n    for f in props.files:\n        for regex in triggers:\n            print(\"FILE:   \", f)\n            print(\"TRIGGER:\", regex)\n            if re.fullmatch(regex, str(f)):\n                return builders\n\n    return []\n\n\nxasm_change = schedulers.AnyBranchScheduler(name=\"xasm_change\",\n    change_filter=util.ChangeFilter(branch_re=\".*\"),\n    builderNames=xasm_change_triggers)\n\nc[\'schedulers\'].append(xasm_change)\n\nc[\'schedulers\'].append(schedulers.ForceScheduler(name=\"force_xasm_change\",\n    builderNames=[\"xasm-build\", \"xasm-test\"]))\n"
    );
}

#[test]
fn dependent_scheduler_renders_the_dependency_form() {
    let yaml = Yaml::from_text(
        "nightly-deploy:\n  builders:\n    - deploy\n  depends: nightly-build\n",
    )
    .get_section("nightly-deploy")
    .unwrap();
    let scheduler = Scheduler::from_yaml(&yaml).unwrap();
    let output = scheduler.render();
    assert!(output.contains(
        "nightly_deploy = schedulers.Dependent(name=\"nightly_deploy\""
    ));
    assert!(output.contains("upstream=nightly_build"));
    assert!(output.contains("builderNames=[\"deploy\"]"));
}

#[test]
fn scheduler_with_dependency_and_branch_uses_the_dependency_form() {
    // both forms in one section: accepted, and the dependency wins
    let yaml = Yaml::from_text(
        "s:\n  builders:\n    - b\n  depends: upstream-s\n  branch: \".*\"\n  triggers:\n    - '.*'\n  password: \"ok\"\n",
    )
    .get_section("s")
    .unwrap();
    let scheduler = Scheduler::from_yaml(&yaml).unwrap();
    let output = scheduler.render();
    assert!(output.contains("schedulers.Dependent"));
    assert!(!output.contains("AnyBranchScheduler"));
    assert!(!output.contains("is_whitelisted"));
}

#[test]
fn scheduler_missing_section_names_the_field() {
    let yaml = Yaml::from_text("s:\n  builders:\n    - b\n  branch: \".*\"\n")
        .get_section("s")
        .unwrap();
    match Scheduler::from_yaml(&yaml) {
        Err(rusty_ci::CiError::MissingSection { entity, section }) => {
            assert_eq!(entity, "scheduler 's'");
            assert_eq!(section, "password");
        }
        _ => panic!("a change-triggered scheduler without a password must not build"),
    }
}
