use rusty_ci::Step;

#[test]
fn command_step() {
    assert_eq!(
        Step::command("cmake ..", Some("build")).render(),
        format!(
            "steps.ShellCommand(command={:?}, workdir=\"{}\")",
            vec!["cmake", ".."],
            "build"
        )
    );
}

#[test]
fn git_clone_step() {
    let url = "https://github.com/adam-mcdaniel/rusty-ci";
    assert_eq!(
        Step::git_clone(url).render(),
        format!(
            "steps.Git(repourl=\"{}\", mode=\"full\", branch=\"master\", method=\"clobber\", shallow=False, submodules=True)",
            url
        )
    );
}

#[test]
fn git_lab_clone_step() {
    let url = "https://gitlab.com/adam-mcdaniel/rusty-ci";
    assert_eq!(
        Step::gitlab_clone(url).render(),
        format!(
            "steps.GitLab(repourl=\"{}\", mode=\"full\", branch=\"master\", method=\"clobber\", shallow=False, submodules=True)",
            url
        )
    );
}

#[test]
fn command_step_escapes_quotes_and_backslashes() {
    // the embedded argument vector escapes the artifact's own quote character
    let step = Step::command("grep a\\b", None);
    assert_eq!(
        step.render(),
        "steps.ShellCommand(command=[\"grep\", \"a\\\\b\"])"
    );
}

#[test]
fn command_step_without_workdir() {
    assert_eq!(
        Step::command("make", None).render(),
        "steps.ShellCommand(command=[\"make\"])"
    );
}
