//! One step of a builder: refreshing a repository clone, or running a shell
//! command in a tracked working directory.

use vstd::prelude::*;
use vstd::string::StrSliceExecFns;
use vstd::string::StringExecFns;

use crate::text::{
    char_at, render_str_list, spec_str_list, spec_tokens, spec_trim, tokens, trim,
};

verus! {

/// A task a builder delegates to a worker: refreshing a clone of the
/// repository (through the plain or the GitLab-flavoured refresh of the
/// target engine), or running one shell command, optionally in a named
/// working directory.
pub enum Step {
    GitClone { url: String },
    GitLabClone { url: String },
    Command { command: String, workdir: Option<String> },
}

/// The mathematical value of a `Step`.
pub enum StepView {
    GitClone { url: Seq<char> },
    GitLabClone { url: Seq<char> },
    Command { command: Seq<char>, workdir: Option<Seq<char>> },
}

impl View for Step {
    type V = StepView;

    open spec fn view(&self) -> StepView {
        match self {
            Step::GitClone { url } => StepView::GitClone { url: url@ },
            Step::GitLabClone { url } => StepView::GitLabClone { url: url@ },
            Step::Command { command, workdir } => StepView::Command {
                command: command@,
                workdir: match workdir {
                    Some(w) => Some(w@),
                    None => None,
                },
            },
        }
    }
}

/// First index at or after `i` that does not hold a double quote.
pub open spec fn dq_start_from(s: Seq<char>, i: int) -> int
    decreases s.len() - i,
{
    if i < 0 || i >= s.len() {
        s.len() as int
    } else if s[i] == '"' {
        dq_start_from(s, i + 1)
    } else {
        i
    }
}

/// Scanning backward from `i`, the index just past the last character that is
/// not a double quote.
pub open spec fn dq_end_from(s: Seq<char>, i: int) -> int
    decreases i,
{
    if i <= 0 {
        0
    } else if i > s.len() {
        dq_end_from(s, s.len() as int)
    } else if s[i - 1] == '"' {
        dq_end_from(s, i - 1)
    } else {
        i
    }
}

proof fn lemma_dq_end_le(s: Seq<char>, i: int)
    requires
        0 <= i <= s.len(),
    ensures
        0 <= dq_end_from(s, i) <= i,
    decreases i,
{
    if i > 0 && s[i - 1] == '"' {
        lemma_dq_end_le(s, i - 1);
    }
}

/// `s` with every leading and trailing double quote removed.
pub open spec fn spec_strip_dq(s: Seq<char>) -> Seq<char> {
    let a = dq_start_from(s, 0);
    let b = dq_end_from(s, s.len() as int);
    if a <= b {
        s.subrange(a, b)
    } else {
        Seq::empty()
    }
}

/// The cleaning a step constructor applies to its text: whitespace trimmed,
/// then every double quote at either end removed.
pub open spec fn spec_step_clean(s: Seq<char>) -> Seq<char> {
    spec_strip_dq(spec_trim(s))
}

/// Removes every leading and trailing double quote of `s`.
pub(crate) fn strip_dq(s: &str) -> (r: &str)
    ensures
        r@ == spec_strip_dq(s@),
{
    let n = s.unicode_len();
    let mut a: usize = 0;
    while a < n && char_at(s, a) == '"'
        invariant
            0 <= a <= n,
            n == s@.len(),
            dq_start_from(s@, 0) == dq_start_from(s@, a as int),
        decreases n - a,
    {
        a += 1;
    }
    proof {
        assert(dq_start_from(s@, 0) == a as int);
    }
    let mut b: usize = n;
    while b > a && char_at(s, b - 1) == '"'
        invariant
            a <= b <= n,
            n == s@.len(),
            dq_end_from(s@, n as int) == dq_end_from(s@, b as int),
        decreases b,
    {
        b -= 1;
    }
    proof {
        if b == a {
            lemma_dq_end_le(s@, b as int);
            assert(s@.subrange(a as int, b as int) =~= Seq::<char>::empty());
            if dq_end_from(s@, s@.len() as int) == a as int {
                assert(spec_strip_dq(s@) =~= Seq::<char>::empty());
            }
        } else {
            assert(dq_end_from(s@, b as int) == b as int);
        }
        assert(spec_strip_dq(s@) =~= s@.subrange(a as int, b as int));
    }
    s.substring_char(a, b)
}

/// Cleans a step's text: trims it and strips double quotes from its ends.
fn step_clean(s: &str) -> (r: String)
    ensures
        r@ == spec_step_clean(s@),
{
    strip_dq(trim(s)).to_owned()
}

impl Step {
    /// A shell-command step. The command text is cleaned; the working
    /// directory, if given, is kept as it is.
    pub fn command(command: &str, workdir: Option<&str>) -> (r: Step)
        ensures
            r@ == (StepView::Command {
                command: spec_step_clean(command@),
                workdir: match workdir {
                    Some(w) => Some(w@),
                    None => None,
                },
            }),
    {
        Step::Command {
            command: step_clean(command),
            workdir: match workdir {
                Some(w) => Some(w.to_owned()),
                None => None,
            },
        }
    }

    /// A repository-refresh step for the given URL, after cleaning.
    pub fn git_clone(url: &str) -> (r: Step)
        ensures
            r@ == (StepView::GitClone { url: spec_step_clean(url@) }),
    {
        Step::GitClone { url: step_clean(url) }
    }

    /// A GitLab-flavoured repository-refresh step for the given URL, after
    /// cleaning.
    pub fn gitlab_clone(url: &str) -> (r: Step)
        ensures
            r@ == (StepView::GitLabClone { url: spec_step_clean(url@) }),
    {
        Step::GitLabClone { url: step_clean(url) }
    }
}

/// The text a step contributes to a generated builder: a repository refresh,
/// or a shell command whose text is rendered as a quoted argument vector.
pub open spec fn spec_render_step(v: StepView) -> Seq<char> {
    match v {
        StepView::GitClone { url } => "steps.Git(repourl=\""@ + url
            + "\", mode=\"full\", branch=\"master\", method=\"clobber\", shallow=False, submodules=True)"@,
        StepView::GitLabClone { url } => "steps.GitLab(repourl=\""@ + url
            + "\", mode=\"full\", branch=\"master\", method=\"clobber\", shallow=False, submodules=True)"@,
        StepView::Command { command, workdir: Some(w) } => "steps.ShellCommand(command="@
            + spec_str_list(spec_tokens(command)) + ", workdir=\""@ + w + "\")"@,
        StepView::Command { command, workdir: None } => "steps.ShellCommand(command="@
            + spec_str_list(spec_tokens(command)) + ")"@,
    }
}

impl Step {
    /// Renders this step for the target engine.
    pub fn render(&self) -> (r: String)
        ensures
            r@ == spec_render_step(self@),
    {
        match self {
            Step::GitClone { url } => {
                let mut r = String::new();
                r.append("steps.Git(repourl=\"");
                r.append(url.as_str());
                r.append(
                    "\", mode=\"full\", branch=\"master\", method=\"clobber\", shallow=False, submodules=True)",
                );
                proof {
                    assert(r@ =~= spec_render_step(self@));
                }
                r
            },
            Step::GitLabClone { url } => {
                let mut r = String::new();
                r.append("steps.GitLab(repourl=\"");
                r.append(url.as_str());
                r.append(
                    "\", mode=\"full\", branch=\"master\", method=\"clobber\", shallow=False, submodules=True)",
                );
                proof {
                    assert(r@ =~= spec_render_step(self@));
                }
                r
            },
            Step::Command { command, workdir } => {
                let toks = tokens(command.as_str());
                let list = render_str_list(&toks);
                let mut r = String::new();
                r.append("steps.ShellCommand(command=");
                r.append(list.as_str());
                match workdir {
                    Some(w) => {
                        r.append(", workdir=\"");
                        r.append(w.as_str());
                        r.append("\")");
                    },
                    None => {
                        r.append(")");
                    },
                }
                proof {
                    assert(r@ =~= spec_render_step(self@));
                }
                r
            },
        }
    }
}

} // verus!
