//! A builder: a named, ordered script of build steps delegated to a set of
//! workers, together with the tiny interpreter that turns directory-change
//! instructions into tracked working-directory state.

use vstd::prelude::*;
use vstd::string::StrSliceExecFns;
use vstd::string::StringExecFns;

use crate::error::{CiError, CiErrorView};
use crate::step::{spec_render_step, spec_step_clean, Step, StepView};
use crate::text::{
    render_str_list, spec_str_list, spec_tokens, str_eq, tokens,
};
use crate::yaml::{
    spec_has_section, spec_scalar_items, spec_unwrap, unwrap, Yaml, YamlView,
};

verus! {

/// A builder of the pipeline: its name, the workers it may delegate to, and
/// its steps in execution order.
pub struct Builder {
    name: String,
    workernames: Vec<String>,
    steps: Vec<Step>,
}

/// The mathematical value of a `Builder`.
pub struct BuilderView {
    pub name: Seq<char>,
    pub workernames: Seq<Seq<char>>,
    pub steps: Seq<StepView>,
}

impl View for Builder {
    type V = BuilderView;

    closed spec fn view(&self) -> BuilderView {
        BuilderView {
            name: self.name@,
            workernames: self.workernames.deep_view(),
            steps: self.steps@.map_values(|s: Step| s@),
        }
    }
}

// ---------------------------------------------------------------------------
// The script interpreter
// ---------------------------------------------------------------------------

/// Appending one path segment to a working directory: an absolute segment
/// replaces the directory, any other is joined with a slash.
pub open spec fn spec_path_push(dir: Seq<char>, seg: Seq<char>) -> Seq<char> {
    if seg.len() > 0 && seg[0] == '/' {
        seg
    } else {
        dir + "/"@ + seg
    }
}

/// A directory-change instruction: the keyword `cd` followed by exactly one
/// further token. With zero or more than one trailing token the instruction
/// is an ordinary command.
pub open spec fn spec_is_cd(toks: Seq<Seq<char>>) -> bool {
    toks.len() == 2 && toks[0] == "cd"@
}

/// The steps the script instructions from index `i` on emit, starting in
/// working directory `dir`: a directory change only moves the directory,
/// every other instruction becomes a command step carrying a snapshot of the
/// directory it runs in.
pub open spec fn interp_steps(instrs: Seq<Seq<char>>, i: int, dir: Seq<char>) -> Seq<StepView>
    decreases instrs.len() - i,
{
    if i < 0 || i >= instrs.len() {
        Seq::empty()
    } else {
        let t = spec_tokens(instrs[i]);
        if spec_is_cd(t) {
            interp_steps(instrs, i + 1, spec_path_push(dir, t[1]))
        } else {
            seq![
                StepView::Command { command: spec_step_clean(instrs[i]), workdir: Some(dir) },
            ] + interp_steps(instrs, i + 1, dir)
        }
    }
}

/// The fixed directory a builder's script starts in.
pub open spec fn spec_start_dir() -> Seq<char> {
    "./build"@
}

/// Joins `seg` onto the working directory `dir`.
fn path_push(dir: &String, seg: &str) -> (r: String)
    ensures
        r@ == spec_path_push(dir@, seg@),
{
    if seg.unicode_len() > 0 && crate::text::char_at(seg, 0) == '/' {
        seg.to_owned()
    } else {
        let mut r = dir.clone();
        r.append("/");
        r.append(seg);
        r
    }
}

/// Runs a script: interprets directory changes and emits the remaining
/// instructions as command steps with their working directories.
fn run_script(instrs: &Vec<String>) -> (r: Vec<Step>)
    ensures
        r@.map_values(|s: Step| s@) == interp_steps(instrs.deep_view(), 0, spec_start_dir()),
{
    let n = instrs.len();
    let mut r: Vec<Step> = Vec::new();
    let mut dir = String::from_str("./build");
    let mut i: usize = 0;
    while i < n
        invariant
            0 <= i <= n,
            n == instrs.deep_view().len(),
            interp_steps(instrs.deep_view(), 0, spec_start_dir()) =~= r@.map_values(
                |s: Step| s@,
            ) + interp_steps(instrs.deep_view(), i as int, dir@),
        decreases n - i,
    {
        let instr = instrs[i].as_str();
        proof {
            assert(instr@ == instrs.deep_view()[i as int]);
        }
        let toks = tokens(instr);
        if toks.len() == 2 && str_eq(toks[0].as_str(), "cd") {
            proof {
                assert(toks.deep_view()[0] == toks@[0]@);
                assert(toks.deep_view()[1] == toks@[1]@);
                assert(spec_is_cd(spec_tokens(instr@)));
            }
            let new_dir = path_push(&dir, toks[1].as_str());
            proof {
                assert(interp_steps(instrs.deep_view(), i as int, dir@) == interp_steps(
                    instrs.deep_view(),
                    i + 1,
                    spec_path_push(dir@, spec_tokens(instr@)[1]),
                ));
            }
            dir = new_dir;
        } else {
            proof {
                if toks.deep_view().len() == 2 {
                    assert(toks.deep_view()[0] == toks@[0]@);
                }
                assert(!spec_is_cd(spec_tokens(instr@)));
            }
            let ghost old_views = r@.map_values(|s: Step| s@);
            let step = Step::command(instr, Some(dir.as_str()));
            r.push(step);
            proof {
                assert(r@.map_values(|s: Step| s@) =~= old_views + seq![
                    StepView::Command {
                        command: spec_step_clean(instr@),
                        workdir: Some(dir@),
                    },
                ]);
                assert(interp_steps(instrs.deep_view(), i as int, dir@) == seq![
                    StepView::Command {
                        command: spec_step_clean(instr@),
                        workdir: Some(dir@),
                    },
                ] + interp_steps(instrs.deep_view(), i + 1, dir@));
                assert(interp_steps(instrs.deep_view(), 0, spec_start_dir())
                    =~= r@.map_values(|s: Step| s@) + interp_steps(
                    instrs.deep_view(),
                    i + 1,
                    dir@,
                ));
            }
        }
        i += 1;
    }
    r
}

// ---------------------------------------------------------------------------
// Construction
// ---------------------------------------------------------------------------

/// The builder a document section describes: its clone steps for the named
/// repository followed by the interpreted script, and its workers in
/// document order.
pub open spec fn spec_builder_of(y: YamlView) -> BuilderView {
    BuilderView {
        name: y.name,
        workernames: spec_scalar_items(crate::yaml::spec_section_block(y.lines, "workers"@)),
        steps: seq![
            StepView::GitClone { url: spec_step_clean(spec_unwrap(y.lines, "repo"@)) },
            StepView::GitLabClone { url: spec_step_clean(spec_unwrap(y.lines, "repo"@)) },
        ] + interp_steps(
            spec_scalar_items(crate::yaml::spec_section_block(y.lines, "script"@)),
            0,
            spec_start_dir(),
        ),
    }
}

/// A built builder always begins by refreshing the repository the document
/// names: its first two steps are the clone steps for that URL, and every
/// command step of the interpreted script comes after them.
pub proof fn lemma_builder_starts_with_clone(y: YamlView)
    ensures
        spec_builder_of(y).steps.len() >= 2,
        spec_builder_of(y).steps[0] == (StepView::GitClone {
            url: spec_step_clean(spec_unwrap(y.lines, "repo"@)),
        }),
        forall|i: int|
            0 <= i < spec_builder_of(y).steps.len() && (#[trigger] spec_builder_of(
                y,
            ).steps[i] is Command) ==> i >= 2,
{
    let b = spec_builder_of(y);
    assert(b.steps[0] is GitClone);
    assert(b.steps[1] is GitLabClone);
}

/// The first section a builder requires and does not have, if any; the
/// required sections are `workers`, `script` and `repo`, in that order.
pub open spec fn spec_builder_missing(y: YamlView) -> Option<Seq<char>> {
    if !spec_has_section(y.lines, "workers"@) {
        Some("workers"@)
    } else if !spec_has_section(y.lines, "script"@) {
        Some("script"@)
    } else if !spec_has_section(y.lines, "repo"@) {
        Some("repo"@)
    } else {
        None
    }
}

impl Builder {
    /// A builder from its parts.
    pub fn new(name: &str, workernames: Vec<String>, steps: Vec<Step>) -> (r: Builder)
        ensures
            r@ == (BuilderView {
                name: name@,
                workernames: workernames.deep_view(),
                steps: steps@.map_values(|s: Step| s@),
            }),
    {
        Builder { name: name.to_owned(), workernames, steps }
    }

    /// The name of this builder.
    pub fn get_name(&self) -> (r: String)
        ensures
            r@ == self@.name,
    {
        self.name.clone()
    }

    /// Builds the builder a document section describes. The section must
    /// name its workers, its script and its repository; a missing one fails
    /// with the first section not found. The first steps always refresh the
    /// repository clone; `cd` instructions of the script are consumed into
    /// the working directory and emit no step.
    pub fn from_yaml(yaml: &Yaml) -> (r: Result<Builder, CiError>)
        ensures
            (r is Ok) <==> (spec_builder_missing(yaml@) is None),
            r matches Ok(b) ==> b@ == spec_builder_of(yaml@),
            r matches Err(e) ==> (spec_builder_missing(yaml@) matches Some(section) && e@
                == (CiErrorView::MissingSection {
                entity: "builder '"@ + yaml@.name + "'"@,
                section: section,
            })),
    {
        if !yaml.has_section("workers") {
            return Err(missing_for_builder(yaml, "workers"));
        }
        if !yaml.has_section("script") {
            return Err(missing_for_builder(yaml, "script"));
        }
        if !yaml.has_section("repo") {
            return Err(missing_for_builder(yaml, "repo"));
        }
        let url = unwrap(yaml, "repo");
        let mut steps: Vec<Step> = Vec::new();
        steps.push(Step::git_clone(url.as_str()));
        steps.push(Step::gitlab_clone(url.as_str()));
        let script = match yaml.get_section("script") {
            Ok(s) => s,
            Err(_) => {
                proof {
                    assert(false);
                }
                return Err(missing_for_builder(yaml, "script"));
            },
        };
        let instrs = script.item_texts();
        let mut emitted = run_script(&instrs);
        let ghost clone_views = steps@.map_values(|s: Step| s@);
        let ghost emitted_views = emitted@.map_values(|s: Step| s@);
        steps.append(&mut emitted);
        proof {
            assert(steps@.map_values(|s: Step| s@) =~= clone_views + emitted_views);
        }
        let workers_section = match yaml.get_section("workers") {
            Ok(s) => s,
            Err(_) => {
                proof {
                    assert(false);
                }
                return Err(missing_for_builder(yaml, "workers"));
            },
        };
        let workernames = workers_section.item_texts();
        let name = yaml.get_name();
        let b = Builder { name, workernames, steps };
        proof {
            assert(b@.steps =~= spec_builder_of(yaml@).steps);
        }
        Ok(b)
    }
}

/// The missing-section failure for a builder, naming the builder.
fn missing_for_builder(yaml: &Yaml, section: &str) -> (r: CiError)
    ensures
        r@ == (CiErrorView::MissingSection {
            entity: "builder '"@ + yaml@.name + "'"@,
            section: section@,
        }),
{
    let mut entity = String::new();
    entity.append("builder '");
    let name = yaml.get_name();
    entity.append(name.as_str());
    entity.append("'");
    CiError::MissingSection { entity, section: section.to_owned() }
}

// ---------------------------------------------------------------------------
// Rendering
// ---------------------------------------------------------------------------

/// The first `i` steps rendered one per line, each wrapped in the factory's
/// add-step call.
pub open spec fn steps_upto(steps: Seq<StepView>, i: int) -> Seq<char>
    decreases i,
{
    if i <= 0 || i > steps.len() {
        Seq::empty()
    } else {
        steps_upto(steps, i - 1) + (if i - 1 > 0 {
            "\n"@
        } else {
            Seq::<char>::empty()
        }) + "temp_factory.addStep("@ + spec_render_step(steps[i - 1]) + ")"@
    }
}

/// The text a builder contributes to the master configuration: a fresh
/// factory, one add-step line per step in order, and the builder's
/// registration with its name and workers.
pub open spec fn spec_render_builder(v: BuilderView) -> Seq<char> {
    "\ntemp_factory = util.BuildFactory()\n"@ + steps_upto(v.steps, v.steps.len() as int)
        + "\nc['builders'].append(\n    util.BuilderConfig(name=\""@ + v.name
        + "\",\n    workernames="@ + spec_str_list(v.workernames)
        + ",\n    factory=temp_factory))\n        "@
}

impl Builder {
    /// Renders this builder for the master configuration.
    pub fn render(&self) -> (r: String)
        ensures
            r@ == spec_render_builder(self@),
    {
        let mut r = String::new();
        r.append("\ntemp_factory = util.BuildFactory()\n");
        let n = self.steps.len();
        let mut i: usize = 0;
        while i < n
            invariant
                0 <= i <= n,
                n == self@.steps.len(),
                r@ =~= "\ntemp_factory = util.BuildFactory()\n"@ + steps_upto(
                    self@.steps,
                    i as int,
                ),
            decreases n - i,
        {
            if i > 0 {
                r.append("\n");
            }
            r.append("temp_factory.addStep(");
            let rendered = self.steps[i].render();
            proof {
                assert(self.steps@[i as int]@ == self@.steps[i as int]);
            }
            r.append(rendered.as_str());
            r.append(")");
            proof {
                assert(steps_upto(self@.steps, i + 1) =~= steps_upto(self@.steps, i as int) + (
                if i as int > 0 {
                    "\n"@
                } else {
                    Seq::<char>::empty()
                }) + "temp_factory.addStep("@ + spec_render_step(self@.steps[i as int]) + ")"@);
                assert(r@ =~= "\ntemp_factory = util.BuildFactory()\n"@ + steps_upto(
                    self@.steps,
                    i + 1,
                ));
            }
            i += 1;
        }
        r.append("\nc['builders'].append(\n    util.BuilderConfig(name=\"");
        r.append(self.name.as_str());
        r.append("\",\n    workernames=");
        let list = render_str_list(&self.workernames);
        r.append(list.as_str());
        r.append(",\n    factory=temp_factory))\n        ");
        proof {
            assert(r@ =~= spec_render_builder(self@));
        }
        r
    }
}

} // verus!
