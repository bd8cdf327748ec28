//! A scheduler: a rule that maps a detected change, or a completed upstream
//! scheduler, to the builders it triggers.

use vstd::prelude::*;
use vstd::string::StringExecFns;

use crate::error::{CiError, CiErrorView};
use crate::text::{
    dashes_to_underscores, render_str_list, spec_dashes, spec_str_list, spec_unquote_values,
    unquote_values,
};
use crate::yaml::{
    spec_has_section, spec_scalar_items, spec_section_block, spec_unwrap, unwrap, Yaml, YamlView,
};

verus! {

/// A scheduler of the pipeline. It is either dependency-triggered (`depends`
/// names the upstream scheduler, and branch, triggers and password are
/// empty) or change-triggered (no dependency; a branch pattern, file
/// trigger patterns and a whitelist-bypass password). A document that names
/// both a dependency and change sections is accepted, and the dependency
/// wins: the change sections are dropped at construction, so rendering uses
/// the dependency form alone.
pub struct Scheduler {
    name: String,
    password: String,
    depends: Option<String>,
    branch: String,
    file_triggers: Vec<String>,
    buildernames: Vec<String>,
}

/// The mathematical value of a `Scheduler`.
pub struct SchedulerView {
    pub name: Seq<char>,
    pub password: Seq<char>,
    pub depends: Option<Seq<char>>,
    pub branch: Seq<char>,
    pub file_triggers: Seq<Seq<char>>,
    pub buildernames: Seq<Seq<char>>,
}

impl View for Scheduler {
    type V = SchedulerView;

    closed spec fn view(&self) -> SchedulerView {
        SchedulerView {
            name: self.name@,
            password: self.password@,
            depends: match &self.depends {
                Some(d) => Some(d@),
                None => None,
            },
            branch: self.branch@,
            file_triggers: self.file_triggers.deep_view(),
            buildernames: self.buildernames.deep_view(),
        }
    }
}

/// The builders a scheduler section triggers: the items of its `builders`
/// section, quote-normalized.
pub open spec fn spec_scheduler_builders(y: YamlView) -> Seq<Seq<char>> {
    spec_unquote_values(spec_scalar_items(spec_section_block(y.lines, "builders"@)))
}

/// The scheduler a document section describes.
pub open spec fn spec_scheduler_of(y: YamlView) -> SchedulerView {
    if spec_has_section(y.lines, "depends"@) {
        SchedulerView {
            name: y.name,
            password: Seq::empty(),
            depends: Some(spec_unwrap(y.lines, "depends"@)),
            branch: Seq::empty(),
            file_triggers: Seq::empty(),
            buildernames: spec_scheduler_builders(y),
        }
    } else {
        SchedulerView {
            name: y.name,
            password: spec_unwrap(y.lines, "password"@),
            depends: None,
            branch: spec_unwrap(y.lines, "branch"@),
            file_triggers: spec_unquote_values(
                spec_scalar_items(spec_section_block(y.lines, "triggers"@)),
            ),
            buildernames: spec_scheduler_builders(y),
        }
    }
}

/// The first section a scheduler requires and does not have, if any:
/// `builders` always; `branch`, `password` and `triggers`, in that order,
/// only when no dependency is named.
pub open spec fn spec_scheduler_missing(y: YamlView) -> Option<Seq<char>> {
    if !spec_has_section(y.lines, "builders"@) {
        Some("builders"@)
    } else if spec_has_section(y.lines, "depends"@) {
        None
    } else if !spec_has_section(y.lines, "branch"@) {
        Some("branch"@)
    } else if !spec_has_section(y.lines, "password"@) {
        Some("password"@)
    } else if !spec_has_section(y.lines, "triggers"@) {
        Some("triggers"@)
    } else {
        None
    }
}

impl Scheduler {
    /// A scheduler from its parts. The trigger patterns and builder names
    /// are quote-normalized; the other fields are kept as they are.
    pub fn new(
        name: &str,
        depends: Option<String>,
        password: &str,
        branch: &str,
        file_triggers: Vec<String>,
        buildernames: Vec<String>,
    ) -> (r: Scheduler)
        ensures
            r@ == (SchedulerView {
                name: name@,
                password: password@,
                depends: match depends {
                    Some(d) => Some(d@),
                    None => None,
                },
                branch: branch@,
                file_triggers: spec_unquote_values(file_triggers.deep_view()),
                buildernames: spec_unquote_values(buildernames.deep_view()),
            }),
    {
        Scheduler {
            name: name.to_owned(),
            password: password.to_owned(),
            depends,
            branch: branch.to_owned(),
            file_triggers: unquote_values(&file_triggers),
            buildernames: unquote_values(&buildernames),
        }
    }

    /// The name of this scheduler.
    pub fn get_name(&self) -> (r: String)
        ensures
            r@ == self@.name,
    {
        self.name.clone()
    }

    /// Builds the scheduler a document section describes. The section must
    /// name its builders; one that names no dependency must also name its
    /// branch, password and triggers. A missing section fails with the
    /// first one not found, in that order.
    pub fn from_yaml(yaml: &Yaml) -> (r: Result<Scheduler, CiError>)
        ensures
            (r is Ok) <==> (spec_scheduler_missing(yaml@) is None),
            r matches Ok(s) ==> s@ == spec_scheduler_of(yaml@),
            r matches Err(e) ==> (spec_scheduler_missing(yaml@) matches Some(section) && e@
                == (CiErrorView::MissingSection {
                entity: "scheduler '"@ + yaml@.name + "'"@,
                section: section,
            })),
    {
        if !yaml.has_section("builders") {
            return Err(missing_for_scheduler(yaml, "builders"));
        }
        let builders_section = match yaml.get_section("builders") {
            Ok(s) => s,
            Err(_) => {
                proof {
                    assert(false);
                }
                return Err(missing_for_scheduler(yaml, "builders"));
            },
        };
        let buildernames = unquote_values(&builders_section.item_texts());
        let name = yaml.get_name();
        if yaml.has_section("depends") {
            let depends = unwrap(yaml, "depends");
            let s = Scheduler {
                name,
                password: String::new(),
                depends: Some(depends),
                branch: String::new(),
                file_triggers: Vec::new(),
                buildernames,
            };
            proof {
                assert(s@.file_triggers =~= Seq::<Seq<char>>::empty());
            }
            return Ok(s);
        }
        if !yaml.has_section("branch") {
            return Err(missing_for_scheduler(yaml, "branch"));
        }
        if !yaml.has_section("password") {
            return Err(missing_for_scheduler(yaml, "password"));
        }
        if !yaml.has_section("triggers") {
            return Err(missing_for_scheduler(yaml, "triggers"));
        }
        let branch = unwrap(yaml, "branch");
        let password = unwrap(yaml, "password");
        let triggers_section = match yaml.get_section("triggers") {
            Ok(s) => s,
            Err(_) => {
                proof {
                    assert(false);
                }
                return Err(missing_for_scheduler(yaml, "triggers"));
            },
        };
        let file_triggers = unquote_values(&triggers_section.item_texts());
        Ok(Scheduler { name, password, depends: None, branch, file_triggers, buildernames })
    }
}

/// The missing-section failure for a scheduler, naming the scheduler.
fn missing_for_scheduler(yaml: &Yaml, section: &str) -> (r: CiError)
    ensures
        r@ == (CiErrorView::MissingSection {
            entity: "scheduler '"@ + yaml@.name + "'"@,
            section: section@,
        }),
{
    let mut entity = String::new();
    entity.append("scheduler '");
    let name = yaml.get_name();
    entity.append(name.as_str());
    entity.append("'");
    CiError::MissingSection { entity, section: section.to_owned() }
}

// ---------------------------------------------------------------------------
// Rendering
// ---------------------------------------------------------------------------

/// The dependency form of a rendered scheduler: an upstream-triggered
/// scheduler registration. Generated identifiers have dashes replaced by
/// underscores.
pub open spec fn spec_render_dependent(v: SchedulerView, depends: Seq<char>) -> Seq<char> {
    "\n                \n"@ + spec_dashes(v.name) + " = schedulers.Dependent(name=\""@
        + spec_dashes(v.name) + "\",\n                               upstream="@ + spec_dashes(
        depends,
    ) + ",\n                               builderNames="@ + spec_str_list(v.buildernames)
        + ")\nc['schedulers'].append("@ + spec_dashes(v.name) + ")\n\n    "@
}

/// The change-triggered form of a rendered scheduler: a trigger function
/// over the whitelist password and the file patterns, an any-branch
/// scheduler filtered by the branch pattern, and a force scheduler.
pub open spec fn spec_render_triggered(v: SchedulerView) -> Seq<char> {
    "\n@util.renderer\ndef "@ + spec_dashes(v.name) + "_triggers(props):\n    builders = "@
        + spec_str_list(v.buildernames) + "\n\n    triggers = "@ + spec_str_list(v.file_triggers)
        + "\n\n    if not is_whitelisted(props, \""@ + v.password
        + "\"):\n        print('NOT WHITELISTED!!!')\n        return []\n\n    for f in props.files:\n        for regex in triggers:\n            print(\"FILE:   \", f)\n            print(\"TRIGGER:\", regex)\n            if re.fullmatch(regex, str(f)):\n                return builders\n\n    return []\n\n\n"@
        + spec_dashes(v.name) + " = schedulers.AnyBranchScheduler(name=\""@ + spec_dashes(v.name)
        + "\",\n    change_filter=util.ChangeFilter(branch_re=\""@ + v.branch
        + "\"),\n    builderNames="@ + spec_dashes(v.name)
        + "_triggers)\n\nc['schedulers'].append("@ + spec_dashes(v.name)
        + ")\n\nc['schedulers'].append(schedulers.ForceScheduler(name=\"force_"@ + spec_dashes(
        v.name,
    ) + "\",\n    builderNames="@ + spec_str_list(v.buildernames) + "))\n"@
}

/// The text a scheduler contributes to the master configuration: the
/// dependency form when an upstream scheduler is named, the change-triggered
/// form otherwise.
pub open spec fn spec_render_scheduler(v: SchedulerView) -> Seq<char> {
    match v.depends {
        Some(d) => spec_render_dependent(v, d),
        None => spec_render_triggered(v),
    }
}

/// A scheduler that names an upstream dependency renders in the dependency
/// form alone, whatever its branch, trigger and password fields hold: the
/// rendering is decided by the dependency and the builder names only.
pub proof fn lemma_dependent_render_ignores_triggers(a: SchedulerView, b: SchedulerView, d: Seq<
    char,
>)
    requires
        a.depends == Some(d),
        b.depends == Some(d),
        a.name == b.name,
        a.buildernames == b.buildernames,
    ensures
        spec_render_scheduler(a) == spec_render_scheduler(b),
{
}

impl Scheduler {
    /// Renders this scheduler for the master configuration.
    pub fn render(&self) -> (r: String)
        ensures
            r@ == spec_render_scheduler(self@),
    {
        let name_u = dashes_to_underscores(self.name.as_str());
        let builders_list = render_str_list(&self.buildernames);
        match &self.depends {
            Some(depends) => {
                let depends_u = dashes_to_underscores(depends.as_str());
                let mut r = String::new();
                r.append("\n                \n");
                r.append(name_u.as_str());
                r.append(" = schedulers.Dependent(name=\"");
                r.append(name_u.as_str());
                r.append("\",\n                               upstream=");
                r.append(depends_u.as_str());
                r.append(",\n                               builderNames=");
                r.append(builders_list.as_str());
                r.append(")\nc['schedulers'].append(");
                r.append(name_u.as_str());
                r.append(")\n\n    ");
                proof {
                    assert(r@ =~= spec_render_scheduler(self@));
                }
                r
            },
            None => {
                let triggers_list = render_str_list(&self.file_triggers);
                let mut r = String::new();
                r.append("\n@util.renderer\ndef ");
                r.append(name_u.as_str());
                r.append("_triggers(props):\n    builders = ");
                r.append(builders_list.as_str());
                r.append("\n\n    triggers = ");
                r.append(triggers_list.as_str());
                r.append("\n\n    if not is_whitelisted(props, \"");
                r.append(self.password.as_str());
                r.append(
                    "\"):\n        print('NOT WHITELISTED!!!')\n        return []\n\n    for f in props.files:\n        for regex in triggers:\n            print(\"FILE:   \", f)\n            print(\"TRIGGER:\", regex)\n            if re.fullmatch(regex, str(f)):\n                return builders\n\n    return []\n\n\n",
                );
                r.append(name_u.as_str());
                r.append(" = schedulers.AnyBranchScheduler(name=\"");
                r.append(name_u.as_str());
                r.append("\",\n    change_filter=util.ChangeFilter(branch_re=\"");
                r.append(self.branch.as_str());
                r.append("\"),\n    builderNames=");
                r.append(name_u.as_str());
                r.append("_triggers)\n\nc['schedulers'].append(");
                r.append(name_u.as_str());
                r.append(")\n\nc['schedulers'].append(schedulers.ForceScheduler(name=\"force_");
                r.append(name_u.as_str());
                r.append("\",\n    builderNames=");
                r.append(builders_list.as_str());
                r.append("))\n");
                proof {
                    assert(r@ =~= spec_render_scheduler(self@));
                }
                r
            },
        }
    }
}

} // verus!
