//! The master configuration: the aggregate of the whole pipeline, built
//! from the input document and rendered into the master's configuration
//! artifact.

use vstd::prelude::*;
use vstd::string::StringExecFns;

use crate::builder::{spec_builder_missing, spec_builder_of, spec_render_builder, Builder,
    BuilderView};
use crate::error::{CiError, CiErrorView};
use crate::mail::{spec_render_mail, MailNotifier, MailNotifierView};
use crate::merge::{spec_merge_err, spec_merge_of, spec_render_merge, MergeRequestHandler,
    MergeRequestHandlerView};
use crate::scheduler::{spec_render_scheduler, spec_scheduler_missing, spec_scheduler_of,
    Scheduler, SchedulerView};
use crate::worker::{spec_render_worker, spec_worker_missing, spec_worker_of,
    spec_worker_password_ok, Worker, WorkerView};
use crate::yaml::{spec_has_section, spec_items, spec_section_block, spec_unwrap, unmatched_from,
    unmatched_quotes, unwrap, Yaml, YamlView};

verus! {

/// The whole pipeline: master metadata, the optional mail notifier, the
/// merge-request handler, and the builders, schedulers and workers in
/// document order. Construction is fail-fast: the first failure anywhere in
/// the document aborts the compile, and nothing is rendered from a document
/// that fails validation.
pub struct MasterConfig {
    title: String,
    title_url: String,
    git_repo: String,
    webserver_ip: String,
    webserver_port: String,
    poll_interval: String,
    mail_notifier: Option<MailNotifier>,
    merge_request_handler: MergeRequestHandler,
    builders: Vec<Builder>,
    schedulers: Vec<Scheduler>,
    workers: Vec<Worker>,
}

/// The mathematical value of a `MasterConfig`.
pub struct MasterConfigView {
    pub title: Seq<char>,
    pub title_url: Seq<char>,
    pub git_repo: Seq<char>,
    pub webserver_ip: Seq<char>,
    pub webserver_port: Seq<char>,
    pub poll_interval: Seq<char>,
    pub mail_notifier: Option<MailNotifierView>,
    pub merge_request_handler: MergeRequestHandlerView,
    pub builders: Seq<BuilderView>,
    pub schedulers: Seq<SchedulerView>,
    pub workers: Seq<WorkerView>,
}

impl View for MasterConfig {
    type V = MasterConfigView;

    closed spec fn view(&self) -> MasterConfigView {
        MasterConfigView {
            title: self.title@,
            title_url: self.title_url@,
            git_repo: self.git_repo@,
            webserver_ip: self.webserver_ip@,
            webserver_port: self.webserver_port@,
            poll_interval: self.poll_interval@,
            mail_notifier: match &self.mail_notifier {
                Some(m) => Some(m@),
                None => None,
            },
            merge_request_handler: self.merge_request_handler@,
            builders: self.builders@.map_values(|b: Builder| b@),
            schedulers: self.schedulers@.map_values(|s: Scheduler| s@),
            workers: self.workers@.map_values(|w: Worker| w@),
        }
    }
}

/// The section of a document named `name`, as a node.
pub open spec fn sect(y: YamlView, name: Seq<char>) -> YamlView {
    YamlView { name: name, lines: spec_section_block(y.lines, name) }
}

/// The first failing scheduler among the items from index `i` on, as its
/// failure.
pub open spec fn first_scheduler_err(items: Seq<YamlView>, i: int) -> Option<CiErrorView>
    decreases items.len() - i,
{
    if i < 0 || i >= items.len() {
        None
    } else {
        match spec_scheduler_missing(items[i]) {
            Some(section) => Some(
                CiErrorView::MissingSection {
                    entity: "scheduler '"@ + items[i].name + "'"@,
                    section: section,
                },
            ),
            None => first_scheduler_err(items, i + 1),
        }
    }
}

/// The first failing builder among the items from index `i` on.
pub open spec fn first_builder_err(items: Seq<YamlView>, i: int) -> Option<CiErrorView>
    decreases items.len() - i,
{
    if i < 0 || i >= items.len() {
        None
    } else {
        match spec_builder_missing(items[i]) {
            Some(section) => Some(
                CiErrorView::MissingSection {
                    entity: "builder '"@ + items[i].name + "'"@,
                    section: section,
                },
            ),
            None => first_builder_err(items, i + 1),
        }
    }
}

/// The first failing worker among the items from index `i` on.
pub open spec fn first_worker_err(items: Seq<YamlView>, i: int) -> Option<CiErrorView>
    decreases items.len() - i,
{
    if i < 0 || i >= items.len() {
        None
    } else {
        match spec_worker_missing(items[i]) {
            Some(section) => Some(
                CiErrorView::MissingSection {
                    entity: "worker '"@ + items[i].name + "'"@,
                    section: section,
                },
            ),
            None => first_worker_err(items, i + 1),
        }
    }
}

/// A missing section of the master configuration document or its `master`
/// section.
pub open spec fn master_missing(entity: Seq<char>, section: Seq<char>) -> CiErrorView {
    CiErrorView::MissingSection { entity: entity, section: section }
}

/// A master document that has passed every check before its entity lists:
/// quotes pair up, the top-level sections and the `master` fields are all
/// present, and the merge-request handler builds.
pub open spec fn spec_master_pre_ok(y: YamlView, auth_token: Seq<char>) -> bool {
    &&& unmatched_from(y.lines, 0) < 0
    &&& spec_has_section(y.lines, "master"@)
    &&& spec_has_section(y.lines, "workers"@)
    &&& spec_has_section(y.lines, "builders"@)
    &&& spec_has_section(y.lines, "schedulers"@)
    &&& spec_has_section(y.lines, "merge-request-handler"@)
    &&& spec_has_section(sect(y, "master"@).lines, "title"@)
    &&& spec_has_section(sect(y, "master"@).lines, "title-url"@)
    &&& spec_has_section(sect(y, "master"@).lines, "repo"@)
    &&& spec_has_section(sect(y, "master"@).lines, "webserver-ip"@)
    &&& spec_has_section(sect(y, "master"@).lines, "webserver-port"@)
    &&& spec_has_section(sect(y, "master"@).lines, "poll-interval"@)
    &&& (spec_merge_err(sect(y, "merge-request-handler"@), auth_token) is None)
}

/// The first failure a master document exhibits, if any: unmatched quotes;
/// then the required top-level sections in order; then the required fields
/// of the `master` section in order; then the merge-request handler; then
/// the schedulers, builders and workers, each in document order.
pub open spec fn spec_master_err(y: YamlView, auth_token: Seq<char>) -> Option<CiErrorView> {
    if unmatched_from(y.lines, 0) >= 0 {
        Some(CiErrorView::UnmatchedQuote { line: y.lines[unmatched_from(y.lines, 0)] })
    } else if !spec_has_section(y.lines, "master"@) {
        Some(master_missing("master configuration"@, "master"@))
    } else if !spec_has_section(y.lines, "workers"@) {
        Some(master_missing("master configuration"@, "workers"@))
    } else if !spec_has_section(y.lines, "builders"@) {
        Some(master_missing("master configuration"@, "builders"@))
    } else if !spec_has_section(y.lines, "schedulers"@) {
        Some(master_missing("master configuration"@, "schedulers"@))
    } else if !spec_has_section(y.lines, "merge-request-handler"@) {
        Some(master_missing("master configuration"@, "merge-request-handler"@))
    } else if !spec_has_section(sect(y, "master"@).lines, "title"@) {
        Some(master_missing("master"@, "title"@))
    } else if !spec_has_section(sect(y, "master"@).lines, "title-url"@) {
        Some(master_missing("master"@, "title-url"@))
    } else if !spec_has_section(sect(y, "master"@).lines, "repo"@) {
        Some(master_missing("master"@, "repo"@))
    } else if !spec_has_section(sect(y, "master"@).lines, "webserver-ip"@) {
        Some(master_missing("master"@, "webserver-ip"@))
    } else if !spec_has_section(sect(y, "master"@).lines, "webserver-port"@) {
        Some(master_missing("master"@, "webserver-port"@))
    } else if !spec_has_section(sect(y, "master"@).lines, "poll-interval"@) {
        Some(master_missing("master"@, "poll-interval"@))
    } else if spec_merge_err(sect(y, "merge-request-handler"@), auth_token) is Some {
        spec_merge_err(sect(y, "merge-request-handler"@), auth_token)
    } else if first_scheduler_err(spec_items(sect(y, "schedulers"@).lines), 0) is Some {
        first_scheduler_err(spec_items(sect(y, "schedulers"@).lines), 0)
    } else if first_builder_err(spec_items(sect(y, "builders"@).lines), 0) is Some {
        first_builder_err(spec_items(sect(y, "builders"@).lines), 0)
    } else if first_worker_err(spec_items(sect(y, "workers"@).lines), 0) is Some {
        first_worker_err(spec_items(sect(y, "workers"@).lines), 0)
    } else {
        None
    }
}

/// What a successfully built master configuration holds, besides its
/// workers: every scalar field of the `master` section, no mail notifier
/// yet, the merge-request handler, and the schedulers and builders mapped
/// from their sections in document order.
pub open spec fn spec_master_of_ok(y: YamlView, auth_token: Seq<char>, m: MasterConfigView) -> bool {
    &&& m.title == spec_unwrap(sect(y, "master"@).lines, "title"@)
    &&& m.title_url == spec_unwrap(sect(y, "master"@).lines, "title-url"@)
    &&& m.git_repo == spec_unwrap(sect(y, "master"@).lines, "repo"@)
    &&& m.webserver_ip == spec_unwrap(sect(y, "master"@).lines, "webserver-ip"@)
    &&& m.webserver_port == spec_unwrap(sect(y, "master"@).lines, "webserver-port"@)
    &&& m.poll_interval == spec_unwrap(sect(y, "master"@).lines, "poll-interval"@)
    &&& m.mail_notifier is None
    &&& m.merge_request_handler == spec_merge_of(sect(y, "merge-request-handler"@), auth_token)
    &&& m.schedulers == spec_items(sect(y, "schedulers"@).lines).map_values(
        |item: YamlView| spec_scheduler_of(item),
    )
    &&& m.builders == spec_items(sect(y, "builders"@).lines).map_values(
        |item: YamlView| spec_builder_of(item),
    )
    &&& m.workers.len() == spec_items(sect(y, "workers"@).lines).len()
    &&& (forall|i: int|
        0 <= i < m.workers.len() ==> (#[trigger] m.workers[i]) == spec_worker_of(
            spec_items(sect(y, "workers"@).lines)[i],
            m.workers[i].password,
        ) && spec_worker_password_ok(
            spec_items(sect(y, "workers"@).lines)[i],
            m.workers[i].password,
        ))
}

/// A document that misses any of the required top-level sections never
/// compiles: once its quotes pair up, the failure is a missing-section
/// error that names a top-level section the document does not have.
pub proof fn lemma_missing_top_level_fails(y: YamlView, auth_token: Seq<char>)
    requires
        unmatched_from(y.lines, 0) < 0,
        !(spec_has_section(y.lines, "master"@) && spec_has_section(y.lines, "workers"@)
            && spec_has_section(y.lines, "builders"@) && spec_has_section(y.lines, "schedulers"@)
            && spec_has_section(y.lines, "merge-request-handler"@)),
    ensures
        spec_master_err(y, auth_token) matches Some(e) && e matches
            CiErrorView::MissingSection { entity, section } && entity == "master configuration"@
            && !spec_has_section(y.lines, section),
{
}

impl MasterConfig {
    /// Attaches the mail notifier; every other field is kept.
    pub fn set_mail_notifier(&mut self, mail_notifier: MailNotifier)
        ensures
            final(self)@ == (MasterConfigView { mail_notifier: Some(mail_notifier@), ..old(
                self,
            )@ }),
    {
        self.mail_notifier = Some(mail_notifier);
    }

    /// The workers of the pipeline, in document order.
    pub fn get_workers(&self) -> (r: Vec<Worker>)
        ensures
            r@.map_values(|w: Worker| w@) == self@.workers,
    {
        let n = self.workers.len();
        let mut r: Vec<Worker> = Vec::new();
        let mut i: usize = 0;
        while i < n
            invariant
                0 <= i <= n,
                n == self@.workers.len(),
                r@.map_values(|w: Worker| w@) =~= self@.workers.subrange(0, i as int),
            decreases n - i,
        {
            let ghost old_views = r@.map_values(|w: Worker| w@);
            let w = self.workers[i].duplicate();
            proof {
                assert(self.workers@[i as int]@ == self@.workers[i as int]);
            }
            r.push(w);
            proof {
                assert(r@.map_values(|w: Worker| w@) =~= old_views + seq![
                    self@.workers[i as int],
                ]);
                assert(r@.map_values(|w: Worker| w@) =~= self@.workers.subrange(0, i + 1));
            }
            i += 1;
        }
        proof {
            assert(r@.map_values(|w: Worker| w@) =~= self@.workers);
        }
        r
    }

    /// Builds the whole pipeline a document describes, with the
    /// side-channel secret for the merge-request handler. Validation is
    /// fail-fast: quotes must pair up, every required top-level section and
    /// every required field of the `master` section must be present, and
    /// each nested entity must build; the first failure anywhere aborts the
    /// compile and nothing is rendered. The mail notifier starts unset.
    pub fn from_yaml(yaml: &Yaml, auth_token: &str) -> (r: Result<MasterConfig, CiError>)
        ensures
            (r is Ok) <==> (spec_master_err(yaml@, auth_token@) is None),
            r matches Ok(m) ==> spec_master_of_ok(yaml@, auth_token@, m@),
            r matches Err(e) ==> spec_master_err(yaml@, auth_token@) == Some(e@),
    {
        if let Some(line) = unmatched_quotes(yaml) {
            return Err(CiError::UnmatchedQuote { line });
        }
        if !yaml.has_section("master") {
            return Err(master_missing_exec("master configuration", "master"));
        }
        if !yaml.has_section("workers") {
            return Err(master_missing_exec("master configuration", "workers"));
        }
        if !yaml.has_section("builders") {
            return Err(master_missing_exec("master configuration", "builders"));
        }
        if !yaml.has_section("schedulers") {
            return Err(master_missing_exec("master configuration", "schedulers"));
        }
        if !yaml.has_section("merge-request-handler") {
            return Err(master_missing_exec("master configuration", "merge-request-handler"));
        }
        let master = section_of(yaml, "master");
        if !master.has_section("title") {
            return Err(master_missing_exec("master", "title"));
        }
        if !master.has_section("title-url") {
            return Err(master_missing_exec("master", "title-url"));
        }
        if !master.has_section("repo") {
            return Err(master_missing_exec("master", "repo"));
        }
        if !master.has_section("webserver-ip") {
            return Err(master_missing_exec("master", "webserver-ip"));
        }
        if !master.has_section("webserver-port") {
            return Err(master_missing_exec("master", "webserver-port"));
        }
        if !master.has_section("poll-interval") {
            return Err(master_missing_exec("master", "poll-interval"));
        }
        let merge_section = section_of(yaml, "merge-request-handler");
        let merge_request_handler = match MergeRequestHandler::from_yaml(
            &merge_section,
            auth_token,
        ) {
            Ok(h) => h,
            Err(e) => {
                return Err(e);
            },
        };
        let ghost sched_views = spec_items(sect(yaml@, "schedulers"@).lines);
        let sched_items = section_of(yaml, "schedulers").items();
        let mut schedulers: Vec<Scheduler> = Vec::new();
        let ns = sched_items.len();
        let mut i: usize = 0;
        while i < ns
            invariant
                0 <= i <= ns,
                ns == sched_views.len(),
                spec_master_pre_ok(yaml@, auth_token@),
                sched_views == spec_items(sect(yaml@, "schedulers"@).lines),
                sched_items@.map_values(|x: Yaml| x@) == sched_views,
                first_scheduler_err(sched_views, 0) == first_scheduler_err(
                    sched_views,
                    i as int,
                ),
                schedulers@.map_values(|s: Scheduler| s@) =~= sched_views.subrange(
                    0,
                    i as int,
                ).map_values(|item: YamlView| spec_scheduler_of(item)),
            decreases ns - i,
        {
            proof {
                assert(sched_items@[i as int]@ == sched_views[i as int]);
            }
            match Scheduler::from_yaml(&sched_items[i]) {
                Ok(s) => {
                    let ghost old_views = schedulers@.map_values(|s: Scheduler| s@);
                    schedulers.push(s);
                    proof {
                        assert(schedulers@.map_values(|s: Scheduler| s@) =~= old_views + seq![
                            spec_scheduler_of(sched_views[i as int]),
                        ]);
                        assert(schedulers@.map_values(|s: Scheduler| s@) =~= sched_views.subrange(
                            0,
                            i + 1,
                        ).map_values(|item: YamlView| spec_scheduler_of(item)));
                    }
                },
                Err(e) => {
                    proof {
                        assert(first_scheduler_err(sched_views, i as int) == Some(e@));
                    }
                    return Err(e);
                },
            }
            i += 1;
        }
        let ghost builder_views = spec_items(sect(yaml@, "builders"@).lines);
        let builder_items = section_of(yaml, "builders").items();
        let mut builders: Vec<Builder> = Vec::new();
        let nb = builder_items.len();
        let mut i: usize = 0;
        while i < nb
            invariant
                0 <= i <= nb,
                nb == builder_views.len(),
                spec_master_pre_ok(yaml@, auth_token@),
                builder_views == spec_items(sect(yaml@, "builders"@).lines),
                first_scheduler_err(spec_items(sect(yaml@, "schedulers"@).lines), 0) is None,
                builder_items@.map_values(|x: Yaml| x@) == builder_views,
                first_builder_err(builder_views, 0) == first_builder_err(
                    builder_views,
                    i as int,
                ),
                builders@.map_values(|b: Builder| b@) =~= builder_views.subrange(
                    0,
                    i as int,
                ).map_values(|item: YamlView| spec_builder_of(item)),
            decreases nb - i,
        {
            proof {
                assert(builder_items@[i as int]@ == builder_views[i as int]);
            }
            match Builder::from_yaml(&builder_items[i]) {
                Ok(b) => {
                    let ghost old_views = builders@.map_values(|b: Builder| b@);
                    builders.push(b);
                    proof {
                        assert(builders@.map_values(|b: Builder| b@) =~= old_views + seq![
                            spec_builder_of(builder_views[i as int]),
                        ]);
                        assert(builders@.map_values(|b: Builder| b@) =~= builder_views.subrange(
                            0,
                            i + 1,
                        ).map_values(|item: YamlView| spec_builder_of(item)));
                    }
                },
                Err(e) => {
                    proof {
                        assert(first_builder_err(builder_views, i as int) == Some(e@));
                    }
                    return Err(e);
                },
            }
            i += 1;
        }
        let ghost worker_views = spec_items(sect(yaml@, "workers"@).lines);
        let worker_items = section_of(yaml, "workers").items();
        let mut workers: Vec<Worker> = Vec::new();
        let nw = worker_items.len();
        let mut i: usize = 0;
        while i < nw
            invariant
                0 <= i <= nw,
                nw == worker_views.len(),
                spec_master_pre_ok(yaml@, auth_token@),
                worker_views == spec_items(sect(yaml@, "workers"@).lines),
                first_scheduler_err(spec_items(sect(yaml@, "schedulers"@).lines), 0) is None,
                first_builder_err(spec_items(sect(yaml@, "builders"@).lines), 0) is None,
                worker_items@.map_values(|x: Yaml| x@) == worker_views,
                first_worker_err(worker_views, 0) == first_worker_err(worker_views, i as int),
                workers@.len() == i,
                forall|k: int|
                    0 <= k < i ==> ((#[trigger] workers@[k])@ == spec_worker_of(
                        worker_views[k],
                        workers@[k]@.password,
                    ) && spec_worker_password_ok(worker_views[k], workers@[k]@.password)),
            decreases nw - i,
        {
            proof {
                assert(worker_items@[i as int]@ == worker_views[i as int]);
            }
            match Worker::from_yaml(&worker_items[i]) {
                Ok(w) => {
                    workers.push(w);
                },
                Err(e) => {
                    proof {
                        assert(first_worker_err(worker_views, i as int) == Some(e@));
                    }
                    return Err(e);
                },
            }
            i += 1;
        }
        let title = unwrap(&master, "title");
        let title_url = unwrap(&master, "title-url");
        let git_repo = unwrap(&master, "repo");
        let webserver_ip = unwrap(&master, "webserver-ip");
        let webserver_port = unwrap(&master, "webserver-port");
        let poll_interval = unwrap(&master, "poll-interval");
        let ghost final_workers = workers@;
        let m = MasterConfig {
            title,
            title_url,
            git_repo,
            webserver_ip,
            webserver_port,
            poll_interval,
            mail_notifier: None,
            merge_request_handler,
            builders,
            schedulers,
            workers,
        };
        proof {
            assert(m@.schedulers =~= spec_items(sect(yaml@, "schedulers"@).lines).map_values(
                |item: YamlView| spec_scheduler_of(item),
            ));
            assert(m@.builders =~= spec_items(sect(yaml@, "builders"@).lines).map_values(
                |item: YamlView| spec_builder_of(item),
            ));
            assert forall|k: int| 0 <= k < m@.workers.len() implies (#[trigger] m@.workers[k])
                == spec_worker_of(worker_views[k], m@.workers[k].password)
                && spec_worker_password_ok(worker_views[k], m@.workers[k].password) by {
                assert(m@.workers[k] == final_workers[k]@);
            }
        }
        Ok(m)
    }
}

/// The section of `yaml` named `name`, which the caller has checked for.
fn section_of(yaml: &Yaml, name: &str) -> (r: Yaml)
    requires
        spec_has_section(yaml@.lines, name@),
    ensures
        r@ == sect(yaml@, name@),
{
    match yaml.get_section(name) {
        Ok(s) => s,
        Err(_) => {
            proof {
                assert(false);
            }
            Yaml::from_text("")
        },
    }
}

/// A missing section, as a value.
fn master_missing_exec(entity: &str, section: &str) -> (r: CiError)
    ensures
        r@ == master_missing(entity@, section@),
{
    CiError::MissingSection { entity: entity.to_owned(), section: section.to_owned() }
}

// ---------------------------------------------------------------------------
// Rendering
// ---------------------------------------------------------------------------

/// The first `i` workers rendered for the master's roster: name and
/// password pairs, comma-separated.
pub open spec fn workers_info_upto(ws: Seq<WorkerView>, i: int) -> Seq<char>
    decreases i,
{
    if i <= 0 || i > ws.len() {
        Seq::empty()
    } else {
        workers_info_upto(ws, i - 1) + (if i - 1 > 0 {
            ", "@
        } else {
            Seq::<char>::empty()
        }) + "worker.Worker(\""@ + ws[i - 1].name + "\", \""@ + ws[i - 1].password + "\")"@
    }
}

/// The first `i` schedulers rendered, separated by blank lines.
pub open spec fn schedulers_upto(ss: Seq<SchedulerView>, i: int) -> Seq<char>
    decreases i,
{
    if i <= 0 || i > ss.len() {
        Seq::empty()
    } else {
        schedulers_upto(ss, i - 1) + (if i - 1 > 0 {
            "\n\n"@
        } else {
            Seq::<char>::empty()
        }) + spec_render_scheduler(ss[i - 1])
    }
}

/// The first `i` builders rendered, separated by blank lines.
pub open spec fn builders_upto(bs: Seq<BuilderView>, i: int) -> Seq<char>
    decreases i,
{
    if i <= 0 || i > bs.len() {
        Seq::empty()
    } else {
        builders_upto(bs, i - 1) + (if i - 1 > 0 {
            "\n\n"@
        } else {
            Seq::<char>::empty()
        }) + spec_render_builder(bs[i - 1])
    }
}

/// The mail notifier's block, or nothing when none is attached.
pub open spec fn spec_mail_part(m: Option<MailNotifierView>) -> Seq<char> {
    match m {
        Some(v) => spec_render_mail(v),
        None => Seq::empty(),
    }
}

/// The master configuration artifact: the fixed scaffolding with the worker
/// roster, the web UI binding, the optional mail notifier, the
/// merge-request integration, the change poller, and every scheduler and
/// builder in document order.
pub open spec fn spec_render_master(v: MasterConfigView) -> Seq<char> {
    r#"
# -*- python -*-
# ex: set filetype=python:
import re
import json
import requests as req
from dateutil.parser import parse as dateparse
from buildbot.plugins import *
from buildbot.www.hooks.github import GitHubEventHandler

# This is a sample buildmaster config file. It must be installed as
# 'master.cfg' in your buildmaster's base directory.

# This is the dictionary that the buildmaster pays attention to. We also use
# a shorter alias to save typing.
c = BuildmasterConfig = {}

####### WORKERS

# The 'workers' list defines the set of recognized workers. Each element is
# a Worker object, specifying a unique worker name and password.  The same
# worker name and password must be configured on the worker.
c['workers'] = ["#@
        + workers_info_upto(v.workers, v.workers.len() as int)
        + r#"]
c['protocols'] = {'pb': {'port': 9989}}


c['www'] = dict(port="#@
        + v.webserver_port
        + r#",
                plugins=dict(waterfall_view={}, console_view={}, grid_view={}))

c['change_source'] = []
c['services'] = []

"#@
        + spec_mail_part(v.mail_notifier)
        + r#"

"#@
        + spec_render_merge(v.merge_request_handler)
        + r#"

c['change_source'].append(changes.GitPoller(
        ""#@
        + v.git_repo
        + r#"",
        workdir='gitpoller-workdir', branches=True, # poll all branches
        pollInterval="#@
        + v.poll_interval
        + r#"))

c['schedulers'] = []
c['builders'] = []

"#@
        + schedulers_upto(v.schedulers, v.schedulers.len() as int)
        + r#"
"#@
        + builders_upto(v.builders, v.builders.len() as int)
        + r#"


c['title'] = ""#@
        + v.title
        + r#""
c['titleURL'] = ""#@
        + v.title_url
        + r#""

c['buildbotURL'] = "http://"#@
        + v.webserver_ip
        + r#":"#@
        + v.webserver_port
        + r#"/"

c['db'] = {
    # This specifies what database buildbot uses to store its state.  You can leave
    # this at its default for all but the largest installations.
    'db_url' : "sqlite:///state.sqlite",
}
        "#@
}

/// Appends the worker roster to `out`.
fn append_workers_info(out: &mut String, ws: &Vec<Worker>)
    ensures
        final(out)@ == old(out)@ + workers_info_upto(
            ws@.map_values(|w: Worker| w@),
            ws@.len() as int,
        ),
{
    let ghost views = ws@.map_values(|w: Worker| w@);
    let n = ws.len();
    let mut i: usize = 0;
    while i < n
        invariant
            0 <= i <= n,
            n == views.len(),
            views == ws@.map_values(|w: Worker| w@),
            out@ =~= old(out)@ + workers_info_upto(views, i as int),
        decreases n - i,
    {
        if i > 0 {
            out.append(", ");
        }
        out.append("worker.Worker(\"");
        proof {
            assert(ws@[i as int]@ == views[i as int]);
        }
        let name = ws[i].get_name();
        out.append(name.as_str());
        out.append("\", \"");
        let password = ws[i].get_password();
        out.append(password.as_str());
        out.append("\")");
        proof {
            assert(workers_info_upto(views, i + 1) =~= workers_info_upto(views, i as int) + (
            if i as int > 0 {
                ", "@
            } else {
                Seq::<char>::empty()
            }) + "worker.Worker(\""@ + views[i as int].name + "\", \""@ + views[
                i as int
            ].password + "\")"@);
            assert(out@ =~= old(out)@ + workers_info_upto(views, i + 1));
        }
        i += 1;
    }
}

/// Appends every scheduler's rendering to `out`, blank-line separated.
fn append_schedulers(out: &mut String, ss: &Vec<Scheduler>)
    ensures
        final(out)@ == old(out)@ + schedulers_upto(
            ss@.map_values(|s: Scheduler| s@),
            ss@.len() as int,
        ),
{
    let ghost views = ss@.map_values(|s: Scheduler| s@);
    let n = ss.len();
    let mut i: usize = 0;
    while i < n
        invariant
            0 <= i <= n,
            n == views.len(),
            views == ss@.map_values(|s: Scheduler| s@),
            out@ =~= old(out)@ + schedulers_upto(views, i as int),
        decreases n - i,
    {
        if i > 0 {
            out.append("\n\n");
        }
        proof {
            assert(ss@[i as int]@ == views[i as int]);
        }
        let rendered = ss[i].render();
        out.append(rendered.as_str());
        proof {
            assert(schedulers_upto(views, i + 1) =~= schedulers_upto(views, i as int) + (
            if i as int > 0 {
                "\n\n"@
            } else {
                Seq::<char>::empty()
            }) + spec_render_scheduler(views[i as int]));
            assert(out@ =~= old(out)@ + schedulers_upto(views, i + 1));
        }
        i += 1;
    }
}

/// Appends every builder's rendering to `out`, blank-line separated.
fn append_builders(out: &mut String, bs: &Vec<Builder>)
    ensures
        final(out)@ == old(out)@ + builders_upto(
            bs@.map_values(|b: Builder| b@),
            bs@.len() as int,
        ),
{
    let ghost views = bs@.map_values(|b: Builder| b@);
    let n = bs.len();
    let mut i: usize = 0;
    while i < n
        invariant
            0 <= i <= n,
            n == views.len(),
            views == bs@.map_values(|b: Builder| b@),
            out@ =~= old(out)@ + builders_upto(views, i as int),
        decreases n - i,
    {
        if i > 0 {
            out.append("\n\n");
        }
        proof {
            assert(bs@[i as int]@ == views[i as int]);
        }
        let rendered = bs[i].render();
        out.append(rendered.as_str());
        proof {
            assert(builders_upto(views, i + 1) =~= builders_upto(views, i as int) + (
            if i as int > 0 {
                "\n\n"@
            } else {
                Seq::<char>::empty()
            }) + spec_render_builder(views[i as int]));
            assert(out@ =~= old(out)@ + builders_upto(views, i + 1));
        }
        i += 1;
    }
}

impl MasterConfig {
    /// Renders the master configuration artifact.
    pub fn render(&self) -> (r: String)
        ensures
            r@ == spec_render_master(self@),
    {
        let mut r = String::new();
r.append(
r#"
# -*- python -*-
# ex: set filetype=python:
import re
import json
import requests as req
from dateutil.parser import parse as dateparse
from buildbot.plugins import *
from buildbot.www.hooks.github import GitHubEventHandler

# This is a sample buildmaster config file. It must be installed as
# 'master.cfg' in your buildmaster's base directory.

# This is the dictionary that the buildmaster pays attention to. We also use
# a shorter alias to save typing.
c = BuildmasterConfig = {}

####### WORKERS

# The 'workers' list defines the set of recognized workers. Each element is
# a Worker object, specifying a unique worker name and password.  The same
# worker name and password must be configured on the worker.
c['workers'] = ["#,
);
append_workers_info(&mut r, &self.workers);
r.append(
r#"]
c['protocols'] = {'pb': {'port': 9989}}


c['www'] = dict(port="#,
);
r.append(self.webserver_port.as_str());
r.append(
r#",
                plugins=dict(waterfall_view={}, console_view={}, grid_view={}))

c['change_source'] = []
c['services'] = []

"#,
);
match &self.mail_notifier {
    Some(mn) => {
        let t = mn.render();
        r.append(t.as_str());
    },
    None => {},
}
r.append(
r#"

"#,
);
let mh = self.merge_request_handler.render();
r.append(mh.as_str());
r.append(
r#"

c['change_source'].append(changes.GitPoller(
        ""#,
);
r.append(self.git_repo.as_str());
r.append(
r#"",
        workdir='gitpoller-workdir', branches=True, # poll all branches
        pollInterval="#,
);
r.append(self.poll_interval.as_str());
r.append(
r#"))

c['schedulers'] = []
c['builders'] = []

"#,
);
append_schedulers(&mut r, &self.schedulers);
r.append(
r#"
"#,
);
append_builders(&mut r, &self.builders);
r.append(
r#"


c['title'] = ""#,
);
r.append(self.title.as_str());
r.append(
r#""
c['titleURL'] = ""#,
);
r.append(self.title_url.as_str());
r.append(
r#""

c['buildbotURL'] = "http://"#,
);
r.append(self.webserver_ip.as_str());
r.append(
r#":"#,
);
r.append(self.webserver_port.as_str());
r.append(
r#"/"

c['db'] = {
    # This specifies what database buildbot uses to store its state.  You can leave
    # this at its default for all but the largest installations.
    'db_url' : "sqlite:///state.sqlite",
}
        "#,
);
        proof {
            assert(r@ =~= spec_render_master(self@));
        }
        r
    }
}

} // verus!
