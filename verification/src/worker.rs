//! A worker: an execution agent the master delegates build steps to, and the
//! generated service configuration that brings one up.

use rand::Rng;
use vstd::prelude::*;
use vstd::string::StringExecFns;

use crate::error::{CiError, CiErrorView};
use crate::yaml::{spec_has_section, spec_unwrap, unwrap, Yaml, YamlView};

verus! {

/// An ASCII letter or digit.
pub open spec fn is_alnum(c: char) -> bool {
    ('a' <= c && c <= 'z') || ('A' <= c && c <= 'Z') || ('0' <= c && c <= '9')
}

/// Relies on rand's `Alphanumeric` distribution: every sampled byte is an
/// ASCII letter or digit (a-z, A-Z, 0-9), uniformly chosen, and taking `len`
/// samples yields exactly `len` of them. Nothing else is assumed of the
/// values: they are random.
#[verifier::external_body]
fn random_alnum(len: usize) -> (r: String)
    ensures
        r@.len() == len as nat,
        forall|i: int| 0 <= i < r@.len() ==> is_alnum(#[trigger] r@[i]),
{
    rand::thread_rng()
        .sample_iter(&rand::distributions::Alphanumeric)
        .take(len)
        .map(char::from)
        .collect()
}

/// The length of a generated worker password.
pub const PASSWORD_LEN: usize = 30;

/// A worker of the pipeline: its name, the directory it lives in, the
/// password the master reaches it with, and where its master is.
pub struct Worker {
    name: String,
    dir: String,
    password: String,
    masterhost: String,
    masterport: String,
}

/// The mathematical value of a `Worker`.
pub struct WorkerView {
    pub name: Seq<char>,
    pub dir: Seq<char>,
    pub password: Seq<char>,
    pub masterhost: Seq<char>,
    pub masterport: Seq<char>,
}

impl View for Worker {
    type V = WorkerView;

    closed spec fn view(&self) -> WorkerView {
        WorkerView {
            name: self.name@,
            dir: self.dir@,
            password: self.password@,
            masterhost: self.masterhost@,
            masterport: self.masterport@,
        }
    }
}

/// The worker a document section describes, given the password that was
/// settled for it.
pub open spec fn spec_worker_of(y: YamlView, password: Seq<char>) -> WorkerView {
    WorkerView {
        name: y.name,
        dir: spec_unwrap(y.lines, "basedir"@),
        password: password,
        masterhost: spec_unwrap(y.lines, "masterhost"@),
        masterport: "9989"@,
    }
}

/// The first section a worker requires and does not have, if any; the
/// required sections are `masterhost` and `basedir`, in that order.
pub open spec fn spec_worker_missing(y: YamlView) -> Option<Seq<char>> {
    if !spec_has_section(y.lines, "masterhost"@) {
        Some("masterhost"@)
    } else if !spec_has_section(y.lines, "basedir"@) {
        Some("basedir"@)
    } else {
        None
    }
}

/// The password clause of a built worker: the document's own if it names
/// one, otherwise a generated alphanumeric value of the fixed length.
pub open spec fn spec_worker_password_ok(y: YamlView, password: Seq<char>) -> bool {
    if spec_has_section(y.lines, "password"@) {
        password == spec_unwrap(y.lines, "password"@)
    } else {
        password.len() == PASSWORD_LEN && (forall|i: int|
            0 <= i < password.len() ==> is_alnum(#[trigger] password[i]))
    }
}

impl Worker {
    /// A worker from its parts.
    pub fn new(name: &str, dir: &str, password: &str, masterhost: &str, masterport: &str) -> (r:
        Worker)
        ensures
            r@ == (WorkerView {
                name: name@,
                dir: dir@,
                password: password@,
                masterhost: masterhost@,
                masterport: masterport@,
            }),
    {
        Worker {
            name: name.to_owned(),
            dir: dir.to_owned(),
            password: password.to_owned(),
            masterhost: masterhost.to_owned(),
            masterport: masterport.to_owned(),
        }
    }

    /// The name of this worker.
    pub fn get_name(&self) -> (r: String)
        ensures
            r@ == self@.name,
    {
        self.name.clone()
    }

    /// The working directory of this worker.
    pub fn get_dir(&self) -> (r: String)
        ensures
            r@ == self@.dir,
    {
        self.dir.clone()
    }

    /// The password of this worker.
    pub fn get_password(&self) -> (r: String)
        ensures
            r@ == self@.password,
    {
        self.password.clone()
    }

    /// A field-for-field copy of this worker.
    pub fn duplicate(&self) -> (r: Worker)
        ensures
            r@ == self@,
    {
        Worker {
            name: self.name.clone(),
            dir: self.dir.clone(),
            password: self.password.clone(),
            masterhost: self.masterhost.clone(),
            masterport: self.masterport.clone(),
        }
    }

    /// Builds the worker a document section describes. The section must name
    /// the master's host and the worker's directory; a missing one fails with
    /// the first section not found. A worker with no `password` section gets
    /// a fresh random alphanumeric password; the master's port is fixed.
    pub fn from_yaml(yaml: &Yaml) -> (r: Result<Worker, CiError>)
        ensures
            (r is Ok) <==> (spec_worker_missing(yaml@) is None),
            r matches Ok(w) ==> w@ == spec_worker_of(yaml@, w@.password)
                && spec_worker_password_ok(yaml@, w@.password),
            r matches Err(e) ==> (spec_worker_missing(yaml@) matches Some(section) && e@
                == (CiErrorView::MissingSection {
                entity: "worker '"@ + yaml@.name + "'"@,
                section: section,
            })),
    {
        if !yaml.has_section("masterhost") {
            return Err(missing_for_worker(yaml, "masterhost"));
        }
        if !yaml.has_section("basedir") {
            return Err(missing_for_worker(yaml, "basedir"));
        }
        let password: String = if yaml.has_section("password") {
            unwrap(yaml, "password")
        } else {
            random_alnum(PASSWORD_LEN)
        };
        let basedir = unwrap(yaml, "basedir");
        let masterhost = unwrap(yaml, "masterhost");
        let name = yaml.get_name();
        Ok(
            Worker {
                name,
                dir: basedir,
                password,
                masterhost,
                masterport: String::from_str("9989"),
            },
        )
    }
}

/// The service configuration artifact a worker renders to: the fixed
/// bootstrap text with the worker's directory, master host, master port,
/// name and password inlined.
pub open spec fn spec_render_worker(v: WorkerView) -> Seq<char> {
    r#"import os

from buildbot_worker.bot import Worker
from twisted.application import service

basedir = '"#@ + v.dir
        + r#"'
rotateLength = 10000000
maxRotatedFiles = 10

# if this is a relocatable tac file, get the directory containing the TAC
if basedir == '.':
    import os.path
    basedir = os.path.abspath(os.path.dirname(__file__))

# note: this line is matched against to check that this is a worker
# directory; do not edit it.
application = service.Application('buildbot-worker')

from twisted.python.logfile import LogFile
from twisted.python.log import ILogObserver, FileLogObserver
logfile = LogFile.fromFullPath(
    os.path.join(basedir, "twistd.log"), rotateLength=rotateLength,
    maxRotatedFiles=maxRotatedFiles)
application.setComponent(ILogObserver, FileLogObserver(logfile).emit)

buildmaster_host = '"#@ + v.masterhost + r#"'
port = "#@ + v.masterport
        + r#"
workername = '"#@ + v.name + r#"'
passwd = '"#@ + v.password
        + r#"'
keepalive = 600
umask = None
maxdelay = 300
numcpus = None
allow_shutdown = None
maxretries = None

s = Worker(buildmaster_host, port, workername, passwd, basedir,
           keepalive, umask=umask, maxdelay=maxdelay,
           numcpus=numcpus, allow_shutdown=allow_shutdown,
           maxRetries=maxretries)
s.setServiceParent(application)

"#@
}

impl Worker {
    /// Renders this worker's service configuration artifact.
    pub fn render(&self) -> (r: String)
        ensures
            r@ == spec_render_worker(self@),
    {
        let mut r = String::new();
        r.append(
            r#"import os

from buildbot_worker.bot import Worker
from twisted.application import service

basedir = '"#,
        );
        r.append(self.dir.as_str());
        r.append(
            r#"'
rotateLength = 10000000
maxRotatedFiles = 10

# if this is a relocatable tac file, get the directory containing the TAC
if basedir == '.':
    import os.path
    basedir = os.path.abspath(os.path.dirname(__file__))

# note: this line is matched against to check that this is a worker
# directory; do not edit it.
application = service.Application('buildbot-worker')

from twisted.python.logfile import LogFile
from twisted.python.log import ILogObserver, FileLogObserver
logfile = LogFile.fromFullPath(
    os.path.join(basedir, "twistd.log"), rotateLength=rotateLength,
    maxRotatedFiles=maxRotatedFiles)
application.setComponent(ILogObserver, FileLogObserver(logfile).emit)

buildmaster_host = '"#,
        );
        r.append(self.masterhost.as_str());
        r.append(
            r#"'
port = "#,
        );
        r.append(self.masterport.as_str());
        r.append(
            r#"
workername = '"#,
        );
        r.append(self.name.as_str());
        r.append(
            r#"'
passwd = '"#,
        );
        r.append(self.password.as_str());
        r.append(
            r#"'
keepalive = 600
umask = None
maxdelay = 300
numcpus = None
allow_shutdown = None
maxretries = None

s = Worker(buildmaster_host, port, workername, passwd, basedir,
           keepalive, umask=umask, maxdelay=maxdelay,
           numcpus=numcpus, allow_shutdown=allow_shutdown,
           maxRetries=maxretries)
s.setServiceParent(application)

"#,
        );
        proof {
            assert(r@ =~= spec_render_worker(self@));
        }
        r
    }
}

/// The missing-section failure for a worker, naming the worker.
fn missing_for_worker(yaml: &Yaml, section: &str) -> (r: CiError)
    ensures
        r@ == (CiErrorView::MissingSection {
            entity: "worker '"@ + yaml@.name + "'"@,
            section: section@,
        }),
{
    let mut entity = String::new();
    entity.append("worker '");
    let name = yaml.get_name();
    entity.append(name.as_str());
    entity.append("'");
    CiError::MissingSection { entity, section: section.to_owned() }
}

} // verus!
