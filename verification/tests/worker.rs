use rusty_ci::{Worker, Yaml};

#[test]
fn worker_from_yaml() {
    let yaml = Yaml::from_text(
        r#"xasm-worker:
  masterhost: localhost
  masterport: 9989
  basedir: '/home/adam/Desktop/rusty-ci/testing/xasm-worker'
  password: pass"#,
    )
    .get_section("xasm-worker")
    .unwrap();

    let worker = Worker::from_yaml(&yaml).unwrap();
    assert_eq!(
        "import os

from buildbot_worker.bot import Worker
from twisted.application import service

basedir = '/home/adam/Desktop/rusty-ci/testing/xasm-worker'
rotateLength = 10000000
maxRotatedFiles = 10

# if this is a relocatable tac file, get the directory containing the TAC
if basedir == '.':
    import os.path
    basedir = os.path.abspath(os.path.dirname(__file__))

# note: this line is matched against to check that this is a worker
# directory; do not edit it.
application = service.Application('buildbot-worker')

from twisted.python.logfile import LogFile
from twisted.python.log import ILogObserver, FileLogObserver
logfile = LogFile.fromFullPath(
    os.path.join(basedir, \"twistd.log\"), rotateLength=rotateLength,
    maxRotatedFiles=maxRotatedFiles)
application.setComponent(ILogObserver, FileLogObserver(logfile).emit)

buildmaster_host = 'localhost'
port = 9989
workername = 'xasm-worker'
passwd = 'pass'
keepalive = 600
umask = None
maxdelay = 300
numcpus = None
allow_shutdown = None
maxretries = None

s = Worker(buildmaster_host, port, workername, passwd, basedir,
           keepalive, umask=umask, maxdelay=maxdelay,
           numcpus=numcpus, allow_shutdown=allow_shutdown,
           maxRetries=maxretries)
s.setServiceParent(application)

"
        .to_string(),
        worker.render()
    )
}

#[test]
fn worker_without_password_renders_all_fields() {
    let yaml = Yaml::from_text("w1:\n  basedir: \"/tmp/w1\"\n  masterhost: localhost\n")
        .get_section("w1")
        .unwrap();
    let worker = Worker::from_yaml(&yaml).unwrap();
    let artifact = worker.render();
    assert!(artifact.contains("buildmaster_host = 'localhost'"));
    assert!(artifact.contains("workername = 'w1'"));
    assert!(artifact.contains("basedir = '/tmp/w1'"));
    let password = worker.get_password();
    assert!(!password.is_empty());
    assert!(artifact.contains(&format!("passwd = '{}'", password)));
}

#[test]
fn generated_passwords_differ_between_compiles() {
    let text = "w1:\n  basedir: /tmp/w1\n  masterhost: localhost\n";
    let yaml = Yaml::from_text(text).get_section("w1").unwrap();
    let first = Worker::from_yaml(&yaml).unwrap();
    let second = Worker::from_yaml(&yaml).unwrap();
    assert_eq!(first.get_password().len(), 30);
    assert_eq!(second.get_password().len(), 30);
    assert!(first.get_password().chars().all(|c| c.is_ascii_alphanumeric()));
    assert_ne!(first.get_password(), second.get_password());
    // while the names keep the document order and values
    assert_eq!(first.get_name(), second.get_name());
    assert_eq!(first.get_dir(), "/tmp/w1");
}

#[test]
fn worker_missing_section_names_the_field() {
    let yaml = Yaml::from_text("w1:\n  basedir: /tmp/w1\n")
        .get_section("w1")
        .unwrap();
    match Worker::from_yaml(&yaml) {
        Err(rusty_ci::CiError::MissingSection { entity, section }) => {
            assert_eq!(entity, "worker 'w1'");
            assert_eq!(section, "masterhost");
        }
        _ => panic!("a worker without a master host must not build"),
    }
}
