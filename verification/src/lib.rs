//! A configuration compiler for continuous-integration pipelines.
//!
//! The library reads a hierarchical key/value document describing workers,
//! builders, schedulers, a merge-request policy and a mail policy, validates
//! it, and renders the validated model into the text artifacts understood by
//! the downstream build engine: one configuration script per worker and one
//! master configuration script.

pub mod builder;
pub mod buildsystem;
pub mod cmd;
pub mod error;
pub mod mail;
pub mod masterconfig;
pub mod merge;
pub mod scheduler;
pub mod step;
pub mod text;
pub mod worker;
pub mod yaml;

pub use builder::Builder;
pub use buildsystem::{Bash, DefaultBuildSystem, Makefile, Quiet};
pub use cmd::Cmd;
pub use error::CiError;
pub use mail::MailNotifier;
pub use masterconfig::MasterConfig;
pub use merge::{MergeRequestHandler, VersionControlSystem, AUTH_TOKEN_PATH};
pub use scheduler::Scheduler;
pub use step::Step;
pub use text::{unquote, yes_or_no};
pub use worker::Worker;
pub use yaml::{unmatched_quotes, unwrap, Yaml};
