//! The merge-request handler: which version control site is watched for
//! merge requests, whose requests may run, and the write-access token that
//! lets the pipeline report build status.

use vstd::prelude::*;
use vstd::string::StringExecFns;

use crate::error::{CiError, CiErrorView};
use crate::step::{spec_strip_dq, strip_dq};
use crate::text::{
    render_str_list, spec_str_list, spec_trim, spec_unquote_values, str_eq, trim, unquote_values,
};
use crate::yaml::{
    spec_has_section, spec_scalar_items, spec_section_block, spec_unwrap, unwrap, Yaml, YamlView,
};

verus! {

/// The path of the side-channel file holding the version control site's
/// authentication token.
pub const AUTH_TOKEN_PATH: &'static str = "auth.token";

/// The version control sites merge requests can be watched on. An
/// unsupported one is not an error: the pipeline proceeds with merge-request
/// integration disabled.
#[derive(Clone, Copy, PartialEq, Eq, Debug, Structural)]
pub enum VersionControlSystem {
    GitHub,
    GitLab,
    Unsupported,
}

/// The merge-request policy of the pipeline: the site watched, the
/// repository on it, the users whose requests may run, and the token used
/// to report build status.
pub struct MergeRequestHandler {
    vcs: VersionControlSystem,
    owner: String,
    repo_name: String,
    whitelist: Vec<String>,
    auth_token: String,
    repository_type: String,
}

/// The mathematical value of a `MergeRequestHandler`.
pub struct MergeRequestHandlerView {
    pub vcs: VersionControlSystem,
    pub owner: Seq<char>,
    pub repo_name: Seq<char>,
    pub whitelist: Seq<Seq<char>>,
    pub auth_token: Seq<char>,
    pub repository_type: Seq<char>,
}

impl View for MergeRequestHandler {
    type V = MergeRequestHandlerView;

    closed spec fn view(&self) -> MergeRequestHandlerView {
        MergeRequestHandlerView {
            vcs: self.vcs,
            owner: self.owner@,
            repo_name: self.repo_name@,
            whitelist: self.whitelist.deep_view(),
            auth_token: self.auth_token@,
            repository_type: self.repository_type@,
        }
    }
}

/// The version control site a document names: `github` and `gitlab` are
/// recognized, anything else is unsupported.
pub open spec fn spec_vcs_of(s: Seq<char>) -> VersionControlSystem {
    if s == "github"@ {
        VersionControlSystem::GitHub
    } else if s == "gitlab"@ {
        VersionControlSystem::GitLab
    } else {
        VersionControlSystem::Unsupported
    }
}

/// The merge-request handler a document section describes, with the given
/// secret: the token is kept whitespace-trimmed, and the repository type is
/// always git.
pub open spec fn spec_merge_of(y: YamlView, auth_token: Seq<char>) -> MergeRequestHandlerView {
    MergeRequestHandlerView {
        vcs: spec_vcs_of(spec_unwrap(y.lines, "version-control-system"@)),
        owner: spec_unwrap(y.lines, "owner"@),
        repo_name: spec_unwrap(y.lines, "repo-name"@),
        whitelist: spec_unquote_values(
            spec_scalar_items(spec_section_block(y.lines, "whitelist"@)),
        ),
        auth_token: spec_trim(auth_token),
        repository_type: "git"@,
    }
}

/// The first failure a merge-request section exhibits, if any: a missing
/// required section, in order, then an empty secret.
pub open spec fn spec_merge_err(y: YamlView, auth_token: Seq<char>) -> Option<CiErrorView> {
    if !spec_has_section(y.lines, "version-control-system"@) {
        Some(merge_missing("version-control-system"@))
    } else if !spec_has_section(y.lines, "owner"@) {
        Some(merge_missing("owner"@))
    } else if !spec_has_section(y.lines, "repo-name"@) {
        Some(merge_missing("repo-name"@))
    } else if !spec_has_section(y.lines, "whitelist"@) {
        Some(merge_missing("whitelist"@))
    } else if spec_trim(auth_token).len() == 0 {
        Some(CiErrorView::EmptySecret)
    } else {
        None
    }
}

/// A missing section of the merge-request handler.
pub open spec fn merge_missing(section: Seq<char>) -> CiErrorView {
    CiErrorView::MissingSection { entity: "merge request handler"@, section: section }
}

impl MergeRequestHandler {
    /// A merge-request handler from its parts and the side-channel secret.
    /// The secret is trimmed; an empty one is a fatal construction error.
    /// The repository type is always git.
    pub fn new(
        vcs: VersionControlSystem,
        owner: String,
        repo_name: String,
        whitelist: Vec<String>,
        auth_token: &str,
    ) -> (r: Result<MergeRequestHandler, CiError>)
        ensures
            (r is Ok) <==> spec_trim(auth_token@).len() > 0,
            r matches Ok(h) ==> h@ == (MergeRequestHandlerView {
                vcs: vcs,
                owner: owner@,
                repo_name: repo_name@,
                whitelist: whitelist.deep_view(),
                auth_token: spec_trim(auth_token@),
                repository_type: "git"@,
            }),
            r matches Err(e) ==> e@ == CiErrorView::EmptySecret,
    {
        let token = trim(auth_token);
        if token.is_empty() {
            return Err(CiError::EmptySecret);
        }
        Ok(
            MergeRequestHandler {
                vcs,
                owner,
                repo_name,
                whitelist,
                auth_token: token.to_owned(),
                repository_type: String::from_str("git"),
            },
        )
    }

    /// Builds the merge-request handler a document section describes, with
    /// the secret read from the side channel. The section must name the
    /// site, the repository owner and name, and the whitelist; a missing
    /// one fails with the first not found, and an empty secret is fatal.
    pub fn from_yaml(yaml: &Yaml, auth_token: &str) -> (r: Result<MergeRequestHandler, CiError>)
        ensures
            (r is Ok) <==> (spec_merge_err(yaml@, auth_token@) is None),
            r matches Ok(h) ==> h@ == spec_merge_of(yaml@, auth_token@),
            r matches Err(e) ==> spec_merge_err(yaml@, auth_token@) == Some(e@),
    {
        if !yaml.has_section("version-control-system") {
            return Err(merge_missing_exec("version-control-system"));
        }
        if !yaml.has_section("owner") {
            return Err(merge_missing_exec("owner"));
        }
        if !yaml.has_section("repo-name") {
            return Err(merge_missing_exec("repo-name"));
        }
        if !yaml.has_section("whitelist") {
            return Err(merge_missing_exec("whitelist"));
        }
        let vcs_name = unwrap(yaml, "version-control-system");
        let vcs = if str_eq(vcs_name.as_str(), "github") {
            VersionControlSystem::GitHub
        } else if str_eq(vcs_name.as_str(), "gitlab") {
            VersionControlSystem::GitLab
        } else {
            VersionControlSystem::Unsupported
        };
        let owner = unwrap(yaml, "owner");
        let repo_name = unwrap(yaml, "repo-name");
        let whitelist_section = match yaml.get_section("whitelist") {
            Ok(s) => s,
            Err(_) => {
                proof {
                    assert(false);
                }
                return Err(merge_missing_exec("whitelist"));
            },
        };
        let whitelist = unquote_values(&whitelist_section.item_texts());
        MergeRequestHandler::new(vcs, owner, repo_name, whitelist, auth_token)
    }
}

/// A missing merge-request section, as a value.
fn merge_missing_exec(section: &str) -> (r: CiError)
    ensures
        r@ == merge_missing(section@),
{
    CiError::MissingSection {
        entity: String::from_str("merge request handler"),
        section: section.to_owned(),
    }
}

// ---------------------------------------------------------------------------
// Rendering
// ---------------------------------------------------------------------------

/// The text the merge-request handler contributes to the master
/// configuration for a GitHub repository: the pull-request poller, the
/// status reporter, and the whitelisting check. Double quotes at the ends
/// of the embedded fields are stripped so the generated text stays valid.
pub open spec fn spec_render_merge_github(v: MergeRequestHandlerView) -> Seq<char> {
    r#"whitelist_authors = "#@
        + spec_str_list(v.whitelist)
        + r#"

try:
    c['change_source'].append(changes.GitHubPullrequestPoller(
            owner=""#@
        + spec_strip_dq(v.owner)
        + r#"",
            repo=""#@
        + spec_strip_dq(v.repo_name)
        + r#"",
            # right now just poll every 60 seconds
            # this will need to change in the future, but this is just for testing.
            pollInterval=120,
            repository_type=""#@
        + spec_strip_dq(v.repository_type)
        + r#"",
            github_property_whitelist=["*"],
            token=""#@
        + spec_strip_dq(v.auth_token)
        + r#""))
except Exception as e:
    print(f"Could not create merge request handler: {str(e)}")


context = util.Interpolate("%(prop:buildername)s")
github_status_service = reporters.GitHubStatusPush(token='"#@
        + spec_strip_dq(v.auth_token)
        + r#"',
                                context=context,
                                startDescription='Build started.',
                                endDescription='Build done.')

c['services'].append(github_status_service)


def is_whitelisted(props, password):
    for prop in ['github.number', 'github.comments_url', 'github.user.login']:
        # If these properties arent present, its not a pull request
        if not (props.hasProperty(prop)):
            return True
    
    # URL for comments info
    comments_url = props['github.comments_url']

    # The pull request number that we'll try to whitelist
    pr_number = props['github.number']

    # The author of the PR
    author = props['github.user.login']

    resp = req.get(comments_url)
    try:
        # Try to convert to a JSON object so we can read the data
        json_acceptable_string = resp.text.replace("'", "\"")
        comments_json = json.loads(json_acceptable_string)


        # Check each comment
        for comment in comments_json:
            # If the comment was made by an admin and matches the password
            if comment['user']['login'] in whitelist_authors and re.fullmatch(password, comment['body']):
                # If the pull request was not already in the whitelisted PRs, add it
                print("ADMIN: " + str(comment['user']['login']) + " PASSWORD: " + str(comment['body']))
                print(f"PR NUMBER {pr_number} IS GOOD TO TEST")
                return True
    except Exception as e:
        # There was a problem converting to JSON, github returned bad data
        print(f"There was an error: {str(e)}. If this error has anything to do with JSON, its likely that you've queried GitHub too many times.")
        # Write the returned webpage to BAD
        open('BAD', 'w').write(resp.text)

    
    if author in whitelist_authors:
        print("WHITELISTED AUTHOR")
        return True

    return False
"#@
}

/// The text for a GitLab repository: the status reporter alone, with every
/// request whitelisted.
pub open spec fn spec_render_merge_gitlab(v: MergeRequestHandlerView) -> Seq<char> {
    r#"
def is_whitelisted(props, password): return True

context = util.Interpolate("%(prop:buildername)s")
gitlab_status_service = reporters.GitLabStatusPush(token='"#@
        + spec_strip_dq(v.auth_token)
        + r#"',
                                context=context,
                                startDescription='Build started.',
                                endDescription='Build done.')

c['services'].append(gitlab_status_service)
               
"#@
}

/// The text the merge-request handler contributes to the master
/// configuration; an unsupported site degrades to a notice.
pub open spec fn spec_render_merge(v: MergeRequestHandlerView) -> Seq<char> {
    match v.vcs {
        VersionControlSystem::GitHub => spec_render_merge_github(v),
        VersionControlSystem::GitLab => spec_render_merge_gitlab(v),
        VersionControlSystem::Unsupported =>
            "print('We currently dont support building merge requests on your VCS.')"@,
    }
}

impl MergeRequestHandler {
    /// Renders this merge-request handler for the master configuration.
    pub fn render(&self) -> (r: String)
        ensures
            r@ == spec_render_merge(self@),
    {
        match self.vcs {
            VersionControlSystem::GitHub => {
                let wl = render_str_list(&self.whitelist);
                let mut r = String::new();
r.append(
r#"whitelist_authors = "#,
);
r.append(wl.as_str());
r.append(
r#"

try:
    c['change_source'].append(changes.GitHubPullrequestPoller(
            owner=""#,
);
r.append(strip_dq(self.owner.as_str()));
r.append(
r#"",
            repo=""#,
);
r.append(strip_dq(self.repo_name.as_str()));
r.append(
r#"",
            # right now just poll every 60 seconds
            # this will need to change in the future, but this is just for testing.
            pollInterval=120,
            repository_type=""#,
);
r.append(strip_dq(self.repository_type.as_str()));
r.append(
r#"",
            github_property_whitelist=["*"],
            token=""#,
);
r.append(strip_dq(self.auth_token.as_str()));
r.append(
r#""))
except Exception as e:
    print(f"Could not create merge request handler: {str(e)}")


context = util.Interpolate("%(prop:buildername)s")
github_status_service = reporters.GitHubStatusPush(token='"#,
);
r.append(strip_dq(self.auth_token.as_str()));
r.append(
r#"',
                                context=context,
                                startDescription='Build started.',
                                endDescription='Build done.')

c['services'].append(github_status_service)


def is_whitelisted(props, password):
    for prop in ['github.number', 'github.comments_url', 'github.user.login']:
        # If these properties arent present, its not a pull request
        if not (props.hasProperty(prop)):
            return True
    
    # URL for comments info
    comments_url = props['github.comments_url']

    # The pull request number that we'll try to whitelist
    pr_number = props['github.number']

    # The author of the PR
    author = props['github.user.login']

    resp = req.get(comments_url)
    try:
        # Try to convert to a JSON object so we can read the data
        json_acceptable_string = resp.text.replace("'", "\"")
        comments_json = json.loads(json_acceptable_string)


        # Check each comment
        for comment in comments_json:
            # If the comment was made by an admin and matches the password
            if comment['user']['login'] in whitelist_authors and re.fullmatch(password, comment['body']):
                # If the pull request was not already in the whitelisted PRs, add it
                print("ADMIN: " + str(comment['user']['login']) + " PASSWORD: " + str(comment['body']))
                print(f"PR NUMBER {pr_number} IS GOOD TO TEST")
                return True
    except Exception as e:
        # There was a problem converting to JSON, github returned bad data
        print(f"There was an error: {str(e)}. If this error has anything to do with JSON, its likely that you've queried GitHub too many times.")
        # Write the returned webpage to BAD
        open('BAD', 'w').write(resp.text)

    
    if author in whitelist_authors:
        print("WHITELISTED AUTHOR")
        return True

    return False
"#,
);
                proof {
                    assert(r@ =~= spec_render_merge(self@));
                }
                r
            },
            VersionControlSystem::GitLab => {
                let mut r = String::new();
r.append(
r#"
def is_whitelisted(props, password): return True

context = util.Interpolate("%(prop:buildername)s")
gitlab_status_service = reporters.GitLabStatusPush(token='"#,
);
r.append(strip_dq(self.auth_token.as_str()));
r.append(
r#"',
                                context=context,
                                startDescription='Build started.',
                                endDescription='Build done.')

c['services'].append(gitlab_status_service)
               
"#,
);
                proof {
                    assert(r@ =~= spec_render_merge(self@));
                }
                r
            },
            VersionControlSystem::Unsupported => {
                let mut r = String::new();
                r.append(
                    "print('We currently dont support building merge requests on your VCS.')",
                );
                proof {
                    assert(r@ =~= spec_render_merge(self@));
                }
                r
            },
        }
    }
}

} // verus!
