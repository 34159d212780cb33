//! Git-related helpers: building repository URLs for the generated
//! manifests and the remote origin.

use vstd::prelude::*;

verus! {

/// The repository URL for a github user and repository name.
pub open spec fn repository_url(user: Seq<char>, repo: Seq<char>) -> Seq<char> {
    "https://github.com/"@ + user + "/"@ + repo
}

/// Constructs the git repository url from the given github username and
/// repository name.
pub fn build_repository_url(github_username: &str, repository_name: &str) -> (r: String)
    ensures
        r@ == repository_url(github_username@, repository_name@),
{
    let mut r = String::from_str("https://github.com/");
    r.append(github_username);
    r.append("/");
    r.append(repository_name);
    r
}

/// Constructs the git repository url with a `.git` suffix from the given
/// github username and repository name.
pub fn build_git_remote_target(github_username: &str, repository_name: &str) -> (r: String)
    ensures
        r@ == repository_url(github_username@, repository_name@) + ".git"@,
{
    let mut r = build_repository_url(github_username, repository_name);
    r.append(".git");
    r
}

} // verus!
