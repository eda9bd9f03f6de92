//! Resolving a Git revision to an immutable commit: the revision expression that
//! peels branches and tags to a commit, and the interpretation of what Git prints.

use vstd::prelude::*;

use crate::local_runtime::{container_id_text, is_container_id, trimmed};
use crate::text::{push_str, trim};

verus! {

#[derive(Debug)]
pub enum ResolveCommitError {
    Execute { message: String },
    Resolve { repository_path: String, revision: String, message: String },
}

impl ResolveCommitError {
    pub fn message(&self) -> (r: String)
        ensures
            r@ == match *self {
                ResolveCommitError::Execute { message } => "failed to execute Git: "@ + message@,
                ResolveCommitError::Resolve { repository_path, revision, message } =>
                    "failed to resolve Git revision `"@ + revision@ + "` in "@ + repository_path@
                    + ": "@ + message@,
            },
    {
        match self {
            ResolveCommitError::Execute { message } => {
                let mut out = "failed to execute Git: ".to_owned();
                push_str(&mut out, message.as_str());
                out
            },
            ResolveCommitError::Resolve { repository_path, revision, message } => {
                let mut out = "failed to resolve Git revision `".to_owned();
                push_str(&mut out, revision.as_str());
                push_str(&mut out, "` in ");
                push_str(&mut out, repository_path.as_str());
                push_str(&mut out, ": ");
                push_str(&mut out, message.as_str());
                out
            },
        }
    }
}

/// Branches and tags can move, so the requested revision is peeled to a commit; the
/// commit suffix also rejects blobs and trees.
pub fn revision_expression(revision: &str) -> (r: String)
    ensures
        r@ == revision@ + "^{commit}"@,
{
    let mut out = revision.to_owned();
    push_str(&mut out, "^{commit}");
    out
}

/// The `git` arguments resolving `revision` in the repository at `repository_path`.
pub fn resolve_arguments(repository_path: &str, revision: &str) -> (r: Vec<String>)
    ensures
        r@.len() == 6,
        r@[0]@ == "-C"@,
        r@[1]@ == repository_path@,
        r@[2]@ == "rev-parse"@,
        r@[3]@ == "--verify"@,
        r@[4]@ == "--end-of-options"@,
        r@[5]@ == revision@ + "^{commit}"@,
{
    let mut arguments: Vec<String> = Vec::new();
    arguments.push("-C".to_owned());
    arguments.push(repository_path.to_owned());
    arguments.push("rev-parse".to_owned());
    arguments.push("--verify".to_owned());
    arguments.push("--end-of-options".to_owned());
    arguments.push(revision_expression(revision));
    arguments
}

/// The outcome of `git rev-parse`: on failure, Git's trimmed stderr; on success, the
/// trimmed output, which must be valid text holding a non-empty hexadecimal commit.
pub fn resolved_commit(
    repository_path: &str,
    revision: &str,
    succeeded: bool,
    stdout: Option<&str>,
    stderr: &str,
) -> (r: Result<String, ResolveCommitError>)
    ensures
        !succeeded ==> (r matches Err(ResolveCommitError::Resolve { repository_path: p, revision: v, message: m })
            && p@ == repository_path@ && v@ == revision@ && m@ == trim(stderr@)),
        succeeded && (stdout matches Some(out) && container_id_text(trim(out@))) ==> (r matches Ok(
            sha,
        ) && stdout matches Some(out) && sha@ == trim(out@)),
        succeeded && !(stdout matches Some(out) && container_id_text(trim(out@))) ==> (r matches Err(
            ResolveCommitError::Resolve { repository_path: p, revision: v, message: m },
        ) && p@ == repository_path@ && v@ == revision@ && m@
            == "Git returned an invalid commit identifier"@),
{
    if !succeeded {
        return Err(
            ResolveCommitError::Resolve {
                repository_path: repository_path.to_owned(),
                revision: revision.to_owned(),
                message: trimmed(stderr),
            },
        );
    }
    if let Some(out) = stdout {
        let sha = trimmed(out);
        if is_container_id(sha.as_str()) {
            return Ok(sha);
        }
    }
    Err(
        ResolveCommitError::Resolve {
            repository_path: repository_path.to_owned(),
            revision: revision.to_owned(),
            message: "Git returned an invalid commit identifier".to_owned(),
        },
    )
}

} // verus!
