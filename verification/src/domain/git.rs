//! Git-domain concepts: how an application's remote source repository is
//! addressed, which manifest path inside a checkout is safe to read, and what a
//! full commit identity looks like.

use vstd::prelude::*;

use crate::text::{
    char_is_lower_hex, chars_of, contains, contains_exec, is_lower_hex, push_str, split,
    split_ranges, starts_with, starts_with_exec, trim, trim_range,
};

verus! {

/// Transport URLs and scp-like `git@host:path` forms are remote; anything else,
/// local paths included, is not a supported source.
pub open spec fn remote_git_location(s: Seq<char>) -> bool {
    &&& s.len() > 0
    &&& trim(s) == s
    &&& (contains(s, "://"@) || starts_with(s, "git@"@))
}

/// Classifies the Git forms accepted by import and branch resolution.
pub fn is_remote_git_location(location: &str) -> (r: bool)
    ensures
        r == remote_git_location(location@),
{
    let chars = chars_of(location);
    let n = chars.len();
    if n == 0 {
        return false;
    }
    let (a, b) = trim_range(&chars, 0, n);
    assert(chars@.subrange(0, n as int) == chars@);
    if a != 0 || b != n {
        assert(trim(location@).len() != location@.len());
        return false;
    }
    let scheme = chars_of("://");
    let scp = chars_of("git@");
    contains_exec(&chars, &scheme) || starts_with_exec(&chars, &scp)
}

/// The path must stay inside the checkout: non-empty, not absolute, and without
/// any `..` component.
pub open spec fn relative_manifest_path(s: Seq<char>) -> bool {
    &&& s.len() > 0
    &&& s[0] != '/'
    &&& forall|k: int| 0 <= k < split(s, '/').len() ==> #[trigger] split(s, '/')[k] != ".."@
}

/// A validated remote Git repository with its checkout defaults.
#[derive(Clone, Debug, PartialEq, Eq)]
pub struct ApplicationSource {
    repository_url: String,
    default_branch: Option<String>,
    manifest_path: RelativeManifestPath,
}

impl ApplicationSource {
    pub closed spec fn repository_url_view(&self) -> Seq<char> {
        self.repository_url@
    }

    pub closed spec fn default_branch_view(&self) -> Option<Seq<char>> {
        match self.default_branch {
            Some(b) => Some(b@),
            None => None,
        }
    }

    pub closed spec fn manifest_path_view(&self) -> Seq<char> {
        self.manifest_path@
    }

    pub fn new(
        repository_url: &str,
        default_branch: Option<String>,
        manifest_path: RelativeManifestPath,
    ) -> (r: Result<Self, InvalidApplicationSource>)
        ensures
            r is Ok <==> remote_git_location(repository_url@),
            r matches Ok(source) ==> source.repository_url_view() == repository_url@
                && source.default_branch_view() == (match default_branch {
                Some(b) => Some(b@),
                None => None,
            }) && source.manifest_path_view() == manifest_path@,
            r matches Err(e) ==> e.repository_url@ == repository_url@,
    {
        if !is_remote_git_location(repository_url) {
            return Err(InvalidApplicationSource { repository_url: repository_url.to_owned() });
        }
        Ok(ApplicationSource { repository_url: repository_url.to_owned(), default_branch, manifest_path })
    }

    pub fn repository_url(&self) -> (r: &str)
        ensures
            r@ == self.repository_url_view(),
    {
        self.repository_url.as_str()
    }

    pub fn default_branch(&self) -> (r: Option<&str>)
        ensures
            r matches Some(b) ==> self.default_branch_view() == Some(b@),
            r is None ==> self.default_branch_view() is None,
    {
        match &self.default_branch {
            Some(b) => Some(b.as_str()),
            None => None,
        }
    }

    pub fn manifest_path(&self) -> (r: &RelativeManifestPath)
        ensures
            r@ == self.manifest_path_view(),
    {
        &self.manifest_path
    }
}

/// A repository location that is not a remote Git URL.
#[derive(Debug, PartialEq, Eq)]
pub struct InvalidApplicationSource {
    pub repository_url: String,
}

impl InvalidApplicationSource {
    pub fn message(&self) -> (r: String)
        ensures
            r@ == "invalid application source `"@ + self.repository_url@
                + "`: expected a remote Git URL"@,
    {
        let mut out = "invalid application source `".to_owned();
        push_str(&mut out, self.repository_url.as_str());
        push_str(&mut out, "`: expected a remote Git URL");
        out
    }
}

/// A manifest location relative to, and confined inside, a checkout.
#[derive(Clone, Debug, PartialEq, Eq)]
pub struct RelativeManifestPath {
    value: String,
}

impl View for RelativeManifestPath {
    type V = Seq<char>;

    closed spec fn view(&self) -> Seq<char> {
        self.value@
    }
}

/// Checks the manifest path rule over the characters of a path.
pub fn is_relative_manifest_path(value: &str) -> (r: bool)
    ensures
        r == relative_manifest_path(value@),
{
    let chars = chars_of(value);
    let n = chars.len();
    if n == 0 || chars[0] == '/' {
        return false;
    }
    let pieces = split_ranges(&chars, 0, n, '/');
    assert(chars@.subrange(0, n as int) == chars@);
    let ghost parts = split(value@, '/');
    proof {
        reveal_strlit("..");
    }
    let mut k: usize = 0;
    while k < pieces.len()
        invariant
            chars@ == value@,
            n == chars@.len(),
            parts == split(value@, '/'),
            crate::text::ranges_hold(chars@, 0, n as int, pieces@, parts),
            0 <= k <= pieces@.len(),
            forall|j: int| 0 <= j < k ==> #[trigger] parts[j] != ".."@,
        decreases pieces@.len() - k,
    {
        proof {
            reveal_strlit("..");
        }
        let (a, b) = pieces[k];
        assert(chars@.subrange(a as int, b as int) == parts[k as int]);
        if b - a == 2 && chars[a] == '.' && chars[a + 1] == '.' {
            assert(parts[k as int] =~= ".."@);
            return false;
        }
        proof {
            if parts[k as int] == ".."@ {
                assert(parts[k as int].len() == 2);
                assert(parts[k as int][0] == chars@[a as int]);
                assert(parts[k as int][1] == chars@[a + 1]);
            }
        }
        k = k + 1;
    }
    true
}

impl RelativeManifestPath {
    /// The path must stay inside the checkout: absolute paths and parent traversal
    /// would let a manifest location escape the repository.
    pub fn new(value: &str) -> (r: Result<Self, InvalidRelativeManifestPath>)
        ensures
            r is Ok <==> relative_manifest_path(value@),
            r matches Ok(path) ==> path@ == value@,
            r matches Err(e) ==> e.path@ == value@,
    {
        if !is_relative_manifest_path(value) {
            return Err(InvalidRelativeManifestPath { path: value.to_owned() });
        }
        Ok(RelativeManifestPath { value: value.to_owned() })
    }

    pub fn as_str(&self) -> (r: &str)
        ensures
            r@ == self@,
    {
        self.value.as_str()
    }
}

/// A manifest path that could escape the checkout.
#[derive(Debug, PartialEq, Eq)]
pub struct InvalidRelativeManifestPath {
    pub path: String,
}

impl InvalidRelativeManifestPath {
    pub fn message(&self) -> (r: String)
        ensures
            r@ == "invalid relative manifest path `"@ + self.path@ + "`"@,
    {
        let mut out = "invalid relative manifest path `".to_owned();
        push_str(&mut out, self.path.as_str());
        push_str(&mut out, "`");
        out
    }
}

/// A full lowercase SHA-1: exactly 40 lowercase hexadecimal characters.
pub open spec fn full_commit_sha(s: Seq<char>) -> bool {
    s.len() == 40 && forall|i: int| 0 <= i < s.len() ==> is_lower_hex(#[trigger] s[i])
}

/// The immutable full commit identifier shared by Git, OCI tags, and Deployments.
#[derive(Clone, Debug, PartialEq, Eq)]
pub struct CommitSha {
    value: String,
}

impl View for CommitSha {
    type V = Seq<char>;

    closed spec fn view(&self) -> Seq<char> {
        self.value@
    }
}

impl CommitSha {
    /// Only full lowercase SHA-1s are accepted, so the commit stays an unambiguous identity.
    pub fn new(value: &str) -> (r: Result<Self, InvalidCommitSha>)
        ensures
            r is Ok <==> full_commit_sha(value@),
            r matches Ok(sha) ==> sha@ == value@,
            r matches Err(e) ==> e.value@ == value@,
    {
        let chars = chars_of(value);
        if chars.len() != 40 {
            return Err(InvalidCommitSha { value: value.to_owned() });
        }
        let mut i: usize = 0;
        while i < chars.len()
            invariant
                chars@ == value@,
                0 <= i <= chars@.len(),
                forall|k: int| 0 <= k < i ==> is_lower_hex(#[trigger] chars@[k]),
            decreases chars@.len() - i,
        {
            if !char_is_lower_hex(chars[i]) {
                return Err(InvalidCommitSha { value: value.to_owned() });
            }
            i = i + 1;
        }
        Ok(CommitSha { value: value.to_owned() })
    }

    pub fn as_str(&self) -> (r: &str)
        ensures
            r@ == self@,
    {
        self.value.as_str()
    }

    /// An identical commit identity.
    pub fn duplicate(&self) -> (r: Self)
        ensures
            r@ == self@,
    {
        CommitSha { value: self.value.clone() }
    }
}

/// Text that is not a full lowercase SHA-1.
#[derive(Debug, PartialEq, Eq)]
pub struct InvalidCommitSha {
    pub value: String,
}

impl InvalidCommitSha {
    pub fn message(&self) -> (r: String)
        ensures
            r@ == "invalid commit SHA `"@ + self.value@ + "`"@,
    {
        let mut out = "invalid commit SHA `".to_owned();
        push_str(&mut out, self.value.as_str());
        push_str(&mut out, "`");
        out
    }
}

} // verus!
