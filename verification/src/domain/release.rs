//! Immutable digest-pinned OCI artifacts, their repositories, and the
//! delivery rule that decides which artifacts an application may deploy.

use vstd::prelude::*;

use crate::domain::identity::{ApplicationId, ReleaseId};
use crate::text::{
    all_digits, char_is_ascii_alphanumeric, char_is_lower_hex, chars_of, find_char, has_char,
    is_ascii_alphanumeric, is_lower_hex, push_str, range_all_digits, range_eq, ranges_hold, split,
    split_ranges, starts_with, starts_with_exec, string_from_range, trim, trim_range,
};

verus! {

/// The delivery mechanism a Release artifact is supplied through.
#[derive(Clone, Copy, Debug, PartialEq, Eq)]
pub enum DeliveryType {
    Oci,
}

/// Characters allowed in an OCI repository name component.
pub open spec fn repository_name_char(c: char) -> bool {
    is_ascii_alphanumeric(c) || c == '.' || c == '_' || c == '-'
}

/// A non-empty component made only of repository name characters.
pub open spec fn repository_name(s: Seq<char>) -> bool {
    s.len() > 0 && forall|i: int| 0 <= i < s.len() ==> repository_name_char(#[trigger] s[i])
}

/// Index of the last occurrence of `c` in `s`, or -1 when there is none.
pub open spec fn last_index_of(s: Seq<char>, c: char) -> int
    decreases s.len(),
{
    if s.len() == 0 {
        -1
    } else if s.last() == c {
        s.len() - 1
    } else {
        last_index_of(s.drop_last(), c)
    }
}

/// A repository component; only the first (registry) component may carry a
/// `:port` suffix, split at its last colon, and the port must be decimal digits.
pub open spec fn repository_component(s: Seq<char>, registry: bool) -> bool {
    let colon = last_index_of(s, ':');
    if registry && colon >= 0 {
        repository_name(s.subrange(0, colon)) && s.len() - colon - 1 > 0 && all_digits(
            s.subrange(colon + 1, s.len() as int),
        )
    } else {
        repository_name(s)
    }
}

/// An OCI repository: registry host/port plus path components, with no tag or digest.
pub open spec fn valid_repository(s: Seq<char>) -> bool {
    let parts = split(s, '/');
    &&& s.len() > 0
    &&& trim(s) == s
    &&& !has_char(s, '@')
    &&& forall|k: int| 0 <= k < parts.len() ==> (#[trigger] parts[k]).len() > 0
    &&& !(has_char(parts[0], ':') && parts.len() == 1)
    &&& repository_component(parts[0], true)
    &&& forall|k: int| 1 <= k < parts.len() ==> repository_component(#[trigger] parts[k], false)
}

/// `sha256:` followed by exactly 64 lowercase hexadecimal characters.
pub open spec fn sha256_digest(s: Seq<char>) -> bool {
    &&& starts_with(s, "sha256:"@)
    &&& s.len() == 71
    &&& forall|i: int| 7 <= i < s.len() ==> is_lower_hex(#[trigger] s[i])
}

/// A digest-pinned reference `<repository>@sha256:<hex>`.
pub open spec fn valid_artifact_reference(s: Seq<char>) -> bool {
    exists|i: int|
        0 <= i < s.len() && s[i] == '@' && valid_repository(#[trigger] s.subrange(0, i))
            && sha256_digest(s.subrange(i + 1, s.len() as int))
}

proof fn lemma_last_index_unique(s: Seq<char>, c: char, k: int)
    requires
        -1 <= k < s.len(),
        k >= 0 ==> s[k] == c,
        forall|j: int| k < j < s.len() ==> s[j] != c,
    ensures
        last_index_of(s, c) == k,
    decreases s.len(),
{
    if s.len() > 0 && s.last() != c {
        lemma_last_index_unique(s.drop_last(), c, k);
    }
}

/// Characters of `v[start..end]` are all repository name characters, and there is at least one.
fn range_is_repository_name(v: &Vec<char>, start: usize, end: usize) -> (r: bool)
    requires
        start <= end <= v@.len(),
    ensures
        r == repository_name(v@.subrange(start as int, end as int)),
{
    let ghost s = v@.subrange(start as int, end as int);
    if start == end {
        return false;
    }
    let mut i = start;
    while i < end
        invariant
            start <= i <= end <= v@.len(),
            s == v@.subrange(start as int, end as int),
            forall|k: int| 0 <= k < i - start ==> repository_name_char(#[trigger] s[k]),
        decreases end - i,
    {
        let c = v[i];
        if !(char_is_ascii_alphanumeric(c) || c == '.' || c == '_' || c == '-') {
            assert(!repository_name_char(s[i - start]));
            return false;
        }
        i = i + 1;
    }
    true
}

/// `repository_component` over `v[start..end]`.
fn range_is_repository_component(v: &Vec<char>, start: usize, end: usize, registry: bool) -> (r: bool)
    requires
        start <= end <= v@.len(),
    ensures
        r == repository_component(v@.subrange(start as int, end as int), registry),
{
    let ghost s = v@.subrange(start as int, end as int);
    if !registry {
        return range_is_repository_name(v, start, end);
    }
    let mut j = end;
    while j > start && v[j - 1] != ':'
        invariant
            start <= j <= end <= v@.len(),
            s == v@.subrange(start as int, end as int),
            forall|k: int| j - start <= k < s.len() ==> s[k] != ':',
        decreases j - start,
    {
        j = j - 1;
    }
    if j == start {
        proof {
            lemma_last_index_unique(s, ':', -1);
        }
        return range_is_repository_name(v, start, end);
    }
    let colon = j - 1;
    proof {
        lemma_last_index_unique(s, ':', colon - start);
        assert(s.subrange(0, colon - start) == v@.subrange(start as int, colon as int));
        assert(s.subrange(colon - start + 1, s.len() as int) == v@.subrange(colon + 1, end as int));
    }
    range_is_repository_name(v, start, colon) && end - colon - 1 > 0 && range_all_digits(
        v,
        colon + 1,
        end,
    )
}

/// Accepts the restricted repository shape used by artifact validation.
pub fn is_repository(repository: &str) -> (r: bool)
    ensures
        r == valid_repository(repository@),
{
    let v = chars_of(repository);
    let n = v.len();
    let ghost s = repository@;
    assert(v@.subrange(0, n as int) == s);
    if n == 0 {
        return false;
    }
    let (a, b) = trim_range(&v, 0, n);
    if a != 0 || b != n {
        assert(trim(s).len() != s.len());
        return false;
    }
    let at = find_char(&v, 0, n, '@');
    if at < n {
        assert(s[at as int] == '@');
        return false;
    }
    let parts = split_ranges(&v, 0, n, '/');
    let ghost pieces = split(s, '/');
    proof {
        crate::text::lemma_split_nonempty(s, '/');
    }
    let mut k: usize = 0;
    while k < parts.len()
        invariant
            v@ == s,
            s == repository@,
            n == s.len(),
            pieces == split(s, '/'),
            ranges_hold(v@, 0, n as int, parts@, pieces),
            0 <= k <= parts@.len(),
            forall|j: int| 0 <= j < k ==> (#[trigger] pieces[j]).len() > 0,
        decreases parts@.len() - k,
    {
        let (pa, pb) = parts[k];
        assert(v@.subrange(pa as int, pb as int) == pieces[k as int]);
        if pa == pb {
            return false;
        }
        k = k + 1;
    }
    let (fa, fb) = parts[0];
    assert(v@.subrange(fa as int, fb as int) == pieces[0]);
    let colon = find_char(&v, fa, fb, ':');
    proof {
        if colon < fb {
            assert(pieces[0][colon - fa] == ':');
        }
        if has_char(pieces[0], ':') {
            let w = choose|w: int| 0 <= w < pieces[0].len() && pieces[0][w] == ':';
            assert(v@[fa + w] == ':');
        }
    }
    if colon < fb && parts.len() == 1 {
        return false;
    }
    if !range_is_repository_component(&v, fa, fb, true) {
        return false;
    }
    let mut k: usize = 1;
    while k < parts.len()
        invariant
            v@ == s,
            s == repository@,
            n == s.len(),
            pieces == split(s, '/'),
            ranges_hold(v@, 0, n as int, parts@, pieces),
            1 <= k <= parts@.len(),
            forall|j: int| 1 <= j < k ==> repository_component(#[trigger] pieces[j], false),
        decreases parts@.len() - k,
    {
        let (pa, pb) = parts[k];
        assert(v@.subrange(pa as int, pb as int) == pieces[k as int]);
        if !range_is_repository_component(&v, pa, pb, false) {
            return false;
        }
        k = k + 1;
    }
    true
}

/// Recognizes the lowercase hexadecimal alphabet required by OCI sha256 digests.
pub fn is_lowercase_hex(byte: u8) -> (r: bool)
    ensures
        r == ((48 <= byte && byte <= 57) || (97 <= byte && byte <= 102)),
{
    (48 <= byte && byte <= 57) || (97 <= byte && byte <= 102)
}

/// Requires a `sha256:` prefix followed by exactly 64 lowercase hexadecimal characters.
pub fn is_sha256_digest(digest: &str) -> (r: bool)
    ensures
        r == sha256_digest(digest@),
{
    let v = chars_of(digest);
    let prefix = chars_of("sha256:");
    proof {
        reveal_strlit("sha256:");
    }
    if !starts_with_exec(&v, &prefix) {
        return false;
    }
    if v.len() != 71 {
        return false;
    }
    let mut i: usize = 7;
    while i < 71
        invariant
            v@ == digest@,
            v@.len() == 71,
            7 <= i <= 71,
            forall|k: int| 7 <= k < i ==> is_lower_hex(#[trigger] v@[k]),
        decreases 71 - i,
    {
        if !char_is_lower_hex(v[i]) {
            return false;
        }
        i = i + 1;
    }
    true
}

/// Identifies an OCI repository without a mutable tag or digest suffix.
#[derive(Clone, Debug, PartialEq, Eq)]
pub struct OciRepository {
    value: String,
}

impl View for OciRepository {
    type V = Seq<char>;

    closed spec fn view(&self) -> Seq<char> {
        self.value@
    }
}

impl OciRepository {
    /// Accepts registry host/port plus path components but no tag or digest.
    pub fn new(repository: &str) -> (r: Result<Self, InvalidOciRepository>)
        ensures
            r is Ok <==> valid_repository(repository@),
            r matches Ok(repo) ==> repo@ == repository@,
            r matches Err(e) ==> e.repository@ == repository@,
    {
        if !is_repository(repository) {
            return Err(InvalidOciRepository { repository: repository.to_owned() });
        }
        Ok(OciRepository { value: repository.to_owned() })
    }

    pub fn as_str(&self) -> (r: &str)
        ensures
            r@ == self@,
    {
        self.value.as_str()
    }
}

/// A validated immutable repository-and-digest OCI artifact identity.
#[derive(Clone, Debug, PartialEq, Eq)]
pub struct OciArtifact {
    reference: String,
    repository: OciRepository,
    digest: String,
}

impl OciArtifact {
    pub closed spec fn reference_view(&self) -> Seq<char> {
        self.reference@
    }

    pub closed spec fn repository_view(&self) -> Seq<char> {
        self.repository@
    }

    pub closed spec fn digest_view(&self) -> Seq<char> {
        self.digest@
    }

    /// Builds a canonical digest-pinned reference from separately supplied components.
    pub fn new(repository: &str, digest: &str) -> (r: Result<Self, InvalidOciArtifact>)
        ensures
            built_artifact(repository@, digest@, r),
    {
        let mut reference = repository.to_owned();
        crate::text::push_char(&mut reference, '@');
        push_str(&mut reference, digest);
        assert(reference@ =~= repository@ + seq!['@'] + digest@);
        let r = Self::parse(reference.as_str());
        proof {
            let s = repository@ + seq!['@'] + digest@;
            assert(s.subrange(0, repository@.len() as int) =~= repository@);
            assert(s.subrange(repository@.len() as int + 1, s.len() as int) =~= digest@);
            if r is Ok {
                let a = r->Ok_0;
                let other = a.repository_view().len() as int;
                assert(s =~= a.repository_view() + seq!['@'] + a.digest_view());
                assert(s.subrange(0, other) =~= a.repository_view());
                assert(s.subrange(other + 1, s.len() as int) =~= a.digest_view());
                assert(s[repository@.len() as int] == '@');
                assert(s[other] == '@');
                lemma_reference_split_unique(s, repository@.len() as int, other);
            }
        }
        r
    }

    /// Parses only `repository@sha256:<hex>` references so mutable tags never become artifacts.
    pub fn parse(reference: &str) -> (r: Result<Self, InvalidOciArtifact>)
        ensures
            parsed_artifact(reference@, r),
    {
        let v = chars_of(reference);
        let n = v.len();
        let ghost s = reference@;
        let at = find_char(&v, 0, n, '@');
        if at == n {
            proof {
                if valid_artifact_reference(s) {
                    let w = choose|w: int|
                        0 <= w < s.len() && s[w] == '@' && valid_repository(#[trigger] s.subrange(0, w))
                            && sha256_digest(s.subrange(w + 1, s.len() as int));
                    assert(v@[w] == '@');
                }
            }
            return Err(InvalidOciArtifact { reference: reference.to_owned() });
        }
        let repository_text = string_from_range(&v, 0, at);
        let digest_text = string_from_range(&v, at + 1, n);
        let repository = match OciRepository::new(repository_text.as_str()) {
            Ok(repository) => repository,
            Err(_) => {
                proof {
                    lemma_first_at_is_the_split(s, at as int);
                }
                return Err(InvalidOciArtifact { reference: reference.to_owned() });
            },
        };
        if !is_sha256_digest(digest_text.as_str()) {
            proof {
                lemma_first_at_is_the_split(s, at as int);
            }
            return Err(InvalidOciArtifact { reference: reference.to_owned() });
        }
        proof {
            assert(s =~= s.subrange(0, at as int) + seq!['@'] + s.subrange(at + 1, s.len() as int));
            assert(s.subrange(0, at as int) == repository@);
        }
        Ok(OciArtifact { reference: reference.to_owned(), repository, digest: digest_text })
    }

    /// The canonical digest-pinned reference preserved during validation.
    pub fn reference(&self) -> (r: &str)
        ensures
            r@ == self.reference_view(),
    {
        self.reference.as_str()
    }

    /// The repository portion constrained by artifact validation.
    pub fn repository(&self) -> (r: &str)
        ensures
            r@ == self.repository_view(),
    {
        self.repository.as_str()
    }

    /// The sha256 digest portion constrained by artifact validation.
    pub fn digest(&self) -> (r: &str)
        ensures
            r@ == self.digest_view(),
    {
        self.digest.as_str()
    }
}

/// What parsing `reference` gives: an artifact exactly when the reference is valid,
/// holding the reference split at its `@` into a valid repository and a sha256
/// digest; otherwise an error naming the reference.
pub open spec fn parsed_artifact(reference: Seq<char>, r: Result<OciArtifact, InvalidOciArtifact>) -> bool {
    &&& r is Ok <==> valid_artifact_reference(reference)
    &&& r matches Ok(a) ==> a.reference_view() == reference && reference == a.repository_view()
        + seq!['@'] + a.digest_view() && valid_repository(a.repository_view()) && sha256_digest(
        a.digest_view(),
    )
    &&& r matches Err(e) ==> e.reference@ == reference
}

/// What building from `repository` and `digest` gives: an artifact exactly when
/// `repository@digest` is a valid reference, holding that reference and the two parts
/// as given; otherwise an error naming the joined reference.
pub open spec fn built_artifact(
    repository: Seq<char>,
    digest: Seq<char>,
    r: Result<OciArtifact, InvalidOciArtifact>,
) -> bool {
    let reference = repository + seq!['@'] + digest;
    &&& r is Ok <==> valid_artifact_reference(reference)
    &&& r matches Ok(a) ==> a.reference_view() == reference && a.repository_view() == repository
        && a.digest_view() == digest
    &&& r matches Err(e) ==> e.reference@ == reference
}

/// Building an artifact from a repository and a digest gives what parsing their joined
/// reference `repository@digest` gives: success on the same inputs, then the same
/// reference, repository and digest; otherwise the same rejected reference.
pub proof fn lemma_new_agrees_with_parse(
    repository: Seq<char>,
    digest: Seq<char>,
    built: Result<OciArtifact, InvalidOciArtifact>,
    parsed: Result<OciArtifact, InvalidOciArtifact>,
)
    requires
        built_artifact(repository, digest, built),
        parsed_artifact(repository + seq!['@'] + digest, parsed),
    ensures
        built is Ok <==> parsed is Ok,
        built is Ok ==> built->Ok_0.reference_view() == parsed->Ok_0.reference_view()
            && built->Ok_0.repository_view() == parsed->Ok_0.repository_view()
            && built->Ok_0.digest_view() == parsed->Ok_0.digest_view(),
        built is Err ==> built->Err_0.reference@ == parsed->Err_0.reference@,
{
    if built is Ok {
        let s = repository + seq!['@'] + digest;
        let b = parsed->Ok_0;
        let other = b.repository_view().len() as int;
        assert(s.subrange(0, other) =~= b.repository_view());
        assert(s.subrange(other + 1, s.len() as int) =~= b.digest_view());
        assert(s[repository.len() as int] == '@');
        assert(s[other] == '@');
        lemma_reference_split_unique(s, repository.len() as int, other);
        assert(s.subrange(0, repository.len() as int) =~= repository);
        assert(s.subrange(repository.len() as int + 1, s.len() as int) =~= digest);
    }
}

/// A valid artifact reference splits only at its first `@`: a valid repository
/// contains no `@`, so any valid split point is the first one.
proof fn lemma_first_at_is_the_split(s: Seq<char>, at: int)
    requires
        0 <= at < s.len(),
        s[at] == '@',
        forall|k: int| 0 <= k < at ==> s[k] != '@',
    ensures
        valid_artifact_reference(s) <==> valid_repository(s.subrange(0, at)) && sha256_digest(
            s.subrange(at + 1, s.len() as int),
        ),
{
    if valid_artifact_reference(s) {
        let w = choose|w: int|
            0 <= w < s.len() && s[w] == '@' && valid_repository(#[trigger] s.subrange(0, w))
                && sha256_digest(s.subrange(w + 1, s.len() as int));
        if w > at {
            assert(s.subrange(0, w)[at] == '@');
            assert(has_char(s.subrange(0, w), '@'));
        }
        assert(w == at);
    }
    if valid_repository(s.subrange(0, at)) && sha256_digest(s.subrange(at + 1, s.len() as int)) {
        assert(valid_artifact_reference(s));
    }
}

/// A valid split point of a reference is its only `@`: neither a valid repository
/// nor a sha256 digest contains one.
proof fn lemma_reference_split_unique(s: Seq<char>, at: int, other: int)
    requires
        0 <= at < s.len(),
        0 <= other < s.len(),
        s[at] == '@',
        s[other] == '@',
        valid_repository(s.subrange(0, other)),
        sha256_digest(s.subrange(other + 1, s.len() as int)),
    ensures
        at == other,
{
    reveal_strlit("sha256:");
    if at < other {
        assert(s.subrange(0, other)[at] == '@');
    }
    if at > other {
        let d = s.subrange(other + 1, s.len() as int);
        assert(d[at - other - 1] == '@');
        if at - other - 1 < 7 {
            assert(d.subrange(0, 7)[at - other - 1] == "sha256:"@[at - other - 1]);
        }
    }
}

/// The immutable repository boundary allowed for application artifacts.
#[derive(Clone, Debug, PartialEq, Eq)]
pub struct DeliverySpecification {
    delivery_type: DeliveryType,
    image_repository: OciRepository,
}

impl DeliverySpecification {
    pub closed spec fn image_repository_view(&self) -> Seq<char> {
        self.image_repository@
    }

    pub closed spec fn delivery_type_view(&self) -> DeliveryType {
        self.delivery_type
    }

    pub fn new(delivery_type: DeliveryType, image_repository: OciRepository) -> (r: Self)
        ensures
            r.delivery_type_view() == delivery_type,
            r.image_repository_view() == image_repository@,
    {
        DeliverySpecification { delivery_type, image_repository }
    }

    pub fn delivery_type(&self) -> (r: DeliveryType)
        ensures
            r == self.delivery_type_view(),
    {
        self.delivery_type
    }

    pub fn image_repository(&self) -> (r: &OciRepository)
        ensures
            r@ == self.image_repository_view(),
    {
        &self.image_repository
    }

    /// An artifact is deployable only when its repository is exactly the permitted one.
    pub fn permits(&self, artifact: &OciArtifact) -> (r: bool)
        ensures
            r == (self.image_repository_view() == artifact.repository_view()),
    {
        crate::text::str_eq(self.image_repository.as_str(), artifact.repository())
    }
}

/// A repository that carries a tag, digest, or forbidden characters.
#[derive(Debug, PartialEq, Eq)]
pub struct InvalidOciRepository {
    pub repository: String,
}

impl InvalidOciRepository {
    pub fn message(&self) -> (r: String)
        ensures
            r@ == "invalid OCI repository `"@ + self.repository@ + "`"@,
    {
        let mut out = "invalid OCI repository `".to_owned();
        push_str(&mut out, self.repository.as_str());
        push_str(&mut out, "`");
        out
    }
}

/// A reference that is not digest-pinned.
#[derive(Debug, PartialEq, Eq)]
pub struct InvalidOciArtifact {
    pub reference: String,
}

impl InvalidOciArtifact {
    pub fn message(&self) -> (r: String)
        ensures
            r@ == "image reference `"@ + self.reference@
                + "` must be <repository>@sha256:<64 lowercase hexadecimal characters>"@,
    {
        let mut out = "image reference `".to_owned();
        push_str(&mut out, self.reference.as_str());
        push_str(&mut out, "` must be <repository>@sha256:<64 lowercase hexadecimal characters>");
        out
    }
}

/// One immutable artifact reusable by an Application.
#[derive(Clone, Debug, PartialEq, Eq)]
pub struct Release {
    pub id: ReleaseId,
    pub application_id: ApplicationId,
    pub artifact: OciArtifact,
    pub created_at: String,
}

} // verus!
