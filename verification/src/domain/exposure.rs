//! Visibility intent, confirmed route state, and the DNS name rule for public routes.

use vstd::prelude::*;

use crate::domain::identity::{ApplicationId, RuntimeInstanceId};
use crate::text::{
    all_ascii, char_is_ascii, char_is_ascii_alphanumeric, chars_of, is_ascii_alphanumeric,
    push_str, ranges_hold, split, split_ranges, str_eq,
};

verus! {

/// Requested route visibility, stored as application intent.
#[derive(Clone, Copy, Debug, PartialEq, Eq)]
pub enum Visibility {
    Internal,
    Public,
}

pub open spec fn visibility_text(v: Visibility) -> Seq<char> {
    match v {
        Visibility::Internal => "internal"@,
        Visibility::Public => "public"@,
    }
}

pub open spec fn visibility_from_text(s: Seq<char>) -> Option<Visibility> {
    if s == "internal"@ {
        Some(Visibility::Internal)
    } else if s == "public"@ {
        Some(Visibility::Public)
    } else {
        None
    }
}

impl Visibility {
    /// The persisted spelling of the visibility intent.
    pub fn database_value(self) -> (r: &'static str)
        ensures
            r@ == visibility_text(self),
    {
        match self {
            Visibility::Internal => "internal",
            Visibility::Public => "public",
        }
    }

    /// Rejects persisted visibility values outside the supported intent set.
    pub fn from_database(value: &str) -> (r: Option<Visibility>)
        ensures
            r == visibility_from_text(value@),
    {
        if str_eq(value, "internal") {
            Some(Visibility::Internal)
        } else if str_eq(value, "public") {
            Some(Visibility::Public)
        } else {
            None
        }
    }
}

/// Reading back a stored visibility gives the visibility that was stored.
pub proof fn lemma_visibility_round_trip(v: Visibility)
    ensures
        visibility_from_text(visibility_text(v)) == Some(v),
{
    reveal_strlit("internal");
    reveal_strlit("public");
    assert("internal"@.len() != "public"@.len());
}

/// The last confirmed Caddy materialization state of a route.
#[derive(Clone, Copy, Debug, PartialEq, Eq)]
pub enum ExposureMaterializationState {
    NotMaterialized,
    Applying,
    Active,
    Removing,
    Failed,
    Diverged,
}

pub open spec fn materialization_text(s: ExposureMaterializationState) -> Seq<char> {
    match s {
        ExposureMaterializationState::NotMaterialized => "not_materialized"@,
        ExposureMaterializationState::Applying => "applying"@,
        ExposureMaterializationState::Active => "active"@,
        ExposureMaterializationState::Removing => "removing"@,
        ExposureMaterializationState::Failed => "failed"@,
        ExposureMaterializationState::Diverged => "diverged"@,
    }
}

pub open spec fn materialization_from_text(s: Seq<char>) -> Option<ExposureMaterializationState> {
    if s == "not_materialized"@ {
        Some(ExposureMaterializationState::NotMaterialized)
    } else if s == "applying"@ {
        Some(ExposureMaterializationState::Applying)
    } else if s == "active"@ {
        Some(ExposureMaterializationState::Active)
    } else if s == "removing"@ {
        Some(ExposureMaterializationState::Removing)
    } else if s == "failed"@ {
        Some(ExposureMaterializationState::Failed)
    } else if s == "diverged"@ {
        Some(ExposureMaterializationState::Diverged)
    } else {
        None
    }
}

impl ExposureMaterializationState {
    pub fn database_value(self) -> (r: &'static str)
        ensures
            r@ == materialization_text(self),
    {
        match self {
            ExposureMaterializationState::NotMaterialized => "not_materialized",
            ExposureMaterializationState::Applying => "applying",
            ExposureMaterializationState::Active => "active",
            ExposureMaterializationState::Removing => "removing",
            ExposureMaterializationState::Failed => "failed",
            ExposureMaterializationState::Diverged => "diverged",
        }
    }

    /// Rejects persisted route states outside the exposure lifecycle.
    pub fn from_database(value: &str) -> (r: Option<ExposureMaterializationState>)
        ensures
            r == materialization_from_text(value@),
    {
        if str_eq(value, "not_materialized") {
            Some(ExposureMaterializationState::NotMaterialized)
        } else if str_eq(value, "applying") {
            Some(ExposureMaterializationState::Applying)
        } else if str_eq(value, "active") {
            Some(ExposureMaterializationState::Active)
        } else if str_eq(value, "removing") {
            Some(ExposureMaterializationState::Removing)
        } else if str_eq(value, "failed") {
            Some(ExposureMaterializationState::Failed)
        } else if str_eq(value, "diverged") {
            Some(ExposureMaterializationState::Diverged)
        } else {
            None
        }
    }
}

/// Reading back a stored materialization state gives the state that was stored.
pub proof fn lemma_materialization_round_trip(s: ExposureMaterializationState)
    ensures
        materialization_from_text(materialization_text(s)) == Some(s),
{
    reveal_strlit("not_materialized");
    reveal_strlit("applying");
    reveal_strlit("active");
    reveal_strlit("removing");
    reveal_strlit("failed");
    reveal_strlit("diverged");
    let texts = seq![
        "not_materialized"@,
        "applying"@,
        "active"@,
        "removing"@,
        "failed"@,
        "diverged"@,
    ];
    assert(texts[0].len() == 16 && texts[1][0] == 'a' && texts[1][1] == 'p' && texts[1].len() == 8);
    assert(texts[2][0] == 'a' && texts[2][1] == 'c' && texts[2].len() == 6);
    assert(texts[3][0] == 'r' && texts[3].len() == 8);
    assert(texts[4][0] == 'f' && texts[4].len() == 6);
    assert(texts[5][0] == 'd' && texts[5].len() == 8);
}

/// Visibility intent tracked separately from the confirmed Caddy route state.
#[derive(Clone, Debug, PartialEq, Eq)]
pub struct Exposure {
    pub application_id: ApplicationId,
    pub desired_visibility: Visibility,
    pub domain: Option<DomainName>,
    pub active_runtime_id: Option<RuntimeInstanceId>,
    pub materialization_state: ExposureMaterializationState,
    pub configuration_version: Option<String>,
    pub last_materialized_at: Option<String>,
    pub last_error_code: Option<String>,
    pub last_error_message: Option<String>,
}

/// The configuration version of a rendered route: the exact fragment bytes it was
/// rendered as. A route configuration always has content, so empty text is rejected.
#[derive(Clone, Debug, PartialEq, Eq)]
pub struct ExposureConfigurationVersion {
    value: String,
}

impl View for ExposureConfigurationVersion {
    type V = Seq<char>;

    closed spec fn view(&self) -> Seq<char> {
        self.value@
    }
}

impl ExposureConfigurationVersion {
    pub fn new(fragment: &str) -> (r: Result<Self, InvalidExposureConfigurationVersion>)
        ensures
            r is Ok <==> fragment@.len() > 0,
            r matches Ok(v) ==> v@ == fragment@,
    {
        if fragment.is_empty() {
            return Err(InvalidExposureConfigurationVersion);
        }
        Ok(ExposureConfigurationVersion { value: fragment.to_owned() })
    }

    pub fn as_str(&self) -> (r: &str)
        ensures
            r@ == self@,
    {
        self.value.as_str()
    }
}

/// A route fragment with no content.
#[derive(Debug, PartialEq, Eq)]
pub struct InvalidExposureConfigurationVersion;

/// One DNS label: 1 to 63 ASCII letters, digits, or interior hyphens.
pub open spec fn valid_domain_label(s: Seq<char>) -> bool {
    &&& 1 <= s.len() <= 63
    &&& is_ascii_alphanumeric(s[0])
    &&& is_ascii_alphanumeric(s[s.len() - 1])
    &&& forall|i: int| 0 <= i < s.len() ==> is_ascii_alphanumeric(#[trigger] s[i]) || s[i] == '-'
}

/// An ASCII DNS name of at most 253 characters whose dot-separated labels are all valid.
pub open spec fn valid_domain(s: Seq<char>) -> bool {
    &&& 1 <= s.len() <= 253
    &&& all_ascii(s)
    &&& forall|k: int| 0 <= k < split(s, '.').len() ==> valid_domain_label(#[trigger] split(s, '.')[k])
}

/// `valid_domain_label` over `v[start..end]`.
fn range_is_domain_label(v: &Vec<char>, start: usize, end: usize) -> (r: bool)
    requires
        start <= end <= v@.len(),
    ensures
        r == valid_domain_label(v@.subrange(start as int, end as int)),
{
    let ghost s = v@.subrange(start as int, end as int);
    let n = end - start;
    if n == 0 || n > 63 {
        return false;
    }
    if !char_is_ascii_alphanumeric(v[start]) || !char_is_ascii_alphanumeric(v[end - 1]) {
        return false;
    }
    let mut i = start;
    while i < end
        invariant
            start <= i <= end <= v@.len(),
            s == v@.subrange(start as int, end as int),
            forall|k: int| 0 <= k < i - start ==> is_ascii_alphanumeric(#[trigger] s[k]) || s[k] == '-',
        decreases end - i,
    {
        let c = v[i];
        if !(char_is_ascii_alphanumeric(c) || c == '-') {
            assert(!(is_ascii_alphanumeric(s[i - start]) || s[i - start] == '-'));
            return false;
        }
        i = i + 1;
    }
    true
}

/// Enforces DNS label boundaries while permitting only alphanumerics and interior hyphens.
pub fn is_valid_domain_label(label: &str) -> (r: bool)
    ensures
        r == valid_domain_label(label@),
{
    let v = chars_of(label);
    assert(v@.subrange(0, v@.len() as int) == v@);
    range_is_domain_label(&v, 0, v.len())
}

/// Validates an ASCII DNS name within whole-domain and per-label limits.
pub fn is_valid_domain(domain: &str) -> (r: bool)
    ensures
        r == valid_domain(domain@),
{
    let v = chars_of(domain);
    let n = v.len();
    if n == 0 || n > 253 {
        return false;
    }
    let mut i: usize = 0;
    while i < n
        invariant
            v@ == domain@,
            n == v@.len(),
            0 <= i <= n,
            forall|k: int| 0 <= k < i ==> crate::text::is_ascii(#[trigger] v@[k]),
        decreases n - i,
    {
        if !char_is_ascii(v[i]) {
            return false;
        }
        i = i + 1;
    }
    let labels = split_ranges(&v, 0, n, '.');
    assert(v@.subrange(0, n as int) == v@);
    let ghost pieces = split(domain@, '.');
    let mut k: usize = 0;
    while k < labels.len()
        invariant
            v@ == domain@,
            n == v@.len(),
            pieces == split(domain@, '.'),
            ranges_hold(v@, 0, n as int, labels@, pieces),
            0 <= k <= labels@.len(),
            forall|j: int| 0 <= j < k ==> valid_domain_label(#[trigger] pieces[j]),
        decreases labels@.len() - k,
    {
        let (a, b) = labels[k];
        assert(v@.subrange(a as int, b as int) == pieces[k as int]);
        if !range_is_domain_label(&v, a, b) {
            return false;
        }
        k = k + 1;
    }
    true
}

/// A validated DNS name for a public route.
#[derive(Clone, Debug, PartialEq, Eq)]
pub struct DomainName {
    value: String,
}

impl View for DomainName {
    type V = Seq<char>;

    closed spec fn view(&self) -> Seq<char> {
        self.value@
    }
}

impl DomainName {
    pub fn new(value: &str) -> (r: Result<Self, InvalidDomainName>)
        ensures
            r is Ok <==> valid_domain(value@),
            r matches Ok(d) ==> d@ == value@,
            r matches Err(e) ==> e.value@ == value@,
    {
        if !is_valid_domain(value) {
            return Err(InvalidDomainName { value: value.to_owned() });
        }
        Ok(DomainName { value: value.to_owned() })
    }

    pub fn as_str(&self) -> (r: &str)
        ensures
            r@ == self@,
    {
        self.value.as_str()
    }
}

/// Text that is not a valid DNS name.
#[derive(Debug, PartialEq, Eq)]
pub struct InvalidDomainName {
    pub value: String,
}

impl InvalidDomainName {
    pub fn message(&self) -> (r: String)
        ensures
            r@ == "invalid domain name `"@ + self.value@ + "`"@,
    {
        let mut out = "invalid domain name `".to_owned();
        push_str(&mut out, self.value.as_str());
        push_str(&mut out, "`");
        out
    }
}

/// Requested visibility with its domain: a public exposure always names a domain.
#[derive(Clone, Debug, PartialEq, Eq)]
pub struct ExposureIntent {
    visibility: Visibility,
    domain: Option<DomainName>,
}

/// A public exposure without a domain.
#[derive(Debug, PartialEq, Eq)]
pub struct InvalidExposureIntent;

impl InvalidExposureIntent {
    pub fn message(&self) -> (r: &'static str)
        ensures
            r@ == "public exposure requires a domain"@,
    {
        "public exposure requires a domain"
    }
}

impl ExposureIntent {
    pub closed spec fn visibility_view(&self) -> Visibility {
        self.visibility
    }

    pub closed spec fn domain_view(&self) -> Option<DomainName> {
        self.domain
    }

    pub fn new(visibility: Visibility, domain: Option<DomainName>) -> (r: Result<Self, InvalidExposureIntent>)
        ensures
            r is Ok <==> !(visibility is Public && domain is None),
            r matches Ok(intent) ==> intent.visibility_view() == visibility && intent.domain_view()
                == domain,
    {
        if let Visibility::Public = visibility {
            if domain.is_none() {
                return Err(InvalidExposureIntent);
            }
        }
        Ok(ExposureIntent { visibility, domain })
    }

    pub fn visibility(&self) -> (r: Visibility)
        ensures
            r == self.visibility_view(),
    {
        self.visibility
    }

    pub fn domain(&self) -> (r: Option<&DomainName>)
        ensures
            match (r, self.domain_view()) {
                (Some(a), Some(b)) => *a == b,
                (None, None) => true,
                _ => false,
            },
    {
        match &self.domain {
            Some(d) => Some(d),
            None => None,
        }
    }
}

} // verus!
