//! Opaque per-entity identifiers and the shared catalog-name rule.
//!
//! Every identifier accepts exactly the store-generated format: 32 lowercase
//! hexadecimal characters. Each entity has its own nominal type so that one
//! kind of identifier can never stand where another is required.

use vstd::prelude::*;

use crate::text::{
    char_is_ascii_alphanumeric, char_is_ascii_digit, char_is_ascii_lowercase, char_is_lower_hex,
    chars_of, is_ascii_alphanumeric, is_ascii_digit, is_ascii_lowercase, is_lower_hex, push_str,
};

verus! {

/// The store-generated identifier format: exactly 32 lowercase hexadecimal characters.
pub open spec fn valid_entity_id(s: Seq<char>) -> bool {
    s.len() == 32 && forall|i: int| 0 <= i < s.len() ==> is_lower_hex(#[trigger] s[i])
}

/// Accepts only the current store-generated identifier format.
pub fn is_valid_entity_id(value: &str) -> (r: bool)
    ensures
        r == valid_entity_id(value@),
{
    let chars = chars_of(value);
    if chars.len() != 32 {
        return false;
    }
    let mut i: usize = 0;
    while i < chars.len()
        invariant
            chars@ == value@,
            0 <= i <= chars@.len(),
            forall|k: int| 0 <= k < i ==> is_lower_hex(#[trigger] chars@[k]),
        decreases chars@.len() - i,
    {
        if !char_is_lower_hex(chars[i]) {
            return false;
        }
        i = i + 1;
    }
    true
}

/// The Application/System name grammar: 1 to 63 characters drawn from lowercase
/// ASCII letters, digits, and `-`, starting and ending with a letter or digit.
pub open spec fn valid_catalog_name(s: Seq<char>) -> bool {
    &&& 1 <= s.len() <= 63
    &&& is_ascii_alphanumeric(s[0])
    &&& is_ascii_alphanumeric(s[s.len() - 1])
    &&& forall|i: int|
        0 <= i < s.len() ==> is_ascii_lowercase(#[trigger] s[i]) || is_ascii_digit(s[i]) || s[i]
            == '-'
}

/// Single authority for the catalog name grammar shared by Applications and Systems.
pub fn is_valid_catalog_name(value: &str) -> (r: bool)
    ensures
        r == valid_catalog_name(value@),
{
    let chars = chars_of(value);
    let n = chars.len();
    if n == 0 || n > 63 {
        return false;
    }
    if !char_is_ascii_alphanumeric(chars[0]) || !char_is_ascii_alphanumeric(chars[n - 1]) {
        return false;
    }
    let mut i: usize = 0;
    while i < n
        invariant
            chars@ == value@,
            n == chars@.len(),
            0 <= i <= n,
            forall|k: int|
                0 <= k < i ==> is_ascii_lowercase(#[trigger] chars@[k]) || is_ascii_digit(chars@[k])
                    || chars@[k] == '-',
        decreases n - i,
    {
        let c = chars[i];
        if !(char_is_ascii_lowercase(c) || char_is_ascii_digit(c) || c == '-') {
            return false;
        }
        i = i + 1;
    }
    true
}

/// Rejected identifier text.
#[derive(Debug, PartialEq, Eq)]
pub struct InvalidEntityId {
    pub value: String,
}

impl InvalidEntityId {
    /// The human-readable rejection message.
    pub fn message(&self) -> (r: String)
        ensures
            r@ == "invalid entity identifier `"@ + self.value@
                + "`: expected 32 lowercase hexadecimal characters"@,
    {
        let mut out = "invalid entity identifier `".to_owned();
        push_str(&mut out, self.value.as_str());
        push_str(&mut out, "`: expected 32 lowercase hexadecimal characters");
        out
    }
}

/// Identifies one System.
#[derive(Clone, Debug, PartialEq, Eq, Hash)]
pub struct SystemId {
    value: String,
}

impl View for SystemId {
    type V = Seq<char>;

    closed spec fn view(&self) -> Seq<char> {
        self.value@
    }
}

impl SystemId {
    /// Accepts only the current store-generated identifier format.
    pub fn new(value: &str) -> (r: Result<Self, InvalidEntityId>)
        ensures
            r is Ok <==> valid_entity_id(value@),
            r matches Ok(id) ==> id@ == value@,
            r matches Err(e) ==> e.value@ == value@,
    {
        if !is_valid_entity_id(value) {
            return Err(InvalidEntityId { value: value.to_owned() });
        }
        Ok(SystemId { value: value.to_owned() })
    }

    pub fn as_str(&self) -> (r: &str)
        ensures
            r@ == self@,
    {
        self.value.as_str()
    }

    /// An identical identifier.
    pub fn duplicate(&self) -> (r: Self)
        ensures
            r@ == self@,
    {
        SystemId { value: self.value.clone() }
    }
}

/// Identifies one Application.
#[derive(Clone, Debug, PartialEq, Eq, Hash)]
pub struct ApplicationId {
    value: String,
}

impl View for ApplicationId {
    type V = Seq<char>;

    closed spec fn view(&self) -> Seq<char> {
        self.value@
    }
}

impl ApplicationId {
    /// Accepts only the current store-generated identifier format.
    pub fn new(value: &str) -> (r: Result<Self, InvalidEntityId>)
        ensures
            r is Ok <==> valid_entity_id(value@),
            r matches Ok(id) ==> id@ == value@,
            r matches Err(e) ==> e.value@ == value@,
    {
        if !is_valid_entity_id(value) {
            return Err(InvalidEntityId { value: value.to_owned() });
        }
        Ok(ApplicationId { value: value.to_owned() })
    }

    pub fn as_str(&self) -> (r: &str)
        ensures
            r@ == self@,
    {
        self.value.as_str()
    }

    /// An identical identifier.
    pub fn duplicate(&self) -> (r: Self)
        ensures
            r@ == self@,
    {
        ApplicationId { value: self.value.clone() }
    }
}

/// Identifies one Release.
#[derive(Clone, Debug, PartialEq, Eq, Hash)]
pub struct ReleaseId {
    value: String,
}

impl View for ReleaseId {
    type V = Seq<char>;

    closed spec fn view(&self) -> Seq<char> {
        self.value@
    }
}

impl ReleaseId {
    /// Accepts only the current store-generated identifier format.
    pub fn new(value: &str) -> (r: Result<Self, InvalidEntityId>)
        ensures
            r is Ok <==> valid_entity_id(value@),
            r matches Ok(id) ==> id@ == value@,
            r matches Err(e) ==> e.value@ == value@,
    {
        if !is_valid_entity_id(value) {
            return Err(InvalidEntityId { value: value.to_owned() });
        }
        Ok(ReleaseId { value: value.to_owned() })
    }

    pub fn as_str(&self) -> (r: &str)
        ensures
            r@ == self@,
    {
        self.value.as_str()
    }

    /// An identical identifier.
    pub fn duplicate(&self) -> (r: Self)
        ensures
            r@ == self@,
    {
        ReleaseId { value: self.value.clone() }
    }
}

/// Identifies one Deployment.
#[derive(Clone, Debug, PartialEq, Eq, Hash)]
pub struct DeploymentId {
    value: String,
}

impl View for DeploymentId {
    type V = Seq<char>;

    closed spec fn view(&self) -> Seq<char> {
        self.value@
    }
}

impl DeploymentId {
    /// Accepts only the current store-generated identifier format.
    pub fn new(value: &str) -> (r: Result<Self, InvalidEntityId>)
        ensures
            r is Ok <==> valid_entity_id(value@),
            r matches Ok(id) ==> id@ == value@,
            r matches Err(e) ==> e.value@ == value@,
    {
        if !is_valid_entity_id(value) {
            return Err(InvalidEntityId { value: value.to_owned() });
        }
        Ok(DeploymentId { value: value.to_owned() })
    }

    pub fn as_str(&self) -> (r: &str)
        ensures
            r@ == self@,
    {
        self.value.as_str()
    }

    /// An identical identifier.
    pub fn duplicate(&self) -> (r: Self)
        ensures
            r@ == self@,
    {
        DeploymentId { value: self.value.clone() }
    }
}

/// Identifies one logical runtime instance.
#[derive(Clone, Debug, PartialEq, Eq, Hash)]
pub struct RuntimeInstanceId {
    value: String,
}

impl View for RuntimeInstanceId {
    type V = Seq<char>;

    closed spec fn view(&self) -> Seq<char> {
        self.value@
    }
}

impl RuntimeInstanceId {
    /// Accepts only the current store-generated identifier format.
    pub fn new(value: &str) -> (r: Result<Self, InvalidEntityId>)
        ensures
            r is Ok <==> valid_entity_id(value@),
            r matches Ok(id) ==> id@ == value@,
            r matches Err(e) ==> e.value@ == value@,
    {
        if !is_valid_entity_id(value) {
            return Err(InvalidEntityId { value: value.to_owned() });
        }
        Ok(RuntimeInstanceId { value: value.to_owned() })
    }

    pub fn as_str(&self) -> (r: &str)
        ensures
            r@ == self@,
    {
        self.value.as_str()
    }

    /// An identical identifier.
    pub fn duplicate(&self) -> (r: Self)
        ensures
            r@ == self@,
    {
        RuntimeInstanceId { value: self.value.clone() }
    }
}

} // verus!
