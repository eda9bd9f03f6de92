//! Organizational grouping of applications.

use vstd::prelude::*;

use crate::domain::identity::{is_valid_catalog_name, valid_catalog_name, SystemId};
use crate::text::push_str;

verus! {

/// A durable organizational grouping assigned to Applications.
#[derive(Clone, Debug, PartialEq, Eq)]
pub struct System {
    pub id: SystemId,
    pub name: SystemName,
    pub description: Option<String>,
}

/// Catalog name of one organizational grouping; same grammar as application names.
#[derive(Clone, Debug, PartialEq, Eq)]
pub struct SystemName {
    value: String,
}

impl View for SystemName {
    type V = Seq<char>;

    closed spec fn view(&self) -> Seq<char> {
        self.value@
    }
}

impl SystemName {
    pub fn new(value: &str) -> (r: Result<Self, InvalidSystemName>)
        ensures
            r is Ok <==> valid_catalog_name(value@),
            r matches Ok(name) ==> name@ == value@,
            r matches Err(e) ==> e.value@ == value@,
    {
        if !is_valid_catalog_name(value) {
            return Err(InvalidSystemName { value: value.to_owned() });
        }
        Ok(SystemName { value: value.to_owned() })
    }

    pub fn as_str(&self) -> (r: &str)
        ensures
            r@ == self@,
    {
        self.value.as_str()
    }
}

/// Text outside the catalog name grammar.
#[derive(Debug, PartialEq, Eq)]
pub struct InvalidSystemName {
    pub value: String,
}

impl InvalidSystemName {
    pub fn message(&self) -> (r: String)
        ensures
            r@ == "invalid system name `"@ + self.value@ + "`"@,
    {
        let mut out = "invalid system name `".to_owned();
        push_str(&mut out, self.value.as_str());
        push_str(&mut out, "`");
        out
    }
}

} // verus!
