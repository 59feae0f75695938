//! Settings that are stored in the database.

use vstd::prelude::*;

use crate::db::{property, property_value, set_property, view_text, Properties, PropertySpec, PropertyWrite};

verus! {

/// A setting.
#[derive(Debug, Clone, Copy, PartialEq, Eq, Structural)]
pub enum Parameter {
    Domain,
}

impl Parameter {
    /// The name of the property that holds the setting.
    pub open spec fn name(self) -> Seq<char> {
        match self {
            Parameter::Domain => property::DOMAIN@,
        }
    }

    /// The name of the property that holds the setting.
    pub fn property(&self) -> (res: &'static str)
        ensures
            res@ == self.name(),
    {
        match self {
            Parameter::Domain => property::DOMAIN,
        }
    }
}

/// The domain that is used as long as none has been set.
pub open spec fn domain_or_default(domain: Option<Seq<char>>) -> Seq<char> {
    match domain {
        Some(domain) => domain,
        None => "scree.example.com"@,
    }
}

/// The domain, or a placeholder if none has been set.
pub fn get_domain_or_default(domain: Option<String>) -> (res: String)
    ensures
        res@ == domain_or_default(view_text(domain)),
{
    match domain {
        Some(domain) => domain,
        None => "scree.example.com".to_string(),
    }
}

/// The change that sets the domain.
pub fn set_domain(value: &str) -> (res: PropertyWrite)
    ensures
        res@ == (PropertySpec { name: Parameter::Domain.name(), value: Some(value@) }),
{
    set_property(Parameter::Domain.property(), Some(value))
}

/// The domain reads as it was set.
pub proof fn law_domain_reads_as_set(properties: Properties, domain: Seq<char>)
    ensures
        ({
            let write = PropertySpec { name: Parameter::Domain.name(), value: Some(domain) };
            domain_or_default(property_value(write.apply(properties), Parameter::Domain.name()))
                == domain
        }),
{
}

/// A domain that has been set is used as it is.
pub proof fn law_default_domain(domain: Seq<char>)
    ensures
        domain_or_default(Some(domain)) == domain,
        domain_or_default(None) == "scree.example.com"@,
{
}

} // verus!
