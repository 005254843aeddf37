//! The mock provider: reports a fixed payload on every poll. Mainly useful
//! for dialing in templates, since it lets input data be tested against the
//! desired output format without any remote source.

use vstd::prelude::*;

use crate::errors::ProviderError;

verus! {

/// Settings for the mock provider, as read from the document.
#[derive(Debug, PartialEq)]
pub struct MockConf {
    pub data: String,
}

impl MockConf {
    /// Builds the runtime provider from the parsed settings.
    pub fn convert(&self) -> (m: Mock)
        ensures
            m.data_spec() == self.data@,
    {
        Mock::new(self.data.as_str())
    }
}

/// A dummy provider that just returns whatever data it was given.
#[derive(Debug, PartialEq)]
pub struct Mock {
    data: String,
}

impl Mock {
    /// The fixed payload the mock was built around.
    pub closed spec fn data_spec(&self) -> Seq<char> {
        self.data@
    }

    /// Creates a new mock provider.
    pub fn new(data: &str) -> (m: Mock)
        ensures
            m.data_spec() == data@,
    {
        Mock { data: data.to_owned() }
    }

    /// Always reports the fixed payload as new data.
    pub fn poll(&self) -> (r: Result<Option<String>, ProviderError>)
        ensures
            r matches Ok(p) && p matches Some(d) && d@ == self.data_spec(),
    {
        Ok(Some(self.data.clone()))
    }

    /// Always returns the fixed payload.
    pub fn query(&self) -> (r: Result<String, ProviderError>)
        ensures
            r matches Ok(d) && d@ == self.data_spec(),
    {
        Ok(self.data.clone())
    }
}

} // verus!
