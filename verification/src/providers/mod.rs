//! Providers: the change-detecting data sources the factory can build.
//!
//! A provider owns a cached snapshot and detects whether the remote source
//! holds something newer. The remote fetch itself is input/output and happens
//! outside this library: a caller asks the provider what to fetch
//! ([`Provider::fetch_request`]), performs the fetch, and hands the response
//! to [`Provider::poll_with`], which is where the change-detection contract
//! lives and is verified for every possible response.

pub mod aws;
pub mod mock;
pub mod param_store;

use vstd::prelude::*;

use crate::errors::ProviderError;
use crate::providers::aws::{aws_poll_view, AWS};
use crate::providers::mock::Mock;
use crate::providers::param_store::{keyed_poll_view, ParamStore};
use crate::store::Snapshot;

verus! {

/// What a provider needs fetched from its remote source for one poll.
#[derive(Debug, PartialEq)]
pub enum FetchRequest {
    /// Ask a versioned configuration service for anything newer than the
    /// version token the caller already holds.
    AppConfig {
        application: String,
        environment: String,
        configuration: String,
        client_id: String,
        client_configuration_version: String,
    },
    /// Ask a keyed parameter service for the current value of one key.
    Parameter { key: String },
}

/// What came back from the remote source, as plain values.
#[derive(Debug, PartialEq)]
pub enum FetchResponse {
    /// A versioned service's answer: a version token and, when the token is
    /// newer than the one sent, the payload bytes.
    Versioned { version: Option<String>, content: Option<Vec<u8>> },
    /// A keyed service's answer: the value, when the key has one.
    Keyed { value: Option<String> },
    /// The remote source could not be reached.
    Failed,
}

/// What one poll concludes from the cached snapshot and the remote response.
pub enum PollView {
    /// The response is useless: a failed fetch, a missing or unparseable
    /// version token, or missing or malformed content.
    Unavailable,
    /// The remote identity equals the cached identity; nothing to do.
    NoChange,
    /// The remote source holds new data.
    Changed { version: u64, data: Seq<char> },
}

/// The closed set of provider variants.
#[derive(Debug)]
pub enum Provider {
    Mock(Mock),
    AWS(AWS),
    ParamStore(ParamStore),
}

/// What one poll concludes, per provider variant. The mock always reports its
/// fixed payload as new data and needs no fetch.
pub open spec fn provider_poll_view(p: Provider, resp: Option<FetchResponse>) -> PollView {
    match p {
        Provider::Mock(m) => PollView::Changed { version: 0, data: m.data_spec() },
        Provider::AWS(a) => match resp {
            Some(r) => aws_poll_view(a.cached(), r),
            None => PollView::Unavailable,
        },
        Provider::ParamStore(ps) => match resp {
            Some(r) => keyed_poll_view(ps.cached(), r),
            None => PollView::Unavailable,
        },
    }
}

/// The cached snapshot a query reads; the mock's is its fixed payload.
pub open spec fn provider_cached(p: Provider) -> Snapshot {
    match p {
        Provider::Mock(m) => Snapshot { version: 0, data: m.data_spec() },
        Provider::AWS(a) => a.cached(),
        Provider::ParamStore(ps) => ps.cached(),
    }
}

/// Two provider values are the same provider: same variant, same identity
/// settings. Only the cached snapshot may differ.
pub open spec fn same_setup(a: Provider, b: Provider) -> bool {
    match a {
        Provider::Mock(m1) => b matches Provider::Mock(m2) && m1.data_spec() == m2.data_spec(),
        Provider::AWS(x) => b matches Provider::AWS(y) && x.spec_application()
            == y.spec_application() && x.spec_environment() == y.spec_environment()
            && x.spec_configuration() == y.spec_configuration() && x.spec_client_id()
            == y.spec_client_id(),
        Provider::ParamStore(x) => b matches Provider::ParamStore(y) && x.spec_key()
            == y.spec_key(),
    }
}

impl Provider {
    /// The remote fetch one poll of this provider needs; the mock needs none.
    pub fn fetch_request(&self) -> (r: Option<FetchRequest>)
        ensures
            self is Mock <==> r is None,
            self matches Provider::AWS(a) ==> r matches Some(q) && q matches
                FetchRequest::AppConfig {
                    application,
                    environment,
                    configuration,
                    client_id,
                    client_configuration_version,
                } && application@ == a.spec_application() && environment@ == a.spec_environment()
                && configuration@ == a.spec_configuration() && client_id@ == a.spec_client_id()
                && client_configuration_version@ == crate::text::u64_dec(
                a.cached().version as nat,
            ),
            self matches Provider::ParamStore(ps) ==> r matches Some(q) && q matches
                FetchRequest::Parameter { key } && key@ == ps.spec_key(),
    {
        match self {
            Provider::Mock(_) => None,
            Provider::AWS(a) => Some(a.fetch_request()),
            Provider::ParamStore(ps) => Some(ps.fetch_request()),
        }
    }

    /// One poll step: detects change against the cached snapshot, caches new
    /// data best-effort, and returns the new payload exactly when the remote
    /// identity differs from the cached one. A useless response never
    /// corrupts the cache.
    pub fn poll_with(&mut self, resp: Option<FetchResponse>) -> (r: Result<
        Option<String>,
        ProviderError,
    >)
        ensures
            same_setup(*old(self), *final(self)),
            provider_poll_view(*old(self), resp) is Unavailable ==> (r matches Err(e) && e
                is Unavailable && provider_cached(*final(self)) == provider_cached(*old(self))),
            provider_poll_view(*old(self), resp) is NoChange ==> ((r matches Ok(p) && p is None)
                || (*old(self) is ParamStore && (r matches Err(e) && e is CacheUnavailable)))
                && provider_cached(*final(self)) == provider_cached(*old(self)),
            provider_poll_view(*old(self), resp) matches PollView::Changed { version, data } ==> ((
            r matches Ok(p) && p matches Some(s) && s@ == data && (provider_cached(*final(self))
                == provider_cached(*old(self)) || (provider_cached(*final(self)).version == version
                && provider_cached(*final(self)).data == data))) || (*old(self) is ParamStore && (
            r matches Err(e) && e is CacheUnavailable && provider_cached(*final(self))
                == provider_cached(*old(self))))),
    {
        match self {
            Provider::Mock(m) => m.poll(),
            Provider::AWS(a) => match resp {
                Some(rsp) => a.poll_with(rsp),
                None => Err(ProviderError::Unavailable),
            },
            Provider::ParamStore(ps) => match resp {
                Some(rsp) => ps.poll_with(rsp),
                None => Err(ProviderError::Unavailable),
            },
        }
    }

    /// The cached payload, without contacting the remote source and without
    /// mutating any state.
    pub fn query(&self) -> (r: Result<String, ProviderError>)
        ensures
            r matches Ok(d) ==> d@ == provider_cached(*self).data,
            r matches Err(e) ==> e is CacheUnavailable && !(self is Mock),
    {
        match self {
            Provider::Mock(m) => m.query(),
            Provider::AWS(a) => a.query(),
            Provider::ParamStore(ps) => ps.query(),
        }
    }
}

} // verus!
