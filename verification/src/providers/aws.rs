//! The versioned provider, in the style of AWS AppConfig: the remote source
//! issues opaque version tokens, and a poll compares the remote token against
//! the cached one — equality, not ordering, is what detects "no change".

use vstd::prelude::*;
use vstd::utf8::{decode_utf8, valid_utf8};

use crate::errors::ProviderError;
use crate::providers::{FetchRequest, FetchResponse, PollView};
use crate::store::{Snapshot, StateStore};
use crate::text::{parse_dec_u64, parse_decimal_u64, u64_dec, u64_to_string};

verus! {

/// Settings for the versioned provider, as read from the document.
#[derive(Debug, PartialEq)]
pub struct AWSConf {
    pub application: String,
    pub environment: String,
    pub configuration: String,
    pub client_id: String,
    pub state_file: Option<String>,
}

impl AWSConf {
    /// Builds the runtime provider, opening (or creating) its backing store.
    pub fn convert(&self) -> (r: Result<AWS, ProviderError>)
        ensures
            r matches Ok(a) ==> a.spec_application() == self.application@
                && a.spec_environment() == self.environment@ && a.spec_configuration()
                == self.configuration@ && a.spec_client_id() == self.client_id@,
            self.state_file is None ==> (r matches Ok(a) ==> a.cached().version == 0
                && a.cached().data == Seq::<char>::empty()),
            r matches Err(e) ==> e is StoreInit,
    {
        AWS::new(
            self.application.as_str(),
            self.environment.as_str(),
            self.configuration.as_str(),
            self.client_id.as_str(),
            &self.state_file,
        )
    }
}

/// Provider for a versioned configuration service. Caches the last fetched
/// version and payload in a durable store, so polls that find nothing new
/// are cheap and never re-run the hooks.
#[derive(Debug)]
pub struct AWS {
    application: String,
    environment: String,
    configuration: String,
    client_id: String,
    store: StateStore,
}

/// What one poll concludes from the cached snapshot and the response of a
/// versioned service: the response must carry a version token that parses as
/// a decimal number; a token equal to the cached version means no change;
/// any other token means new data, which must be present and valid UTF-8.
pub open spec fn aws_poll_view(cached: Snapshot, resp: FetchResponse) -> PollView {
    match resp {
        FetchResponse::Versioned { version, content } => match version {
            Some(vs) => match parse_dec_u64(vs@) {
                Some(v) => if v == cached.version {
                    PollView::NoChange
                } else {
                    match content {
                        Some(bytes) => if valid_utf8(bytes@) {
                            PollView::Changed { version: v, data: decode_utf8(bytes@) }
                        } else {
                            PollView::Unavailable
                        },
                        None => PollView::Unavailable,
                    }
                },
                None => PollView::Unavailable,
            },
            None => PollView::Unavailable,
        },
        _ => PollView::Unavailable,
    }
}

/// The snapshot one poll leaves behind: on a detected change whose
/// best-effort cache write went through, the new version and payload;
/// otherwise the snapshot it started from.
pub open spec fn aws_poll_post(cached: Snapshot, resp: FetchResponse, wrote: bool) -> Snapshot {
    match aws_poll_view(cached, resp) {
        PollView::Changed { version, data } => if wrote {
            Snapshot { version, data }
        } else {
            cached
        },
        _ => cached,
    }
}

/// Relies on std's `String::from_utf8`: succeeds exactly on valid UTF-8 and
/// decodes it.
#[verifier::external_body]
fn utf8_to_string(bytes: Vec<u8>) -> (r: Option<String>)
    ensures
        r is Some <==> valid_utf8(bytes@),
        r matches Some(s) ==> s@ == decode_utf8(bytes@),
{
    match String::from_utf8(bytes) {
        Ok(s) => Some(s),
        Err(_) => None,
    }
}

impl AWS {
    /// The identity of the remote configuration this provider watches.
    pub closed spec fn spec_application(&self) -> Seq<char> {
        self.application@
    }

    pub closed spec fn spec_environment(&self) -> Seq<char> {
        self.environment@
    }

    pub closed spec fn spec_configuration(&self) -> Seq<char> {
        self.configuration@
    }

    pub closed spec fn spec_client_id(&self) -> Seq<char> {
        self.client_id@
    }

    /// The cached snapshot.
    pub closed spec fn cached(&self) -> Snapshot {
        self.store.snapshot()
    }

    /// Creates a new provider, opening its backing store at `state_file` (an
    /// in-memory store, starting from the empty sentinel, when no path is
    /// given). A store that cannot be opened or initialized is fatal.
    pub fn new(
        application: &str,
        environment: &str,
        configuration: &str,
        client_id: &str,
        state_file: &Option<String>,
    ) -> (r: Result<AWS, ProviderError>)
        ensures
            r matches Ok(a) ==> a.spec_application() == application@ && a.spec_environment()
                == environment@ && a.spec_configuration() == configuration@ && a.spec_client_id()
                == client_id@,
            state_file is None ==> (r matches Ok(a) ==> a.cached().version == 0
                && a.cached().data == Seq::<char>::empty()),
            r matches Err(e) ==> e is StoreInit,
    {
        let store = match StateStore::open(state_file.as_ref()) {
            Ok(s) => s,
            Err(_) => return Err(ProviderError::StoreInit),
        };
        Ok(
            AWS {
                application: application.to_owned(),
                environment: environment.to_owned(),
                configuration: configuration.to_owned(),
                client_id: client_id.to_owned(),
                store,
            },
        )
    }

    /// The request one poll sends: the configuration's identity plus the
    /// cached version token, so the service can answer "no change" cheaply.
    pub fn fetch_request(&self) -> (r: FetchRequest)
        ensures
            r matches FetchRequest::AppConfig {
                application,
                environment,
                configuration,
                client_id,
                client_configuration_version,
            } && application@ == self.spec_application() && environment@ == self.spec_environment()
                && configuration@ == self.spec_configuration() && client_id@
                == self.spec_client_id() && client_configuration_version@ == u64_dec(
                self.cached().version as nat,
            ),
    {
        FetchRequest::AppConfig {
            application: self.application.clone(),
            environment: self.environment.clone(),
            configuration: self.configuration.clone(),
            client_id: self.client_id.clone(),
            client_configuration_version: u64_to_string(self.store.version()),
        }
    }

    /// One poll step, given the remote response. Exactly as `aws_poll_view`
    /// says: a useless response is `Unavailable` and leaves the cache alone;
    /// an unchanged version is `Ok(None)` and leaves the cache alone; a new
    /// version returns the new payload, caching it best-effort — a failed
    /// cache write is tolerated, since the payload has been legitimately
    /// obtained and the hooks should still see it.
    pub fn poll_with(&mut self, resp: FetchResponse) -> (r: Result<Option<String>, ProviderError>)
        ensures
            final(self).spec_application() == old(self).spec_application(),
            final(self).spec_environment() == old(self).spec_environment(),
            final(self).spec_configuration() == old(self).spec_configuration(),
            final(self).spec_client_id() == old(self).spec_client_id(),
            aws_poll_view(old(self).cached(), resp) is Unavailable ==> (r matches Err(e) && e
                is Unavailable && final(self).cached() == old(self).cached()),
            aws_poll_view(old(self).cached(), resp) is NoChange ==> (r matches Ok(p) && p
                is None && final(self).cached() == old(self).cached()),
            aws_poll_view(old(self).cached(), resp) matches PollView::Changed { version, data }
                ==> (r matches Ok(p) && p matches Some(s) && s@ == data && (final(self).cached()
                == aws_poll_post(old(self).cached(), resp, true) || final(self).cached()
                == aws_poll_post(old(self).cached(), resp, false))),
    {
        match resp {
            FetchResponse::Versioned { version, content } => {
                let vs = match version {
                    Some(vs) => vs,
                    None => return Err(ProviderError::Unavailable),
                };
                let v = match parse_decimal_u64(vs.as_str()) {
                    Some(v) => v,
                    None => return Err(ProviderError::Unavailable),
                };
                if v == self.store.version() {
                    return Ok(None);
                }
                let bytes = match content {
                    Some(b) => b,
                    None => return Err(ProviderError::Unavailable),
                };
                let data = match utf8_to_string(bytes) {
                    Some(d) => d,
                    None => return Err(ProviderError::Unavailable),
                };
                if v <= 9223372036854775807u64 {
                    // Best-effort cache write; SQLite cannot hold larger
                    // version numbers, which counts as a failed write.
                    let _ = self.store.write(v, data.as_str());
                }
                Ok(Some(data))
            },
            _ => Err(ProviderError::Unavailable),
        }
    }

    /// The cached payload, read back from the durable store; never contacts
    /// the remote source and never mutates state.
    pub fn query(&self) -> (r: Result<String, ProviderError>)
        ensures
            r matches Ok(d) ==> d@ == self.cached().data,
            r matches Err(e) ==> e is CacheUnavailable,
    {
        match self.store.read() {
            Ok((_version, data)) => Ok(data),
            Err(_) => Err(ProviderError::CacheUnavailable),
        }
    }
}

/// Law: when the remote version token denotes exactly the cached version,
/// one poll concludes "no change" — so, by the contract of `poll_with`, it
/// returns no payload and leaves the snapshot untouched.
pub proof fn lemma_aws_poll_no_change(cached: Snapshot, resp: FetchResponse)
    requires
        resp matches FetchResponse::Versioned { version: Some(vs), content } && parse_dec_u64(vs@)
            == Some(cached.version),
    ensures
        aws_poll_view(cached, resp) is NoChange,
        forall|wrote: bool| aws_poll_post(cached, resp, wrote) == cached,
{
}

/// Law: a change, once detected and cached, is not detected again — polling
/// again from the snapshot a successful write left behind concludes "no
/// change", so the new payload is returned exactly once.
pub proof fn lemma_aws_change_detected_once(
    cached: Snapshot,
    resp: FetchResponse,
    version: u64,
    data: Seq<char>,
)
    requires
        aws_poll_view(cached, resp) == (PollView::Changed { version, data }),
    ensures
        aws_poll_view(aws_poll_post(cached, resp, true), resp) is NoChange,
{
}

/// Law: after a poll that detected a change and whose cache write went
/// through, the cached payload — which is what `query` returns — is exactly
/// the payload the poll handed out.
pub proof fn lemma_aws_poll_query_roundtrip(
    cached: Snapshot,
    resp: FetchResponse,
    version: u64,
    data: Seq<char>,
)
    requires
        aws_poll_view(cached, resp) == (PollView::Changed { version, data }),
    ensures
        aws_poll_post(cached, resp, true).data == data,
{
}

} // verus!
