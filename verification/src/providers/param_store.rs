//! The keyed provider, in the style of AWS SSM Parameter Store: the remote
//! source has no version tokens, so a poll compares the fetched value itself
//! against the cached payload.

use vstd::prelude::*;

use crate::errors::ProviderError;
use crate::providers::{FetchRequest, FetchResponse, PollView};
use crate::store::{Snapshot, StateStore};

verus! {

/// Settings for the keyed provider, as read from the document.
#[derive(Debug, PartialEq)]
pub struct ParamStoreConf {
    pub key: String,
    pub state_file: Option<String>,
}

impl ParamStoreConf {
    /// Builds the runtime provider, opening (or creating) its backing store.
    pub fn convert(&self) -> (r: Result<ParamStore, ProviderError>)
        ensures
            r matches Ok(p) ==> p.spec_key() == self.key@,
            self.state_file is None ==> (r matches Ok(p) ==> p.cached().version == 0
                && p.cached().data == Seq::<char>::empty()),
            r matches Err(e) ==> e is StoreInit,
    {
        ParamStore::new(self.key.as_str(), &self.state_file)
    }
}

/// Provider for a keyed parameter service: polls one key and triggers hooks
/// when its value differs from the previously cached value.
#[derive(Debug)]
pub struct ParamStore {
    key: String,
    store: StateStore,
}

/// What one poll concludes from the cached snapshot and the response of a
/// keyed service: a missing value (or a failed fetch) is useless; a value
/// equal to the cached payload means no change; anything else is new data.
pub open spec fn keyed_poll_view(cached: Snapshot, resp: FetchResponse) -> PollView {
    match resp {
        FetchResponse::Keyed { value } => match value {
            Some(v) => if v@ == cached.data {
                PollView::NoChange
            } else {
                PollView::Changed { version: cached.version, data: v@ }
            },
            None => PollView::Unavailable,
        },
        _ => PollView::Unavailable,
    }
}

/// The snapshot one poll leaves behind: on a detected change whose
/// best-effort cache write went through, the new payload under the same
/// version; otherwise the snapshot it started from.
pub open spec fn keyed_poll_post(cached: Snapshot, resp: FetchResponse, wrote: bool) -> Snapshot {
    match keyed_poll_view(cached, resp) {
        PollView::Changed { version, data } => if wrote {
            Snapshot { version, data }
        } else {
            cached
        },
        _ => cached,
    }
}

impl ParamStore {
    /// The key this provider watches.
    pub closed spec fn spec_key(&self) -> Seq<char> {
        self.key@
    }

    /// The cached snapshot.
    pub closed spec fn cached(&self) -> Snapshot {
        self.store.snapshot()
    }

    /// Creates a new provider, opening its backing store at `state_file` (an
    /// in-memory store, starting from the empty sentinel, when no path is
    /// given). A store that cannot be opened or initialized is fatal.
    pub fn new(key: &str, state_file: &Option<String>) -> (r: Result<ParamStore, ProviderError>)
        ensures
            r matches Ok(p) ==> p.spec_key() == key@,
            state_file is None ==> (r matches Ok(p) ==> p.cached().version == 0
                && p.cached().data == Seq::<char>::empty()),
            r matches Err(e) ==> e is StoreInit,
    {
        let store = match StateStore::open(state_file.as_ref()) {
            Ok(s) => s,
            Err(_) => return Err(ProviderError::StoreInit),
        };
        Ok(ParamStore { key: key.to_owned(), store })
    }

    /// The request one poll sends: the watched key.
    pub fn fetch_request(&self) -> (r: FetchRequest)
        ensures
            r matches FetchRequest::Parameter { key } && key@ == self.spec_key(),
    {
        FetchRequest::Parameter { key: self.key.clone() }
    }

    /// One poll step, given the remote response. Exactly as `keyed_poll_view`
    /// says, except that reading the cached value back from the store can
    /// itself fail, which is reported as `CacheUnavailable` and changes
    /// nothing. A detected change is cached best-effort: a failed cache
    /// write is tolerated, since the payload has been legitimately obtained
    /// and the hooks should still see it.
    pub fn poll_with(&mut self, resp: FetchResponse) -> (r: Result<Option<String>, ProviderError>)
        ensures
            final(self).spec_key() == old(self).spec_key(),
            keyed_poll_view(old(self).cached(), resp) is Unavailable ==> (r matches Err(e) && e
                is Unavailable && final(self).cached() == old(self).cached()),
            keyed_poll_view(old(self).cached(), resp) is NoChange ==> ((r matches Ok(p) && p
                is None) || (r matches Err(e) && e is CacheUnavailable)) && final(self).cached()
                == old(self).cached(),
            keyed_poll_view(old(self).cached(), resp) matches PollView::Changed { version, data }
                ==> ((r matches Ok(p) && p matches Some(s) && s@ == data && (final(self).cached()
                == keyed_poll_post(old(self).cached(), resp, true) || final(self).cached()
                == keyed_poll_post(old(self).cached(), resp, false))) || (r matches Err(e) && e
                is CacheUnavailable && final(self).cached() == old(self).cached())),
    {
        match resp {
            FetchResponse::Keyed { value } => {
                let value = match value {
                    Some(v) => v,
                    None => return Err(ProviderError::Unavailable),
                };
                let (version, old_value) = match self.store.read() {
                    Ok(row) => row,
                    Err(_) => return Err(ProviderError::CacheUnavailable),
                };
                if value == old_value {
                    return Ok(None);
                }
                if version <= 9223372036854775807u64 {
                    // Best-effort cache write of the new value, under the
                    // unchanged version.
                    let _ = self.store.write(version, value.as_str());
                }
                Ok(Some(value))
            },
            _ => Err(ProviderError::Unavailable),
        }
    }

    /// The cached payload, read back from the durable store; never contacts
    /// the remote source and never mutates state.
    pub fn query(&self) -> (r: Result<String, ProviderError>)
        ensures
            r matches Ok(d) ==> d@ == self.cached().data,
            r matches Err(e) ==> e is CacheUnavailable,
    {
        match self.store.read() {
            Ok((_version, data)) => Ok(data),
            Err(_) => Err(ProviderError::CacheUnavailable),
        }
    }
}

/// Law: when the remote value equals the cached payload, one poll concludes
/// "no change" — so, by the contract of `poll_with`, it returns no payload
/// and leaves the snapshot untouched.
pub proof fn lemma_keyed_poll_no_change(cached: Snapshot, resp: FetchResponse)
    requires
        resp matches FetchResponse::Keyed { value: Some(v) } && v@ == cached.data,
    ensures
        keyed_poll_view(cached, resp) is NoChange,
        forall|wrote: bool| keyed_poll_post(cached, resp, wrote) == cached,
{
}

/// Law: a change, once detected and cached, is not detected again — polling
/// again from the snapshot a successful write left behind concludes "no
/// change", so the new payload is returned exactly once.
pub proof fn lemma_keyed_change_detected_once(
    cached: Snapshot,
    resp: FetchResponse,
    version: u64,
    data: Seq<char>,
)
    requires
        keyed_poll_view(cached, resp) == (PollView::Changed { version, data }),
    ensures
        keyed_poll_view(keyed_poll_post(cached, resp, true), resp) is NoChange,
{
}

/// Law: after a poll that detected a change and whose cache write went
/// through, the cached payload — which is what `query` returns — is exactly
/// the payload the poll handed out.
pub proof fn lemma_keyed_poll_query_roundtrip(
    cached: Snapshot,
    resp: FetchResponse,
    version: u64,
    data: Seq<char>,
)
    requires
        keyed_poll_view(cached, resp) == (PollView::Changed { version, data }),
    ensures
        keyed_poll_post(cached, resp, true).data == data,
{
}

} // verus!
