//! The earlier revision of the strategy router that the repository also
//! exposes: unlike the transfer client it stores its strategy at
//! construction, its local write acknowledges with the plain byte count,
//! and its cloud delivery path was never implemented.

use vstd::prelude::*;

use crate::codec::{decode_log, encode_log, spec_decode_log, spec_encode_log, wf_log};
use crate::errors::RustSideError;
use crate::http_client::HttpClient;
use crate::log::{Filter, Log};
use crate::logger::LoggingStrategy;
use crate::network_antenna::NetworkAntenna;
use crate::store::LogStore;
use crate::transfer_client::spec_slot_after_write;

verus! {

/// A strategy router that keeps its strategy. The single-slot store
/// models the well-known file its local path overwrites.
pub struct Client<P, A: NetworkAntenna> {
    pub strategy: LoggingStrategy<P>,
    pub http_client: Option<HttpClient<A>>,
    store: LogStore,
}

impl<P, A: NetworkAntenna> View for Client<P, A> {
    type V = Option<Seq<u8>>;

    closed spec fn view(&self) -> Option<Seq<u8>> {
        self.store@
    }
}

impl<P, A: NetworkAntenna> Client<P, A> {
    /// Whether this client was configured with the local strategy.
    pub closed spec fn is_local(&self) -> bool {
        self.strategy is Local
    }

    /// Whether the decoding client for arbitrary network calls was
    /// configured at construction.
    pub closed spec fn is_cloud_configured(&self) -> bool {
        self.http_client is Some
    }

    /// Builds a client for the given strategy and keeps the strategy. A
    /// cloud strategy demands the network antenna — the contract rejects
    /// configuring the cloud path without one — and the built client's
    /// mode always matches the strategy.
    pub fn new(strategy: LoggingStrategy<P>, network_antenna: Option<A>) -> (r: Self)
        requires
            strategy matches LoggingStrategy::Cloud(_) ==> network_antenna is Some,
        ensures
            r@ is None,
            r.is_local() <==> strategy is Local,
            r.is_cloud_configured() <==> strategy matches LoggingStrategy::Cloud(_),
    {
        match strategy {
            LoggingStrategy::Local => Self {
                strategy: LoggingStrategy::Local,
                http_client: None,
                store: LogStore::new(),
            },
            LoggingStrategy::Cloud(provider) => Self {
                strategy: LoggingStrategy::Cloud(provider),
                http_client: Some(HttpClient::new(network_antenna.unwrap())),
                store: LogStore::new(),
            },
        }
    }

    /// Writes one record by the stored strategy's local path: the slot is
    /// replaced with the record's encoding and the call acknowledges with
    /// the byte count written. The cloud path of this revision is not
    /// implemented, so the contract admits only locally-configured
    /// clients.
    pub fn write_log(&mut self, log: Log) -> (r: Result<usize, RustSideError>)
        requires
            old(self).is_local(),
        ensures
            final(self).is_local(),
            final(self).is_cloud_configured() == old(self).is_cloud_configured(),
            wf_log(log@),
            final(self)@ == spec_slot_after_write(old(self)@, log@),
            r matches Ok(count) && count == spec_encode_log(log@).len(),
    {
        match &self.strategy {
            LoggingStrategy::Local => {
                let serialized_log = encode_log(&log);
                let count = serialized_log.len();
                self.store.put(serialized_log);
                Ok(count)
            },
            LoggingStrategy::Cloud(_) => vstd::pervasive::unreached(),
        }
    }

    /// Reads the single stored record back with the same binary format
    /// the local path writes; a missing or corrupt record is a typed
    /// error. The filter is accepted but the single-slot store always
    /// yields its one record.
    pub fn retrieve_logs(&self, filter: Filter) -> (r: Result<Log, RustSideError>)
        ensures
            match self@ {
                Some(slot) => match spec_decode_log(slot) {
                    Some(lv) => r matches Ok(log) && log@ == lv,
                    None => r matches Err(e) && e matches RustSideError::IOError { .. },
                },
                None => r matches Err(e) && e matches RustSideError::IOError { .. },
            },
    {
        let _ = filter;
        match self.store.contents() {
            None => Err(RustSideError::IOError { error: "no log record stored".to_owned() }),
            Some(bytes) => match decode_log(bytes) {
                Some(log) => Ok(log),
                None => Err(
                    RustSideError::IOError { error: "stored log record is corrupt".to_owned() },
                ),
            },
        }
    }
}

} // verus!
