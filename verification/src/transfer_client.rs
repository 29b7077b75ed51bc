//! The transport client: the strategy router. Given a record and the
//! active strategy it takes exactly one of two paths — encode and store
//! locally, or delegate to the strategy's cloud provider — and surfaces
//! every failure as a typed error. Retrieval reads the single slot back
//! through the same binary format.

use vstd::prelude::*;

use crate::codec::{decode_log, encode_log, spec_decode_log, spec_encode_log, wf_log};
use crate::errors::RustSideError;
use crate::http_client::HttpClient;
use crate::log::{Filter, Log, LogView};
use crate::logger::{LoggingStrategy, Provider};
use crate::network_antenna::NetworkAntenna;
use crate::store::LogStore;
use crate::text::spec_decimal;
use crate::text::u64_to_decimal;

verus! {

/// The slot contents after one local write of `l`: exactly `l`'s
/// encoding, whatever was stored before. This is the single-slot
/// overwrite rule.
pub open spec fn spec_slot_after_write(slot: Option<Seq<u8>>, l: LogView) -> Option<Seq<u8>> {
    Some(spec_encode_log(l))
}

/// The strategy router. Construction decides once whether the cloud path
/// is available; the single-slot store models the well-known file the
/// local path overwrites.
pub struct TransferClient<A: NetworkAntenna> {
    pub http_client: Option<HttpClient<A>>,
    store: LogStore,
}

impl<A: NetworkAntenna> View for TransferClient<A> {
    type V = Option<Seq<u8>>;

    closed spec fn view(&self) -> Option<Seq<u8>> {
        self.store@
    }
}

impl<A: NetworkAntenna> TransferClient<A> {
    /// Whether the decoding client for arbitrary network calls was
    /// configured at construction.
    pub closed spec fn is_cloud_configured(&self) -> bool {
        self.http_client is Some
    }

    /// Builds a client for the given strategy. A cloud strategy demands
    /// the network antenna: configuring the cloud path without one is a
    /// misconfiguration this contract rejects outright, and the built
    /// client's mode always matches the strategy — never a silent fall
    /// back to the local path.
    pub fn new<P>(strategy: LoggingStrategy<P>, network_antenna: Option<A>) -> (r: Self)
        requires
            strategy matches LoggingStrategy::Cloud(_) ==> network_antenna is Some,
        ensures
            r@ is None,
            r.is_cloud_configured() <==> strategy matches LoggingStrategy::Cloud(_),
    {
        match strategy {
            LoggingStrategy::Local => Self { http_client: None, store: LogStore::new() },
            LoggingStrategy::Cloud(_) => Self {
                http_client: Some(HttpClient::new(network_antenna.unwrap())),
                store: LogStore::new(),
            },
        }
    }

    /// Routes one record by the given strategy, using exactly one of the
    /// two paths. The local path replaces the slot with the record's
    /// encoding and acknowledges with the byte count written; the cloud
    /// path leaves the slot untouched, hands the record to the provider,
    /// and wraps any provider failure as a networking error with its
    /// message.
    pub fn write_log<P: Provider>(
        &mut self,
        log: Log,
        strategy: &LoggingStrategy<P>,
    ) -> (r: Result<String, RustSideError>)
        ensures
            final(self).is_cloud_configured() == old(self).is_cloud_configured(),
            match strategy {
                LoggingStrategy::Local => {
                    &&& wf_log(log@)
                    &&& final(self)@ == spec_slot_after_write(old(self)@, log@)
                    &&& r matches Ok(ack) && ack@ == spec_decimal(spec_encode_log(log@).len())
                },
                LoggingStrategy::Cloud(_) => {
                    &&& final(self)@ == old(self)@
                    &&& (r matches Err(e) ==> e matches RustSideError::NetworkingError { .. })
                },
            },
    {
        match strategy {
            LoggingStrategy::Local => {
                let bytes = encode_log(&log);
                let count = bytes.len();
                self.store.put(bytes);
                Ok(u64_to_decimal(count as u64))
            },
            LoggingStrategy::Cloud(provider) => match provider.transmit_log(log) {
                Ok(ack) => Ok(ack),
                Err(e) => Err(RustSideError::NetworkingError { error: e.message() }),
            },
        }
    }

    /// Reads the single stored record back, decoding it with the same
    /// binary format the local path writes. A missing or corrupt record
    /// is surfaced as a typed error, never silently defaulted. The filter
    /// is accepted but the single-slot store always yields its one
    /// record.
    pub fn retrieve_logs(&self, filter: Filter) -> (r: Result<Log, RustSideError>)
        ensures
            match self@ {
                Some(slot) => match spec_decode_log(slot) {
                    Some(lv) => r matches Ok(log) && log@ == lv,
                    None => r matches Err(e) && e matches RustSideError::IOError { .. },
                },
                None => r matches Err(e) && e matches RustSideError::IOError { .. },
            },
    {
        let _ = filter;
        match self.store.contents() {
            None => Err(RustSideError::IOError { error: "no log record stored".to_owned() }),
            Some(bytes) => match decode_log(bytes) {
                Some(log) => Ok(log),
                None => Err(
                    RustSideError::IOError { error: "stored log record is corrupt".to_owned() },
                ),
            },
        }
    }
}

/// A fixed example record, for exercising the transport without a real
/// call site.
pub trait Placeholder: Sized {
    fn placeholder() -> Self;
}

impl Placeholder for Log {
    fn placeholder() -> (r: Self) {
        Log::new(
            crate::log::Context::new(String::new()),
            crate::log::Message::new("Placeholder Log".to_owned()),
            crate::log::Level::Normal,
        )
    }
}

/// Write-then-read law: after a local write of `a`, the slot decodes to
/// exactly `a` — in particular a retrieved record's message body equals
/// the written one's.
pub proof fn lemma_write_then_retrieve(slot: Option<Seq<u8>>, a: LogView)
    requires
        wf_log(a),
    ensures
        spec_slot_after_write(slot, a) matches Some(b) && spec_decode_log(b) == Some(a),
{
    crate::codec::lemma_codec_round_trip(a);
}

/// Overwrite law: writing `a` and then `b` leaves the store holding
/// exactly `b`'s record, whatever was stored before; retrieval yields
/// `b`'s content and, whenever the two bodies differ, not `a`'s.
pub proof fn lemma_overwrite_keeps_last(slot: Option<Seq<u8>>, a: LogView, b: LogView)
    requires
        wf_log(a),
        wf_log(b),
    ensures
        spec_slot_after_write(spec_slot_after_write(slot, a), b) == Some(spec_encode_log(b)),
        spec_decode_log(spec_encode_log(b)) == Some(b),
        a.message.message != b.message.message ==> spec_decode_log(
            spec_encode_log(b),
        )->0.message.message != a.message.message,
{
    crate::codec::lemma_codec_round_trip(b);
}

} // verus!
