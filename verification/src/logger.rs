//! The logging facade and the delivery strategy. `Logger::log` is the
//! single operation call sites invoke: it builds a `Log` and hands it to
//! the transport client, which either persists it locally or delegates to
//! the strategy's cloud provider.

use vstd::prelude::*;
use vstd::string::StringExecFns;

use crate::codec::{lemma_codec_round_trip, spec_decode_log};
use crate::errors::{CommonError, RustSideError};
use crate::log::{Context, Level, Log, Message};
use crate::network_antenna::NetworkAntenna;
use crate::text::spec_decimal;
use crate::transfer_client::TransferClient;

verus! {

/// The immutable choice of where a log is durably delivered: the local
/// single-slot store, or a cloud destination reached through the carried
/// provider capability. Supplied once at construction, never per call.
pub enum LoggingStrategy<P> {
    Local,
    Cloud(P),
}

/// The cloud transmitter capability, supplied by the host environment:
/// transmits one log record and yields a delivery acknowledgement, or a
/// classified failure. The core never inspects its implementation.
pub trait Provider {
    fn transmit_log(&self, log: Log) -> Result<String, CommonError>;
}

/// The logging facade: builds a record and routes it by the strategy
/// chosen at construction.
pub struct Logger<P, A: NetworkAntenna> {
    pub transfer_client: TransferClient<A>,
    pub storage_strategy: LoggingStrategy<P>,
}

impl<P: Provider, A: NetworkAntenna> Logger<P, A> {
    /// Builds a `Log` from the supplied parts and delivers it by the
    /// configured strategy. Under the local strategy this always
    /// succeeds: the slot then holds exactly the new record — with the
    /// given context, message and level — and the acknowledgement reads
    /// the number of bytes written. Under the cloud strategy the slot is
    /// untouched and any failure is funneled into the single
    /// externally-visible I/O error shape.
    pub fn log(&mut self, context: Context, message: Message, level: Level) -> (r: Result<
        String,
        RustSideError,
    >)
        ensures
            final(self).storage_strategy == old(self).storage_strategy,
            final(self).transfer_client.is_cloud_configured() == old(
                self,
            ).transfer_client.is_cloud_configured(),
            match old(self).storage_strategy {
                LoggingStrategy::Local => {
                    &&& r is Ok
                    &&& final(self).transfer_client@ matches Some(slot)
                        && (spec_decode_log(slot) matches Some(lv) && lv.context == context@
                        && lv.message == message@ && lv.level == level) && (r matches Ok(ack)
                        && ack@ == "Bytes written: "@ + spec_decimal(slot.len()))
                },
                LoggingStrategy::Cloud(_) => {
                    &&& final(self).transfer_client@ == old(self).transfer_client@
                    &&& (r matches Err(e) ==> e matches RustSideError::IOError { .. })
                },
            },
    {
        let log = Log::new(context, message, level);
        let ghost lv = log@;
        let outcome = self.transfer_client.write_log(log, &self.storage_strategy);
        proof {
            if old(self).storage_strategy is Local {
                lemma_codec_round_trip(lv);
            }
        }
        match outcome {
            Ok(x) => {
                let mut s = "Bytes written: ".to_owned();
                s.append(x.as_str());
                Ok(s)
            },
            Err(e) => Err(RustSideError::IOError { error: e.message() }),
        }
    }
}

} // verus!
