//! The consumer interface and the typed side of the callback trampoline.
//!
//! The foreign gateway delivers untyped callback invocations on its own
//! dispatch thread.  The boundary code turns each invocation into a typed
//! `QuoteEvent` — running the response-info record through the normalizer
//! and the fixed-width text fields through the decoder — and then dispatches
//! it to a registered consumer.  Instead of reinterpreting a raw handle, a
//! consumer is registered in a slot registry and only its stable slot id
//! crosses the foreign boundary; each callback resolves the id to the
//! consumer again.

use vstd::prelude::*;
use crate::channel::Sender;
use crate::response::{DisconnectionReason, RspResult};

verus! {

/// One normalized gateway event.  Response-style events carry the
/// normalized outcome, the request identifier, and the is-final-frame flag
/// of the paginated response sequence, all passed through unchanged.
pub enum QuoteEvent {
    /// The connection to the gateway front is established.
    FrontConnected,
    /// The connection is lost, with the decoded reason.
    FrontDisconnected(DisconnectionReason),
    /// No message moved on the connection for too long.
    HeartBeatWarning,
    /// Response to a login request.
    RspUserLogin(RspResult, i32, bool),
    /// Response to a logout request.
    RspUserLogout(RspResult, i32, bool),
    /// A response that carries only an error record.
    RspError(RspResult, i32, bool),
    /// Response to subscribing market data for the named instrument.
    RspSubMarketData(String, RspResult, i32, bool),
    /// Response to unsubscribing market data for the named instrument.
    RspUnSubMarketData(String, RspResult, i32, bool),
    /// Response to subscribing quote requests for the named instrument.
    RspSubForQuoteRsp(String, RspResult, i32, bool),
    /// Response to unsubscribing quote requests for the named instrument.
    RspUnSubForQuoteRsp(String, RspResult, i32, bool),
    /// A market-data push for the named instrument; no response wrapper.
    DepthMarketData(String),
    /// A quote-request push for the named instrument.
    ForQuoteRsp(String),
}

/// The capability set of an event consumer: one method per gateway event,
/// each with a no-op default so an implementer overrides only what it
/// needs, plus an addressable sending endpoint for downstream delivery.
/// Implementers cross from the foreign dispatch thread to the thread that
/// owns their state, so they must be `Send`.
pub trait QuoteApi<M>: Send where M: 'static {
    /// The endpoint through which this consumer pushes normalized events
    /// downstream.
    fn sender(&self) -> &Sender<M>;

    #[allow(unused_variables)]
    fn on_front_connected(&mut self) {
    }

    #[allow(unused_variables)]
    fn on_front_disconnected(&mut self, reason: DisconnectionReason) {
    }

    #[allow(unused_variables)]
    fn on_heart_beaten(&mut self) {
    }

    #[allow(unused_variables)]
    fn on_rsp_user_login(&mut self, result: RspResult, request_id: i32, is_last: bool) {
    }

    #[allow(unused_variables)]
    fn on_rsp_user_logout(&mut self, result: RspResult, request_id: i32, is_last: bool) {
    }

    #[allow(unused_variables)]
    fn on_rsp_error(&mut self, result: RspResult, request_id: i32, is_last: bool) {
    }

    #[allow(unused_variables)]
    fn on_rsp_sub_market_data(
        &mut self,
        instrument: String,
        result: RspResult,
        request_id: i32,
        is_last: bool,
    ) {
    }

    #[allow(unused_variables)]
    fn on_rsp_un_sub_market_data(
        &mut self,
        instrument: String,
        result: RspResult,
        request_id: i32,
        is_last: bool,
    ) {
    }

    #[allow(unused_variables)]
    fn on_rsp_sub_for_quote_rsp(
        &mut self,
        instrument: String,
        result: RspResult,
        request_id: i32,
        is_last: bool,
    ) {
    }

    #[allow(unused_variables)]
    fn on_rsp_un_sub_for_quote_rsp(
        &mut self,
        instrument: String,
        result: RspResult,
        request_id: i32,
        is_last: bool,
    ) {
    }

    #[allow(unused_variables)]
    fn on_rtn_depth_market_data(&mut self, instrument: String) {
    }

    #[allow(unused_variables)]
    fn on_rtn_for_quote_rsp(&mut self, instrument: String) {
    }
}

/// Dispatch one typed event to the matching consumer method.  Response
/// fields reach the consumer exactly as the event carries them.
pub fn dispatch<M: 'static, C: QuoteApi<M>>(consumer: &mut C, event: QuoteEvent) {
    match event {
        QuoteEvent::FrontConnected => consumer.on_front_connected(),
        QuoteEvent::FrontDisconnected(reason) => consumer.on_front_disconnected(reason),
        QuoteEvent::HeartBeatWarning => consumer.on_heart_beaten(),
        QuoteEvent::RspUserLogin(result, request_id, is_last) => consumer.on_rsp_user_login(
            result,
            request_id,
            is_last,
        ),
        QuoteEvent::RspUserLogout(result, request_id, is_last) => consumer.on_rsp_user_logout(
            result,
            request_id,
            is_last,
        ),
        QuoteEvent::RspError(result, request_id, is_last) => consumer.on_rsp_error(
            result,
            request_id,
            is_last,
        ),
        QuoteEvent::RspSubMarketData(instrument, result, request_id, is_last) => consumer
            .on_rsp_sub_market_data(instrument, result, request_id, is_last),
        QuoteEvent::RspUnSubMarketData(instrument, result, request_id, is_last) => consumer
            .on_rsp_un_sub_market_data(instrument, result, request_id, is_last),
        QuoteEvent::RspSubForQuoteRsp(instrument, result, request_id, is_last) => consumer
            .on_rsp_sub_for_quote_rsp(instrument, result, request_id, is_last),
        QuoteEvent::RspUnSubForQuoteRsp(instrument, result, request_id, is_last) => consumer
            .on_rsp_un_sub_for_quote_rsp(instrument, result, request_id, is_last),
        QuoteEvent::DepthMarketData(instrument) => consumer.on_rtn_depth_market_data(instrument),
        QuoteEvent::ForQuoteRsp(instrument) => consumer.on_rtn_for_quote_rsp(instrument),
    }
}

/// The slot registry that stands between the foreign boundary and the
/// consumers: a consumer is registered under a stable slot id, only the id
/// crosses the boundary, and each callback resolves the id again.  Freed
/// slots are reused.
pub struct ConsumerRegistry<C> {
    slots: Vec<Option<C>>,
}

impl<C> ConsumerRegistry<C> {
    /// The slots, in order: a registered consumer or an empty slot.
    pub closed spec fn view(&self) -> Seq<Option<C>> {
        self.slots@
    }

    /// An empty registry.
    pub fn new() -> (r: Self)
        ensures
            r@ == Seq::<Option<C>>::empty(),
    {
        ConsumerRegistry { slots: Vec::new() }
    }

    /// Register a consumer: it occupies the lowest free slot, or a fresh
    /// slot at the end when none is free, and its slot id is returned.
    /// Every other slot is untouched.
    pub fn register(&mut self, consumer: C) -> (id: usize)
        ensures
            id < final(self)@.len(),
            final(self)@[id as int] == Some(consumer),
            id < old(self)@.len() ==> (old(self)@[id as int] is None && final(self)@.len() == old(
                self,
            )@.len()),
            id >= old(self)@.len() ==> (id == old(self)@.len() && final(self)@.len() == old(
                self,
            )@.len() + 1),
            forall|j: int| 0 <= j < old(self)@.len() && j != id ==> final(self)@[j] == old(self)@[j],
            forall|j: int| 0 <= j < id ==> old(self)@[j] is Some,
    {
        let n = self.slots.len();
        let mut id: usize = 0;
        while id < n && self.slots[id].is_some()
            invariant
                n == self.slots@.len(),
                0 <= id <= n,
                forall|j: int| 0 <= j < id ==> self.slots@[j] is Some,
            decreases n - id,
        {
            id += 1;
        }
        if id < n {
            self.slots.set(id, Some(consumer));
        } else {
            self.slots.push(Some(consumer));
        }
        id
    }

    /// Remove and return the consumer at a slot id; an empty or out-of-range
    /// slot yields nothing.  Every other slot is untouched, and no slot id
    /// shifts.
    pub fn deregister(&mut self, id: usize) -> (r: Option<C>)
        ensures
            id < old(self)@.len() ==> (r == old(self)@[id as int] && final(self)@[id as int]
                is None),
            id >= old(self)@.len() ==> r is None,
            final(self)@.len() == old(self)@.len(),
            forall|j: int| 0 <= j < old(self)@.len() && j != id ==> final(self)@[j] == old(self)@[j],
    {
        if id < self.slots.len() {
            let mut slot: Option<C> = None;
            core::mem::swap(&mut slot, &mut self.slots[id]);
            slot
        } else {
            None
        }
    }

    /// Whether a consumer is registered under this slot id.
    pub fn is_registered(&self, id: usize) -> (r: bool)
        ensures
            r == (id < self@.len() && self@[id as int] is Some),
    {
        id < self.slots.len() && self.slots[id].is_some()
    }
}

/// Resolve a slot id and dispatch one event to the consumer registered
/// there, as a foreign callback does.  Reports whether a consumer was
/// found; an unknown or freed slot id drops the event rather than faulting.
/// No slot is added or removed, and every other slot is untouched.
pub fn dispatch_to<M: 'static, C: QuoteApi<M>>(
    registry: &mut ConsumerRegistry<C>,
    id: usize,
    event: QuoteEvent,
) -> (delivered: bool)
    ensures
        delivered == (id < old(registry)@.len() && old(registry)@[id as int] is Some),
        final(registry)@.len() == old(registry)@.len(),
        forall|j: int|
            0 <= j < old(registry)@.len() && j != id ==> final(registry)@[j] == old(registry)@[j],
        id < old(registry)@.len() ==> (final(registry)@[id as int] is Some <==> old(
            registry,
        )@[id as int] is Some),
{
    if id >= registry.slots.len() {
        return false;
    }
    let mut slot: Option<C> = None;
    core::mem::swap(&mut slot, &mut registry.slots[id]);
    match slot {
        Some(mut consumer) => {
            dispatch(&mut consumer, event);
            let mut back: Option<C> = Some(consumer);
            core::mem::swap(&mut back, &mut registry.slots[id]);
            true
        },
        None => false,
    }
}

} // verus!
