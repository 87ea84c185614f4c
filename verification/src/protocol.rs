//! The protocol instance and its dispatcher.
//!
//! The dispatcher is a step function: it takes one event, changes the
//! instance, and answers with the one action that the worker around it has
//! to perform. Receiving, sending and persisting are the worker's business;
//! every decision is taken here.

use crate::cache::ResponseCache;
use crate::commitment::{is_commitment, secret_generate};
use crate::contract::ContractDetails;
use crate::echo::{encode_text, spec_encode_text};
use crate::error::Error;
use crate::filter::{Filter, Handler, Labels};
use crate::hbfi::HBFI;
use crate::identity::{public_identity_of, sign, PublicIdentity, SIGNATURE_SIZE};
use crate::negotiation::{recorded, state_of, touched, NegotiationEvent, NegotiationState, Tracker};
use crate::packet::{NarrowWaistPacket, PacketView};
use crate::wire::{
    decode_packet, encode_hbfi, encode_packet, spec_encode_hbfi, spec_encode_packet,
};
use copernica_packets::PrivateIdentityInterface;
use vstd::array::array_as_slice;
use vstd::prelude::*;
use vstd::slice::slice_to_vec;

verus! {

/// The text that answers a ping.
pub const PING_TEXT: &'static str = "ping";

/// Names the link that wires an instance to its one transport peer.
#[derive(Clone, Copy, Debug, PartialEq, Eq, Structural)]
pub struct LinkId {
    pub id: u64,
}

/// The wiring of an instance to the transport.
#[derive(Clone, Copy, Debug, PartialEq, Eq)]
pub enum TxRx {
    /// Not peered with any link yet.
    Inert,
    /// Peered with the named link, under the named identity.
    Initialized { link_id: LinkId, protocol_pid: PublicIdentity },
}

impl TxRx {
    /// The identity that the wiring speaks for. There is none before the
    /// instance is peered with a link.
    pub fn protocol_public_id(&self) -> (pid: Result<PublicIdentity, Error>)
        ensures
            pid == match *self {
                TxRx::Inert => Err::<PublicIdentity, Error>(Error::NotPeered),
                TxRx::Initialized { protocol_pid, .. } => Ok(protocol_pid),
            },
    {
        match self {
            TxRx::Inert => Err(Error::NotPeered),
            TxRx::Initialized { protocol_pid, .. } => Ok(*protocol_pid),
        }
    }
}

/// How a response is protected on its way.
#[derive(Clone, Copy, Debug, PartialEq, Eq, Structural)]
pub enum Sealing {
    /// The requester is anonymous: the response is signed and sent in clear.
    Cleartext,
    /// The requester is known: the response is encrypted for it.
    Cyphertext,
}

/// A response is encrypted exactly when its requester is known.
pub open spec fn sealing_of(hbfi: HBFI) -> Sealing {
    if hbfi.requester_index is Some {
        Sealing::Cyphertext
    } else {
        Sealing::Cleartext
    }
}

/// What the dispatcher is told.
#[derive(Clone, Debug, PartialEq, Eq)]
pub enum Event {
    /// A packet came in from the transport.
    Packet(NarrowWaistPacket),
    /// An action could not be performed: a send or a write to the store
    /// failed.
    Fault,
}

/// The mathematical content of an event.
pub enum EventView {
    Packet(PacketView),
    Fault,
}

impl View for Event {
    type V = EventView;

    open spec fn view(&self) -> EventView {
        match *self {
            Event::Packet(packet) => EventView::Packet(packet@),
            Event::Fault => EventView::Fault,
        }
    }
}

/// What the dispatcher asks of the worker around it.
#[derive(Clone, Debug, PartialEq, Eq)]
pub enum Action {
    /// Nothing: the event was dropped or needs no answer.
    Idle,
    /// Send a response that pairs `hbfi` with `payload`.
    Respond { hbfi: HBFI, payload: Vec<u8>, sealing: Sealing },
    /// Send a request.
    Request { hbfi: HBFI },
    /// Write `value` under `key` to the persistent store; where `deliver`
    /// is set, also hand the response to the requester that waits for it.
    Persist { key: Vec<u8>, value: Vec<u8>, deliver: bool },
    /// Stop: the worker has terminated.
    Halt,
}

/// The mathematical content of an action.
pub enum ActionView {
    Idle,
    Respond { hbfi: HBFI, payload: Seq<u8>, sealing: Sealing },
    Request { hbfi: HBFI },
    Persist { key: Seq<u8>, value: Seq<u8>, deliver: bool },
    Halt,
}

impl ActionView {
    /// Something leaves the instance for the transport.
    pub open spec fn is_outbound(self) -> bool {
        self is Respond || self is Request
    }
}

impl View for Action {
    type V = ActionView;

    open spec fn view(&self) -> ActionView {
        match *self {
            Action::Idle => ActionView::Idle,
            Action::Respond { hbfi, payload, sealing } => ActionView::Respond {
                hbfi,
                payload: payload@,
                sealing,
            },
            Action::Request { hbfi } => ActionView::Request { hbfi },
            Action::Persist { key, value, deliver } => ActionView::Persist {
                key: key@,
                value: value@,
                deliver,
            },
            Action::Halt => ActionView::Halt,
        }
    }
}

/// The mathematical content of a protocol instance.
pub struct Instance {
    /// The private identity the instance signs with.
    pub protocol_sid: PrivateIdentityInterface,
    /// The identity the instance answers for.
    pub identity: PublicIdentity,
    /// The filter index of that identity.
    pub index: u64,
    pub txrx: TxRx,
    pub labels: Labels,
    /// The response cache: encoded identifier to encoded response.
    pub cache: Map<Seq<u8>, Seq<u8>>,
    /// The negotiation state of every peer met so far.
    pub negotiation: Map<u64, NegotiationState>,
    /// Whether the worker has terminated.
    pub halted: bool,
}

impl Instance {
    /// A fresh instance: not peered, with nothing cached and no peer met.
    pub open spec fn fresh(
        protocol_sid: PrivateIdentityInterface,
        identity: PublicIdentity,
        index: u64,
        labels: Labels,
    ) -> Instance {
        Instance {
            protocol_sid,
            identity,
            index,
            txrx: TxRx::Inert,
            labels,
            cache: Map::empty(),
            negotiation: Map::empty(),
            halted: false,
        }
    }

    /// The indices that traffic for this instance carries.
    pub open spec fn filter(self) -> Filter {
        Filter { responder_index: self.index, app: self.labels.app, module: self.labels.module }
    }

    pub open spec fn is_peered(self) -> bool {
        self.txrx is Initialized
    }

    /// The instance after it was peered with `link_id`.
    pub open spec fn peered(self, link_id: LinkId) -> Instance {
        Instance { txrx: TxRx::Initialized { link_id, protocol_pid: self.identity }, ..self }
    }

    /// The instance after a request of `requester` was matched: a known
    /// requester has an entry in the tracker from then on.
    pub open spec fn met(self, requester: Option<u64>) -> Instance {
        match requester {
            Some(peer) => Instance { negotiation: touched(self.negotiation, peer), ..self },
            None => self,
        }
    }

    /// The instance after `event` was dispatched to `requester`. Nothing is
    /// recorded for an anonymous requester.
    pub open spec fn noted(self, requester: Option<u64>, event: NegotiationEvent) -> Instance {
        match requester {
            Some(peer) => Instance {
                negotiation: recorded(self.negotiation, peer, event),
                ..self
            },
            None => self,
        }
    }

    /// The instance after its worker has terminated.
    pub open spec fn stopped(self) -> Instance {
        Instance { halted: true, ..self }
    }

    /// Whether a response with this identifier is one that a requester of
    /// this instance waits for: the echo of a ping in the application and
    /// module that the instance serves, whoever answered it.
    pub open spec fn awaits(self, hbfi: HBFI) -> bool {
        &&& hbfi.app == self.labels.app
        &&& hbfi.module == self.labels.module
        &&& self.labels.ping.names(hbfi)
    }

    /// The request that pings the peer with index `responder_index` over
    /// the encrypted path: the instance as requester, the ping label, first
    /// chunk.
    pub open spec fn ping_request(self, responder_index: u64) -> HBFI {
        HBFI {
            responder_index,
            requester_index: Some(self.index),
            app: self.labels.app,
            module: self.labels.module,
            function: self.labels.ping.function,
            argument: self.labels.ping.argument,
            offset: 0,
            window: 0,
        }
    }
}

/// A ping is answered with the encoded text; if the text could not be
/// encoded, the worker terminates.
pub open spec fn ping_outcome(s: Instance, hbfi: HBFI, encoded: Option<Seq<u8>>) -> (
    Instance,
    ActionView,
) {
    match encoded {
        Some(payload) => (s, ActionView::Respond { hbfi, payload, sealing: sealing_of(hbfi) }),
        None => (s.stopped(), ActionView::Halt),
    }
}

/// A request for a secret is answered with the commitment; the secret stays
/// with the instance.
pub open spec fn secret_outcome(s: Instance, hbfi: HBFI, digest: Seq<u8>) -> (
    Instance,
    ActionView,
) {
    (
        s.noted(hbfi.requester_index, NegotiationEvent::SecretDispatched),
        ActionView::Respond { hbfi, payload: digest, sealing: sealing_of(hbfi) },
    )
}

/// A request for contract details is answered with the signed structure:
/// the signed message, then its signature. Details out of bounds are never
/// sent.
pub open spec fn contract_outcome(
    s: Instance,
    hbfi: HBFI,
    details: ContractDetails,
    signature: Seq<u8>,
) -> (Instance, ActionView) {
    if details.within_bounds() {
        (
            s.noted(hbfi.requester_index, NegotiationEvent::AmountDispatched),
            ActionView::Respond {
                hbfi,
                payload: details.spec_signed_payload(signature),
                sealing: sealing_of(hbfi),
            },
        )
    } else {
        (s, ActionView::Idle)
    }
}

/// A counter-offer is acknowledged with an empty response to the peer that
/// made it; an anonymous one is skipped.
pub open spec fn counter_offer_outcome(s: Instance, hbfi: HBFI) -> (Instance, ActionView) {
    if hbfi.requester_index is Some {
        (s, ActionView::Respond { hbfi, payload: Seq::empty(), sealing: Sealing::Cyphertext })
    } else {
        (s, ActionView::Idle)
    }
}

/// The request that answers a request for a request: the same labels and
/// chunk, with the roles of requester and responder exchanged.
pub open spec fn reversed(hbfi: HBFI, own_index: u64) -> HBFI {
    HBFI {
        responder_index: hbfi.requester_index->Some_0,
        requester_index: Some(own_index),
        ..hbfi
    }
}

/// A request for a request is answered with a request to the peer that
/// asked; an anonymous one is skipped.
pub open spec fn nested_request_outcome(s: Instance, hbfi: HBFI) -> (Instance, ActionView) {
    if hbfi.requester_index is Some {
        (s, ActionView::Request { hbfi: reversed(hbfi, s.index) })
    } else {
        (s, ActionView::Idle)
    }
}

/// Every response is cached under its encoded identifier, whether or not a
/// request for it is known, and handed on to the persistent store. The echo
/// of a ping is delivered to the requester as well.
pub open spec fn response_outcome(s: Instance, packet: PacketView) -> (Instance, ActionView) {
    let key = spec_encode_hbfi(packet.hbfi());
    let value = spec_encode_packet(packet);
    (
        Instance { cache: s.cache.insert(key, value), ..s },
        ActionView::Persist { key, value, deliver: s.awaits(packet.hbfi()) },
    )
}

/// What the dispatcher may do with a request: `next` and `action` are a
/// possible result of handling `hbfi` in `s`.
///
/// A request that the filter does not admit changes nothing and causes
/// nothing. An admitted one makes its requester known to the tracker and
/// fires the one handler that its function and argument select, if any.
pub open spec fn request_allows(s: Instance, hbfi: HBFI, next: Instance, action: ActionView) -> bool {
    if !s.filter().admits(hbfi) {
        next == s && action == ActionView::Idle
    } else {
        let met = s.met(hbfi.requester_index);
        match s.labels.handler_for(hbfi) {
            None => next == met && action == ActionView::Idle,
            Some(Handler::Ping) => (next, action) == ping_outcome(
                met,
                hbfi,
                Some(spec_encode_text(PING_TEXT@)),
            ),
            Some(Handler::Secret) => exists|digest: Seq<u8>|
                is_commitment(digest) && (next, action) == #[trigger] secret_outcome(
                    met,
                    hbfi,
                    digest,
                ),
            Some(Handler::ContractDetails) => exists|details: ContractDetails, signature: Seq<u8>|
                details.within_bounds() && signature.len() == SIGNATURE_SIZE && (next, action)
                    == #[trigger] contract_outcome(met, hbfi, details, signature),
            Some(Handler::CounterOffer) => (next, action) == counter_offer_outcome(met, hbfi),
            Some(Handler::NestedRequest) => (next, action) == nested_request_outcome(met, hbfi),
        }
    }
}

/// What the dispatcher of a peered and running instance may do with an
/// event.
pub open spec fn step_allows(s: Instance, event: EventView, next: Instance, action: ActionView) -> bool {
    match event {
        EventView::Fault => next == s.stopped() && action == ActionView::Halt,
        EventView::Packet(PacketView::Request { hbfi, .. }) => request_allows(
            s,
            hbfi,
            next,
            action,
        ),
        EventView::Packet(packet) => (next, action) == response_outcome(s, packet),
    }
}

/// A protocol instance: one local identity, the labels it serves, its
/// wiring to one transport peer, its response cache and its tracker.
#[derive(Debug)]
pub struct LOCD {
    protocol_sid: PrivateIdentityInterface,
    identity: PublicIdentity,
    index: u64,
    txrx: TxRx,
    labels: Labels,
    cache: ResponseCache,
    negotiation: Tracker,
    halted: bool,
}

impl View for LOCD {
    type V = Instance;

    closed spec fn view(&self) -> Instance {
        Instance {
            protocol_sid: self.protocol_sid,
            identity: self.identity,
            index: self.index,
            txrx: self.txrx,
            labels: self.labels,
            cache: self.cache@,
            negotiation: self.negotiation@,
            halted: self.halted,
        }
    }
}

impl LOCD {
    /// A fresh instance that signs with `protocol_sid`, is known to its
    /// peers as `identity` and serves `labels`. There is none where the
    /// identity has no filter index.
    ///
    /// The two identities are meant to belong together; [`LOCD::new`] sees
    /// to that.
    pub fn assemble(
        protocol_sid: PrivateIdentityInterface,
        identity: PublicIdentity,
        labels: Labels,
    ) -> (made: Result<LOCD, Error>)
        ensures
            made is Ok <==> identity.spec_index() is Some,
            made is Ok ==> made->Ok_0@ == Instance::fresh(
                protocol_sid,
                identity,
                identity.spec_index()->Some_0,
                labels,
            ),
            made is Err ==> made->Err_0 == Error::UnindexedIdentity,
    {
        match identity.index() {
            Some(index) => Ok(
                LOCD {
                    protocol_sid,
                    identity,
                    index,
                    txrx: TxRx::Inert,
                    labels,
                    cache: ResponseCache::new(),
                    negotiation: Tracker::new(),
                    halted: false,
                },
            ),
            None => Err(Error::UnindexedIdentity),
        }
    }

    /// A fresh instance for the private identity `protocol_sid` that serves
    /// `labels`: not peered, with nothing cached and no peer met. Its public
    /// identity is the one that belongs to `protocol_sid`. The instance is
    /// made exactly when that identity has a filter index.
    pub fn new(protocol_sid: PrivateIdentityInterface, labels: Labels) -> (made: Result<
        LOCD,
        Error,
    >)
        ensures
            exists|identity: PublicIdentity|
                (made is Ok <==> (#[trigger] identity.spec_index()) is Some) && (made is Ok
                    ==> made->Ok_0@.identity == identity),
            made is Ok ==> made->Ok_0@.identity.spec_index() == Some(made->Ok_0@.index),
            made is Ok ==> made->Ok_0@ == Instance::fresh(
                protocol_sid,
                made->Ok_0@.identity,
                made->Ok_0@.index,
                labels,
            ),
            made is Err ==> made->Err_0 == Error::UnindexedIdentity,
    {
        let identity = public_identity_of(&protocol_sid);
        let made = Self::assemble(protocol_sid, identity, labels);
        assert((made is Ok <==> identity.spec_index() is Some) && (made is Ok ==> made->Ok_0@.identity
            == identity));
        made
    }

    /// Replaces the wiring, whatever it was.
    pub fn set_txrx(&mut self, txrx: TxRx)
        ensures
            final(self)@ == (Instance { txrx, ..old(self)@ }),
    {
        self.txrx = txrx;
    }

    /// The private identity the instance signs with: the one it was made
    /// with.
    pub fn get_protocol_sid(&self) -> (sid: &PrivateIdentityInterface)
        ensures
            *sid == self@.protocol_sid,
    {
        &self.protocol_sid
    }

    /// The identity the instance answers for.
    pub fn get_public_id(&self) -> (pid: PublicIdentity)
        ensures
            pid == self@.identity,
    {
        self.identity
    }

    /// The filter index of the instance's identity.
    pub fn get_index(&self) -> (index: u64)
        ensures
            index == self@.index,
    {
        self.index
    }

    /// The labels the instance serves.
    pub fn get_labels(&self) -> (labels: Labels)
        ensures
            labels == self@.labels,
    {
        self.labels
    }

    /// The wiring of the instance.
    pub fn get_txrx(&self) -> (txrx: TxRx)
        ensures
            txrx == self@.txrx,
    {
        self.txrx
    }

    /// Whether the worker has terminated.
    pub fn is_halted(&self) -> (halted: bool)
        ensures
            halted == self@.halted,
    {
        self.halted
    }

    /// Wires the instance to the link `link_id`. An earlier wiring is
    /// replaced: the last link wins.
    pub fn peer_with_link(&mut self, link_id: LinkId)
        ensures
            final(self)@ == old(self)@.peered(link_id),
    {
        self.txrx = TxRx::Initialized { link_id, protocol_pid: self.identity };
    }

    /// Whether a worker may be started: only on a peered instance.
    pub fn run(&self) -> (started: Result<(), Error>)
        ensures
            started is Ok <==> self@.is_peered(),
            started is Err ==> started->Err_0 == Error::NotPeered,
    {
        match self.txrx {
            TxRx::Inert => Err(Error::NotPeered),
            TxRx::Initialized { .. } => Ok(()),
        }
    }

    /// The request that pings `response_pid` over the encrypted path. An
    /// instance that is not peered has no identity on the wire and cannot
    /// ping; a peer without a filter index cannot be pinged.
    pub fn cyphertext_ping(&self, response_pid: PublicIdentity) -> (request: Result<HBFI, Error>)
        ensures
            request == if !self@.is_peered() {
                Err::<HBFI, Error>(Error::NotPeered)
            } else if response_pid.spec_index() is None {
                Err(Error::UnindexedIdentity)
            } else {
                Ok(self@.ping_request(response_pid.spec_index()->Some_0))
            },
    {
        match self.txrx {
            TxRx::Inert => Err(Error::NotPeered),
            TxRx::Initialized { .. } => match response_pid.index() {
                Some(responder_index) => Ok(
                    HBFI {
                        responder_index,
                        requester_index: Some(self.index),
                        app: self.labels.app,
                        module: self.labels.module,
                        function: self.labels.ping.function,
                        argument: self.labels.ping.argument,
                        offset: 0,
                        window: 0,
                    },
                ),
                None => Err(Error::UnindexedIdentity),
            },
        }
    }

    /// The negotiation state of the peer with index `peer`; a peer never
    /// met is in the initial state.
    pub fn negotiation_state(&self, peer: u64) -> (state: NegotiationState)
        ensures
            state == state_of(self@.negotiation, peer),
    {
        self.negotiation.state(peer)
    }

    /// The response cached for `hbfi`, if one was processed.
    pub fn cached_response(&self, hbfi: &HBFI) -> (found: Option<NarrowWaistPacket>)
        ensures
            match found {
                Some(packet) => self@.cache.contains_key(spec_encode_hbfi(*hbfi))
                    && spec_encode_packet(packet@) == self@.cache[spec_encode_hbfi(*hbfi)],
                None => !self@.cache.contains_key(spec_encode_hbfi(*hbfi)) || forall|
                    p: PacketView,
                | spec_encode_packet(p) != self@.cache[spec_encode_hbfi(*hbfi)],
            },
    {
        let key = encode_hbfi(hbfi);
        match self.cache.get(key.as_slice()) {
            Some(value) => decode_packet(value.as_slice()),
            None => None,
        }
    }

    fn sealing(hbfi: &HBFI) -> (sealing: Sealing)
        ensures
            sealing == sealing_of(*hbfi),
    {
        match hbfi.requester_index {
            Some(_) => Sealing::Cyphertext,
            None => Sealing::Cleartext,
        }
    }

    fn note(&mut self, requester: Option<u64>, event: NegotiationEvent)
        ensures
            final(self)@ == old(self)@.noted(requester, event),
    {
        match requester {
            Some(peer) => {
                self.negotiation.record(peer, event);
            },
            None => {},
        }
    }

    /// Answers a ping with the encoded text, or terminates the worker if
    /// there is none.
    pub fn answer_ping(&mut self, hbfi: HBFI, encoded: Option<Vec<u8>>) -> (action: Action)
        ensures
            (final(self)@, action@) == ping_outcome(
                old(self)@,
                hbfi,
                match encoded {
                    Some(payload) => Some(payload@),
                    None => None,
                },
            ),
    {
        match encoded {
            Some(payload) => Action::Respond { hbfi, payload, sealing: Self::sealing(&hbfi) },
            None => {
                self.halted = true;
                Action::Halt
            },
        }
    }

    /// The secret handler without a packet: records that a secret went to
    /// `peer` and hands out the commitment's bytes.
    pub fn commit_secret_to(&mut self, peer: Option<u64>, digest: [u8; 32]) -> (bytes: Vec<u8>)
        ensures
            final(self)@ == old(self)@.noted(peer, NegotiationEvent::SecretDispatched),
            bytes@ == digest@,
            bytes@.len() == 32,
    {
        self.note(peer, NegotiationEvent::SecretDispatched);
        slice_to_vec(array_as_slice(&digest))
    }

    /// Answers a request for a secret with the commitment `digest`, and
    /// records that a secret went to the requester.
    pub fn answer_secret(&mut self, hbfi: HBFI, digest: [u8; 32]) -> (action: Action)
        ensures
            (final(self)@, action@) == secret_outcome(old(self)@, hbfi, digest@),
            action@ is Respond && action@->Respond_payload.len() == 32,
    {
        let payload = self.commit_secret_to(hbfi.requester_index, digest);
        Action::Respond { hbfi, payload, sealing: Self::sealing(&hbfi) }
    }

    /// Answers a request for contract details with `details` and the
    /// signature over their message, and records that an amount went to the
    /// requester.
    pub fn seal_contract(&mut self, hbfi: HBFI, details: ContractDetails, signature: &Vec<u8>) -> (action:
        Action)
        ensures
            (final(self)@, action@) == contract_outcome(old(self)@, hbfi, details, signature@),
    {
        if details.is_within_bounds() {
            self.note(hbfi.requester_index, NegotiationEvent::AmountDispatched);
            Action::Respond {
                hbfi,
                payload: details.signed_payload(signature),
                sealing: Self::sealing(&hbfi),
            }
        } else {
            Action::Idle
        }
    }

    /// Answers a request for contract details with `details`, signed with
    /// the instance's private identity.
    pub fn offer_contract(&mut self, hbfi: HBFI, details: ContractDetails) -> (action: Action)
        ensures
            exists|signature: Seq<u8>|
                signature.len() == SIGNATURE_SIZE && (final(self)@, action@)
                    == #[trigger] contract_outcome(old(self)@, hbfi, details, signature),
    {
        let message = details.signing_message();
        let signature = sign(&self.protocol_sid, message.as_slice());
        let action = self.seal_contract(hbfi, details, &signature);
        assert((self@, action@) == contract_outcome(old(self)@, hbfi, details, signature@));
        action
    }

    /// Acknowledges a counter-offer of a known requester.
    pub fn acknowledge_counter_offer(&mut self, hbfi: HBFI) -> (action: Action)
        ensures
            (final(self)@, action@) == counter_offer_outcome(old(self)@, hbfi),
    {
        match hbfi.requester_index {
            Some(_) => Action::Respond {
                hbfi,
                payload: Vec::new(),
                sealing: Sealing::Cyphertext,
            },
            None => Action::Idle,
        }
    }

    /// Answers a request for a request of a known requester.
    pub fn answer_nested_request(&mut self, hbfi: HBFI) -> (action: Action)
        ensures
            (final(self)@, action@) == nested_request_outcome(old(self)@, hbfi),
    {
        match hbfi.requester_index {
            Some(peer) => Action::Request {
                hbfi: HBFI {
                    responder_index: peer,
                    requester_index: Some(self.index),
                    app: hbfi.app,
                    module: hbfi.module,
                    function: hbfi.function,
                    argument: hbfi.argument,
                    offset: hbfi.offset,
                    window: hbfi.window,
                },
            },
            None => Action::Idle,
        }
    }

    /// Caches a packet under its identifier and hands it on to the store.
    /// The dispatcher does this with every response.
    pub fn on_response(&mut self, packet: &NarrowWaistPacket) -> (action: Action)
        ensures
            (final(self)@, action@) == response_outcome(old(self)@, packet@),
    {
        let hbfi = packet.hbfi();
        let key = encode_hbfi(&hbfi);
        let value = encode_packet(packet);
        let stored_key = slice_to_vec(key.as_slice());
        let stored_value = slice_to_vec(value.as_slice());
        self.cache.insert(stored_key, stored_value);
        let deliver = hbfi.app == self.labels.app && hbfi.module == self.labels.module
            && self.labels.ping.matches(&hbfi);
        Action::Persist { key, value, deliver }
    }

    /// Handles a request: drops it unless it is addressed to the instance,
    /// and fires the one handler that it selects. The secret and the contract
    /// details are drawn afresh.
    pub fn on_request(&mut self, hbfi: HBFI) -> (action: Action)
        ensures
            request_allows(old(self)@, hbfi, final(self)@, action@),
    {
        let filter = Filter {
            responder_index: self.index,
            app: self.labels.app,
            module: self.labels.module,
        };
        if !filter.matches(&hbfi) {
            return Action::Idle;
        }
        match hbfi.requester_index {
            Some(peer) => {
                self.negotiation.touch(peer);
            },
            None => {},
        }
        let ghost met = self@;
        match self.labels.select(&hbfi) {
            None => Action::Idle,
            Some(Handler::Ping) => {
                let encoded = encode_text(PING_TEXT);
                self.answer_ping(hbfi, encoded)
            },
            Some(Handler::Secret) => {
                let (_secret, digest) = secret_generate();
                let action = self.answer_secret(hbfi, digest);
                assert((self@, action@) == secret_outcome(met, hbfi, digest@));
                action
            },
            Some(Handler::ContractDetails) => {
                let details = ContractDetails::generate();
                self.offer_contract(hbfi, details)
            },
            Some(Handler::CounterOffer) => self.acknowledge_counter_offer(hbfi),
            Some(Handler::NestedRequest) => self.answer_nested_request(hbfi),
        }
    }

    /// One step of the dispatcher.
    ///
    /// An instance that is not peered refuses every event, and so does one
    /// whose worker has terminated; neither changes. Otherwise the event is
    /// handled as [`step_allows`] says.
    pub fn step(&mut self, event: Event) -> (action: Result<Action, Error>)
        ensures
            action is Ok <==> old(self)@.is_peered() && !old(self)@.halted,
            action is Ok ==> step_allows(old(self)@, event@, final(self)@, action->Ok_0@),
            action is Err ==> final(self)@ == old(self)@,
            action is Err ==> action->Err_0 == if old(self)@.is_peered() {
                Error::Terminated
            } else {
                Error::NotPeered
            },
    {
        match self.txrx {
            TxRx::Inert => {
                return Err(Error::NotPeered);
            },
            TxRx::Initialized { .. } => {},
        }
        if self.halted {
            return Err(Error::Terminated);
        }
        match event {
            Event::Fault => {
                self.halted = true;
                Ok(Action::Halt)
            },
            Event::Packet(packet) => match packet {
                NarrowWaistPacket::Request { hbfi, .. } => Ok(self.on_request(hbfi)),
                NarrowWaistPacket::Response { .. } => Ok(self.on_response(&packet)),
            },
        }
    }
}

} // verus!
