//! Laws of the dispatcher, proved from the definitions that the contracts
//! use.

use crate::commitment::is_commitment;
use crate::contract::ContractDetails;
use crate::echo::{lemma_echo_round_trip, spec_decode_text, spec_encode_text};
use crate::filter::{Filter, Handler};
use crate::hbfi::HBFI;
use crate::identity::PublicIdentity;
use crate::index::spec_index_of;
use crate::negotiation::{recorded, state_of, NegotiationEvent, NegotiationState};
use crate::packet::PacketView;
use crate::protocol::{
    contract_outcome, request_allows, response_outcome, sealing_of, step_allows, ActionView,
    EventView, Instance, LinkId, PING_TEXT,
};
use crate::wire::{
    lemma_decode_encoded_packet, lemma_encode_hbfi_injective, spec_decode_packet,
    spec_encode_hbfi, spec_encode_packet,
};
use vstd::prelude::*;
use vstd::utf8::is_ascii_chars_encode_utf8;

verus! {

/// An identifier that carries the instance's application and module indices
/// is admitted exactly when it names the instance as its responder.
pub proof fn lemma_match_iff_responder(filter: Filter, hbfi: HBFI)
    requires
        hbfi.app == filter.app,
        hbfi.module == filter.module,
    ensures
        filter.admits(hbfi) <==> hbfi.responder_index == filter.responder_index,
{
}

/// An identifier built for the application and module that an instance
/// serves is admitted by the instance exactly when the responder it was
/// built for has the instance's index.
pub proof fn lemma_built_identifier_matches(
    own: PublicIdentity,
    requester: Option<PublicIdentity>,
    responder: PublicIdentity,
    app: Seq<char>,
    module: Seq<char>,
    function: Seq<char>,
    argument: Seq<char>,
)
    requires
        own.spec_index() is Some,
        HBFI::spec_new(requester, responder, app, module, function, argument) is Ok,
    ensures
        (Filter {
            responder_index: own.spec_index()->Some_0,
            app: spec_index_of(app)->Some_0,
            module: spec_index_of(module)->Some_0,
        }).admits(HBFI::spec_new(requester, responder, app, module, function, argument)->Ok_0)
            <==> responder.spec_index() == own.spec_index(),
{
}

/// Changing the responder, application or module index of an admitted
/// identifier makes it one that is not admitted.
pub proof fn lemma_changed_index_is_refused(filter: Filter, hbfi: HBFI, changed: HBFI)
    requires
        filter.admits(hbfi),
        changed.responder_index != hbfi.responder_index || changed.app != hbfi.app
            || changed.module != hbfi.module,
    ensures
        !filter.admits(changed),
{
}

/// Whatever secret is drawn, the secret handler answers with a response
/// whose payload is a commitment of exactly 32 bytes.
pub proof fn lemma_secret_payload_is_commitment(
    s: Instance,
    hbfi: HBFI,
    next: Instance,
    action: ActionView,
)
    requires
        s.filter().admits(hbfi),
        s.labels.handler_for(hbfi) == Some(Handler::Secret),
        request_allows(s, hbfi, next, action),
    ensures
        action is Respond,
        action->Respond_payload.len() == 32,
        is_commitment(action->Respond_payload),
{
}

/// Every response that a step emits carries the identifier of the event
/// that caused it, unchanged, and so the same encoding; and it is encrypted
/// exactly when that identifier names a requester.
pub proof fn lemma_response_correlation(
    s: Instance,
    event: EventView,
    next: Instance,
    action: ActionView,
)
    requires
        step_allows(s, event, next, action),
        action is Respond,
    ensures
        event matches EventView::Packet(PacketView::Request { hbfi, .. }) && action->Respond_hbfi
            == hbfi,
        action->Respond_sealing == sealing_of(action->Respond_hbfi),
        event matches EventView::Packet(packet) ==> spec_encode_hbfi(action->Respond_hbfi)
            == spec_encode_hbfi(packet.hbfi()),
{
}

/// After a response was processed, the cache holds under the encoding of
/// its identifier a value that decodes to that very response.
pub proof fn lemma_cache_round_trip(s: Instance, packet: PacketView)
    requires
        packet is Response,
        packet->payload.len() <= u64::MAX,
    ensures
        ({
            let (next, action) = response_outcome(s, packet);
            let key = spec_encode_hbfi(packet.hbfi());
            &&& next.cache.contains_key(key)
            &&& spec_decode_packet(next.cache[key]) == Some(packet)
            &&& action == (ActionView::Persist {
                key,
                value: spec_encode_packet(packet),
                deliver: s.awaits(packet.hbfi()),
            })
        }),
{
    lemma_decode_encoded_packet(packet);
}

/// A cached response stays in the cache when a response with another
/// identifier is processed.
pub proof fn lemma_cache_keeps_other_responses(s: Instance, packet: PacketView, other: HBFI)
    requires
        other != packet.hbfi(),
        s.cache.contains_key(spec_encode_hbfi(other)),
    ensures
        ({
            let next = response_outcome(s, packet).0;
            let key = spec_encode_hbfi(other);
            next.cache.contains_key(key) && next.cache[key] == s.cache[key]
        }),
{
    if spec_encode_hbfi(other) == spec_encode_hbfi(packet.hbfi()) {
        lemma_encode_hbfi_injective(other, packet.hbfi());
    }
}

/// The response to a ping that the instance has sent is delivered to the
/// requester that waits for it, whoever the responder is and whichever
/// chunk it carries.
pub proof fn lemma_echo_is_delivered(
    s: Instance,
    responder_index: u64,
    offset: u64,
    window: u64,
    packet: PacketView,
)
    requires
        packet.hbfi() == s.ping_request(responder_index).spec_at(offset, window),
    ensures
        response_outcome(s, packet).1->Persist_deliver,
{
}

/// A matched ping is always answered, with the text of the ping in an
/// encoding that decodes to it; the worker goes on.
pub proof fn lemma_ping_is_answered(s: Instance, hbfi: HBFI, next: Instance, action: ActionView)
    requires
        s.filter().admits(hbfi),
        s.labels.handler_for(hbfi) == Some(Handler::Ping),
        request_allows(s, hbfi, next, action),
    ensures
        action is Respond,
        action->Respond_hbfi == hbfi,
        action->Respond_payload == spec_encode_text(PING_TEXT@),
        spec_decode_text(action->Respond_payload) == Some(PING_TEXT@),
        next == s.met(hbfi.requester_index),
        next.halted == s.halted,
{
    reveal_strlit("ping");
    is_ascii_chars_encode_utf8(PING_TEXT@);
    lemma_echo_round_trip(PING_TEXT@);
}

/// A second response for an identifier replaces the first in the cache.
pub proof fn lemma_cache_last_writer_wins(s: Instance, first: PacketView, second: PacketView)
    requires
        first.hbfi() == second.hbfi(),
    ensures
        response_outcome(response_outcome(s, first).0, second).0 == response_outcome(s, second).0,
{
    let key = spec_encode_hbfi(first.hbfi());
    assert(s.cache.insert(key, spec_encode_packet(first)).insert(key, spec_encode_packet(second))
        =~= s.cache.insert(key, spec_encode_packet(second)));
}

/// Peering again replaces the wiring: the last link wins.
pub proof fn lemma_peering_last_writer_wins(s: Instance, first: LinkId, second: LinkId)
    ensures
        s.peered(first).peered(second) == s.peered(second),
        s.peered(second).is_peered(),
{
}

/// To name the same logical request is an equivalence, and the chunk that
/// an identifier addresses does not enter into it.
pub proof fn lemma_same_request_is_equivalence(a: HBFI, b: HBFI, c: HBFI, offset: u64, window: u64)
    ensures
        a.same_request(a),
        a.same_request(b) ==> b.same_request(a),
        a.same_request(b) && b.same_request(c) ==> a.same_request(c),
        a.same_request(a.spec_at(offset, window)),
{
}

/// Whatever details are drawn, the contract handler answers with a signed
/// structure whose amounts lie in their ranges: the address, the funding
/// amount and the donation request, one after the other, and then the 64
/// bytes of the signature over them.
pub proof fn lemma_contract_bounds(s: Instance, hbfi: HBFI, next: Instance, action: ActionView)
    requires
        s.filter().admits(hbfi),
        s.labels.handler_for(hbfi) == Some(Handler::ContractDetails),
        request_allows(s, hbfi, next, action),
    ensures
        action is Respond,
        action->Respond_hbfi == hbfi,
        exists|details: ContractDetails, signature: Seq<u8>|
            {
                &&& 10_000 <= details.funding_amount < 1_000_000
                &&& 0 <= details.donation_request < 1_000
                &&& signature.len() == 64
                &&& action->Respond_payload == #[trigger] details.spec_signed_payload(signature)
                &&& details.spec_signed_payload(signature) == details.spec_signing_message()
                    + signature
            },
{
    let (details, signature) = choose|details: ContractDetails, signature: Seq<u8>|
        details.within_bounds() && signature.len() == 64 && (next, action)
            == #[trigger] contract_outcome(s.met(hbfi.requester_index), hbfi, details, signature);
    assert(action->Respond_payload == details.spec_signed_payload(signature));
}

/// No signed structure leaves the instance unless its amounts lie in their
/// ranges, whatever details and signature the handler is given.
pub proof fn lemma_signed_response_is_bounded(
    s: Instance,
    hbfi: HBFI,
    details: ContractDetails,
    signature: Seq<u8>,
)
    requires
        contract_outcome(s, hbfi, details, signature).1 is Respond,
    ensures
        details.within_bounds(),
        contract_outcome(s, hbfi, details, signature).1->Respond_payload
            == details.spec_signing_message() + signature,
{
}

/// A request whose application or module index is not the instance's is
/// dropped: the instance does not change, so nothing is written to the
/// cache, and nothing goes out.
pub proof fn lemma_unmatched_drop(
    s: Instance,
    hbfi: HBFI,
    window_metadata: u64,
    next: Instance,
    action: ActionView,
)
    requires
        hbfi.app != s.labels.app || hbfi.module != s.labels.module,
        step_allows(
            s,
            EventView::Packet(PacketView::Request { hbfi, window_metadata }),
            next,
            action,
        ),
    ensures
        next == s,
        action == ActionView::Idle,
        !action.is_outbound(),
        next.cache == s.cache,
{
}

/// No request, matched or not, writes to the cache or changes what the
/// instance is and serves.
pub proof fn lemma_requests_leave_cache(
    s: Instance,
    hbfi: HBFI,
    next: Instance,
    action: ActionView,
)
    requires
        request_allows(s, hbfi, next, action),
    ensures
        next.cache == s.cache,
        action !is Persist,
        next.identity == s.identity,
        next.index == s.index,
        next.labels == s.labels,
        next.txrx == s.txrx,
{
}

/// No step changes what the instance is, what it serves or how it is
/// wired.
pub proof fn lemma_step_keeps_configuration(
    s: Instance,
    event: EventView,
    next: Instance,
    action: ActionView,
)
    requires
        step_allows(s, event, next, action),
    ensures
        next.protocol_sid == s.protocol_sid,
        next.identity == s.identity,
        next.index == s.index,
        next.labels == s.labels,
        next.txrx == s.txrx,
{
}

/// A handler that targets one peer does nothing for an anonymous
/// requester.
pub proof fn lemma_anonymous_requester_is_skipped(
    s: Instance,
    hbfi: HBFI,
    next: Instance,
    action: ActionView,
)
    requires
        hbfi.requester_index is None,
        s.filter().admits(hbfi),
        s.labels.handler_for(hbfi) is Some,
        s.labels.handler_for(hbfi)->Some_0.needs_requester(),
        request_allows(s, hbfi, next, action),
    ensures
        next == s,
        action == ActionView::Idle,
{
}

/// Only the initial state moves: a peer to which a secret or an amount went
/// stays where it is, whatever is dispatched later.
pub proof fn lemma_negotiation_settles(
    states: Map<u64, NegotiationState>,
    peer: u64,
    first: NegotiationEvent,
    second: NegotiationEvent,
)
    ensures
        state_of(recorded(states, peer, first), peer) != NegotiationState::Initial,
        state_of(recorded(recorded(states, peer, first), peer, second), peer) == state_of(
            recorded(states, peer, first),
            peer,
        ),
        state_of(states, peer) == NegotiationState::Initial ==> state_of(
            recorded(states, peer, first),
            peer,
        ) == NegotiationState::Initial.after(first),
{
}

/// Once the worker has stopped on a fault, nothing a later event could do
/// is allowed by the dispatcher: it stays stopped.
pub proof fn lemma_fault_stops(s: Instance, next: Instance, action: ActionView)
    requires
        step_allows(s, EventView::Fault, next, action),
    ensures
        next.halted,
        action == ActionView::Halt,
        next.cache == s.cache,
        next.negotiation == s.negotiation,
{
}

} // verus!
