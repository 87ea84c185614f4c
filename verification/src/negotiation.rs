//! The negotiation tracker: how far the exchange with each remote peer has
//! come.
//!
//! The state is advisory: it is recorded, and no handler is gated on it.

use std::collections::HashMap;
use vstd::prelude::*;

verus! {

broadcast use vstd::std_specs::hash::group_hash_axioms;

/// Progress of the exchange with one peer.
#[derive(Clone, Copy, Debug, PartialEq, Eq, Structural)]
pub enum NegotiationState {
    /// Nothing was dispatched to the peer yet.
    Initial,
    /// A secret's commitment was dispatched to the peer.
    SecretSent,
    /// An amount was dispatched to the peer.
    AmountSent,
}

/// What the dispatcher has just sent to a peer.
#[derive(Clone, Copy, Debug, PartialEq, Eq, Structural)]
pub enum NegotiationEvent {
    SecretDispatched,
    AmountDispatched,
}

impl NegotiationState {
    /// The state that follows `self` on `event`. Only the initial state
    /// moves; each role takes its one step and stays there.
    pub open spec fn after(self, event: NegotiationEvent) -> NegotiationState {
        match (self, event) {
            (NegotiationState::Initial, NegotiationEvent::SecretDispatched) => {
                NegotiationState::SecretSent
            },
            (NegotiationState::Initial, NegotiationEvent::AmountDispatched) => {
                NegotiationState::AmountSent
            },
            _ => self,
        }
    }

    pub fn transition(self, event: NegotiationEvent) -> (next: NegotiationState)
        ensures
            next == self.after(event),
    {
        match (self, event) {
            (NegotiationState::Initial, NegotiationEvent::SecretDispatched) => {
                NegotiationState::SecretSent
            },
            (NegotiationState::Initial, NegotiationEvent::AmountDispatched) => {
                NegotiationState::AmountSent
            },
            _ => self,
        }
    }
}

/// The state of `peer` in `states`; a peer without an entry is in the
/// initial state.
pub open spec fn state_of(states: Map<u64, NegotiationState>, peer: u64) -> NegotiationState {
    if states.contains_key(peer) {
        states[peer]
    } else {
        NegotiationState::Initial
    }
}

/// `states` with an entry for `peer`, made in the initial state if there was
/// none.
pub open spec fn touched(states: Map<u64, NegotiationState>, peer: u64) -> Map<
    u64,
    NegotiationState,
> {
    states.insert(peer, state_of(states, peer))
}

/// `states` after `event` was dispatched to `peer`.
pub open spec fn recorded(
    states: Map<u64, NegotiationState>,
    peer: u64,
    event: NegotiationEvent,
) -> Map<u64, NegotiationState> {
    states.insert(peer, state_of(states, peer).after(event))
}

/// The states of all remote peers, keyed by the peer's identity index.
#[derive(Debug)]
pub struct Tracker {
    states: HashMap<u64, NegotiationState>,
}

impl View for Tracker {
    type V = Map<u64, NegotiationState>;

    closed spec fn view(&self) -> Map<u64, NegotiationState> {
        self.states@
    }
}

impl Tracker {
    /// A tracker that has met no peer.
    pub fn new() -> (tracker: Tracker)
        ensures
            tracker@ == Map::<u64, NegotiationState>::empty(),
    {
        Tracker { states: HashMap::new() }
    }

    /// The state of `peer`.
    pub fn state(&self, peer: u64) -> (state: NegotiationState)
        ensures
            state == state_of(self@, peer),
    {
        match self.states.get(&peer) {
            Some(state) => *state,
            None => NegotiationState::Initial,
        }
    }

    /// Makes sure that `peer` has an entry.
    pub fn touch(&mut self, peer: u64)
        ensures
            final(self)@ == touched(old(self)@, peer),
    {
        let state = self.state(peer);
        self.states.insert(peer, state);
    }

    /// Records that `event` was dispatched to `peer`, and returns the state
    /// the peer is in now.
    pub fn record(&mut self, peer: u64, event: NegotiationEvent) -> (state: NegotiationState)
        ensures
            final(self)@ == recorded(old(self)@, peer, event),
            state == state_of(old(self)@, peer).after(event),
    {
        let state = self.state(peer).transition(event);
        self.states.insert(peer, state);
        state
    }
}

} // verus!
