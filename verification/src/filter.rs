//! The filter matcher: equality of precomputed filter indices.
//!
//! An instance never sees a label, only its index, so a match cannot tell two
//! labels with the same index apart.

use crate::error::Error;
use crate::hbfi::HBFI;
use crate::index::{index_of, spec_index_of};
use vstd::prelude::*;

verus! {

/// The application that the protocol belongs to.
pub const APP_NAME: &'static str = "locd";

/// The module of hashed-time-lock contracts.
pub const MOD_HTLC: &'static str = "htlc";

/// The function under which two peers negotiate.
pub const FUN_PEER: &'static str = "peer";

/// The function and the argument of a ping.
pub const FUN_PING: &'static str = "ping";

pub const ARG_PING: &'static str = "ping";

/// The arguments of the negotiation: a secret, the amount and details of a
/// contract, a counter-offer, a request for a request.
pub const ARG_SECRET: &'static str = "secret";

pub const ARG_AMOUNT: &'static str = "amount";

pub const ARG_COUNTER_OFFER: &'static str = "counter_offer";

pub const ARG_REQUEST: &'static str = "request";

/// The indices an instance expects in the traffic addressed to it.
#[derive(Clone, Copy, Debug, PartialEq, Eq, Structural)]
pub struct Filter {
    pub responder_index: u64,
    pub app: u64,
    pub module: u64,
}

impl Filter {
    /// A packet is addressed to the instance when responder, application and
    /// module indices all equal the expected ones.
    pub open spec fn admits(self, hbfi: HBFI) -> bool {
        &&& hbfi.responder_index == self.responder_index
        &&& hbfi.app == self.app
        &&& hbfi.module == self.module
    }

    pub fn matches(&self, hbfi: &HBFI) -> (matched: bool)
        ensures
            matched == self.admits(*hbfi),
    {
        hbfi.responder_index == self.responder_index && hbfi.app == self.app && hbfi.module
            == self.module
    }
}

/// The function and argument indices that name one handler.
#[derive(Clone, Copy, Debug, PartialEq, Eq, Structural)]
pub struct Label {
    pub function: u64,
    pub argument: u64,
}

impl Label {
    /// The label with the indices of the two names, where both have one.
    pub open spec fn spec_new(function: Seq<char>, argument: Seq<char>) -> Option<Label> {
        if spec_index_of(function) is Some && spec_index_of(argument) is Some {
            Some(
                Label {
                    function: spec_index_of(function)->Some_0,
                    argument: spec_index_of(argument)->Some_0,
                },
            )
        } else {
            None
        }
    }

    /// Reduces the names of a function and an argument to a label.
    pub fn new(function: &str, argument: &str) -> (made: Result<Label, Error>)
        ensures
            made == match Label::spec_new(function@, argument@) {
                Some(label) => Ok::<Label, Error>(label),
                None => Err(Error::UnindexedLabel),
            },
    {
        match (index_of(function), index_of(argument)) {
            (Some(function), Some(argument)) => Ok(Label { function, argument }),
            _ => Err(Error::UnindexedLabel),
        }
    }

    pub open spec fn names(self, hbfi: HBFI) -> bool {
        hbfi.function == self.function && hbfi.argument == self.argument
    }

    pub fn matches(&self, hbfi: &HBFI) -> (matched: bool)
        ensures
            matched == self.names(*hbfi),
    {
        hbfi.function == self.function && hbfi.argument == self.argument
    }
}

/// What an instance does with a request addressed to it.
#[derive(Clone, Copy, Debug, PartialEq, Eq, Structural)]
pub enum Handler {
    /// Echo a fixed text.
    Ping,
    /// Commit to a fresh secret and publish the commitment.
    Secret,
    /// Issue the details of a contract offer.
    ContractDetails,
    /// Acknowledge a counter-offer.
    CounterOffer,
    /// Answer a request for a request with a request to the requester.
    NestedRequest,
}

impl Handler {
    /// Handlers that target one peer cannot serve an anonymous requester.
    pub open spec fn needs_requester(self) -> bool {
        self is CounterOffer || self is NestedRequest
    }
}

/// The filter indices of every label an instance serves, reduced once when
/// the instance is set up.
#[derive(Clone, Copy, Debug, PartialEq, Eq, Structural)]
pub struct Labels {
    pub app: u64,
    pub module: u64,
    pub ping: Label,
    pub secret: Label,
    pub contract_details: Label,
    pub counter_offer: Label,
    pub nested_request: Label,
}

impl Labels {
    /// The labels of the protocol as this library names them, where every
    /// name has an index.
    pub open spec fn spec_standard() -> Option<Labels> {
        if spec_index_of(APP_NAME@) is Some && spec_index_of(MOD_HTLC@) is Some && Label::spec_new(
            FUN_PING@,
            ARG_PING@,
        ) is Some && Label::spec_new(FUN_PEER@, ARG_SECRET@) is Some && Label::spec_new(
            FUN_PEER@,
            ARG_AMOUNT@,
        ) is Some && Label::spec_new(FUN_PEER@, ARG_COUNTER_OFFER@) is Some && Label::spec_new(
            FUN_PEER@,
            ARG_REQUEST@,
        ) is Some {
            Some(
                Labels {
                    app: spec_index_of(APP_NAME@)->Some_0,
                    module: spec_index_of(MOD_HTLC@)->Some_0,
                    ping: Label::spec_new(FUN_PING@, ARG_PING@)->Some_0,
                    secret: Label::spec_new(FUN_PEER@, ARG_SECRET@)->Some_0,
                    contract_details: Label::spec_new(FUN_PEER@, ARG_AMOUNT@)->Some_0,
                    counter_offer: Label::spec_new(FUN_PEER@, ARG_COUNTER_OFFER@)->Some_0,
                    nested_request: Label::spec_new(FUN_PEER@, ARG_REQUEST@)->Some_0,
                },
            )
        } else {
            None
        }
    }

    /// Reduces the protocol's own names to the labels an instance serves.
    pub fn standard() -> (made: Result<Labels, Error>)
        ensures
            made == match Labels::spec_standard() {
                Some(labels) => Ok::<Labels, Error>(labels),
                None => Err(Error::UnindexedLabel),
            },
    {
        let app = index_of(APP_NAME);
        let module = index_of(MOD_HTLC);
        let ping = Label::new(FUN_PING, ARG_PING);
        let secret = Label::new(FUN_PEER, ARG_SECRET);
        let contract_details = Label::new(FUN_PEER, ARG_AMOUNT);
        let counter_offer = Label::new(FUN_PEER, ARG_COUNTER_OFFER);
        let nested_request = Label::new(FUN_PEER, ARG_REQUEST);
        match (app, module, ping, secret, contract_details, counter_offer, nested_request) {
            (
                Some(app),
                Some(module),
                Ok(ping),
                Ok(secret),
                Ok(contract_details),
                Ok(counter_offer),
                Ok(nested_request),
            ) => Ok(
                Labels {
                    app,
                    module,
                    ping,
                    secret,
                    contract_details,
                    counter_offer,
                    nested_request,
                },
            ),
            _ => Err(Error::UnindexedLabel),
        }
    }

    /// The one handler that a function and argument pair selects. Where the
    /// indices of two handlers collide, the earlier in this order fires.
    pub open spec fn handler_for(self, hbfi: HBFI) -> Option<Handler> {
        if self.ping.names(hbfi) {
            Some(Handler::Ping)
        } else if self.secret.names(hbfi) {
            Some(Handler::Secret)
        } else if self.contract_details.names(hbfi) {
            Some(Handler::ContractDetails)
        } else if self.counter_offer.names(hbfi) {
            Some(Handler::CounterOffer)
        } else if self.nested_request.names(hbfi) {
            Some(Handler::NestedRequest)
        } else {
            None
        }
    }

    pub fn select(&self, hbfi: &HBFI) -> (handler: Option<Handler>)
        ensures
            handler == self.handler_for(*hbfi),
    {
        if self.ping.matches(hbfi) {
            Some(Handler::Ping)
        } else if self.secret.matches(hbfi) {
            Some(Handler::Secret)
        } else if self.contract_details.matches(hbfi) {
            Some(Handler::ContractDetails)
        } else if self.counter_offer.matches(hbfi) {
            Some(Handler::CounterOffer)
        } else if self.nested_request.matches(hbfi) {
            Some(Handler::NestedRequest)
        } else {
            None
        }
    }
}

} // verus!
