//! The service facade: what an application holds of a protocol instance.

use crate::commitment::{is_commitment, secret_generate};
use crate::error::Error;
use crate::filter::Labels;
use crate::hbfi::HBFI;
use crate::identity::PublicIdentity;
use crate::negotiation::NegotiationEvent;
use crate::protocol::{step_allows, Action, Event, Instance, LinkId, LOCD};
use crate::signals::{Request, Response};
use copernica_packets::PrivateIdentityInterface;
use vstd::prelude::*;

verus! {

/// A protocol instance together with the link it was last peered with.
#[derive(Debug)]
pub struct LOCDService {
    link_id: Option<LinkId>,
    protocol: LOCD,
}

/// The mathematical content of a service.
pub struct ServiceView {
    pub link_id: Option<LinkId>,
    pub protocol: Instance,
}

impl View for LOCDService {
    type V = ServiceView;

    closed spec fn view(&self) -> ServiceView {
        ServiceView { link_id: self.link_id, protocol: self.protocol@ }
    }
}

/// The instance after the secret handler was called without a packet: a
/// commitment went to `peer`. A peer without a filter index leaves no
/// trace.
pub open spec fn command_outcome(s: Instance, peer: PublicIdentity) -> Instance {
    s.noted(peer.spec_index(), NegotiationEvent::SecretDispatched)
}

/// Why the instance takes no command, if it takes none: it was never
/// peered, or its worker has terminated.
pub open spec fn command_refusal(s: Instance) -> Option<Error> {
    if !s.is_peered() {
        Some(Error::NotPeered)
    } else if s.halted {
        Some(Error::Terminated)
    } else {
        None
    }
}

impl LOCDService {
    /// A service around a fresh instance for the private identity `sid`
    /// that serves `labels`. It is not peered with any link. The service is
    /// made exactly when the public identity that belongs to `sid` has a
    /// filter index.
    pub fn new(sid: PrivateIdentityInterface, labels: Labels) -> (made: Result<LOCDService, Error>)
        ensures
            exists|identity: PublicIdentity|
                (made is Ok <==> (#[trigger] identity.spec_index()) is Some) && (made is Ok
                    ==> made->Ok_0@.protocol.identity == identity),
            made is Ok ==> made->Ok_0@.link_id is None,
            made is Ok ==> made->Ok_0@.protocol.identity.spec_index() == Some(
                made->Ok_0@.protocol.index,
            ),
            made is Ok ==> made->Ok_0@.protocol == Instance::fresh(
                sid,
                made->Ok_0@.protocol.identity,
                made->Ok_0@.protocol.index,
                labels,
            ),
            made is Err ==> made->Err_0 == Error::UnindexedIdentity,
    {
        let protocol = LOCD::new(sid, labels);
        let ghost identity = choose|identity: PublicIdentity|
            (protocol is Ok <==> (#[trigger] identity.spec_index()) is Some) && (protocol is Ok
                ==> protocol->Ok_0@.identity == identity);
        let made = match protocol {
            Ok(protocol) => Ok(LOCDService { link_id: None, protocol }),
            Err(e) => Err(e),
        };
        assert((made is Ok <==> identity.spec_index() is Some) && (made is Ok
            ==> made->Ok_0@.protocol.identity == identity));
        made
    }

    /// A service around an instance that exists already.
    pub fn around(protocol: LOCD) -> (service: LOCDService)
        ensures
            service@ == (ServiceView { link_id: None, protocol: protocol@ }),
    {
        LOCDService { link_id: None, protocol }
    }

    /// Wires the instance to the link `link_id`. Peering again replaces the
    /// wiring: one instance serves one transport peer, the last one named.
    pub fn peer_with_link(&mut self, link_id: LinkId)
        ensures
            final(self)@ == (ServiceView {
                link_id: Some(link_id),
                protocol: old(self)@.protocol.peered(link_id),
            }),
    {
        self.link_id = Some(link_id);
        self.protocol.peer_with_link(link_id);
    }

    /// The link the service was last peered with.
    pub fn link_id(&self) -> (link_id: Option<LinkId>)
        ensures
            link_id == self@.link_id,
    {
        self.link_id
    }

    /// The instance behind the facade.
    pub fn protocol(&self) -> (protocol: &LOCD)
        ensures
            protocol@ == self@.protocol,
    {
        &self.protocol
    }

    /// The request that pings `identity`; see [`LOCD::cyphertext_ping`].
    pub fn ping(&self, identity: PublicIdentity) -> (request: Result<HBFI, Error>)
        ensures
            request == if !self@.protocol.is_peered() {
                Err::<HBFI, Error>(Error::NotPeered)
            } else if identity.spec_index() is None {
                Err(Error::UnindexedIdentity)
            } else {
                Ok(self@.protocol.ping_request(identity.spec_index()->Some_0))
            },
    {
        self.protocol.cyphertext_ping(identity)
    }

    /// Whether a worker may be started: only once the service is peered
    /// with a link.
    pub fn run(&self) -> (started: Result<(), Error>)
        ensures
            started is Ok <==> self@.protocol.is_peered(),
            started is Err ==> started->Err_0 == Error::NotPeered,
    {
        self.protocol.run()
    }

    /// One step of the instance's dispatcher; see [`LOCD::step`].
    pub fn step(&mut self, event: Event) -> (action: Result<Action, Error>)
        ensures
            action is Ok <==> old(self)@.protocol.is_peered() && !old(self)@.protocol.halted,
            action is Ok ==> step_allows(
                old(self)@.protocol,
                event@,
                final(self)@.protocol,
                action->Ok_0@,
            ),
            action is Err ==> final(self)@ == old(self)@,
            action is Err ==> action->Err_0 == if old(self)@.protocol.is_peered() {
                Error::Terminated
            } else {
                Error::NotPeered
            },
            final(self)@.link_id == old(self)@.link_id,
    {
        self.protocol.step(event)
    }

    /// Whether the instance takes commands: `None` where it does, else the
    /// failure. A command is an operation of the instance, so it needs the
    /// instance peered, and its worker alive.
    pub fn refusal(&self) -> (refused: Option<Error>)
        ensures
            refused == command_refusal(self@.protocol),
    {
        match self.protocol.run() {
            Err(_) => Some(Error::NotPeered),
            Ok(_) => if self.protocol.is_halted() {
                Some(Error::Terminated)
            } else {
                None
            },
        }
    }

    /// Answers a command with the commitment `digest`: the identifier comes
    /// back unchanged, with the digest as the secret's response. An
    /// instance that is not peered, or whose worker has terminated, answers
    /// no command and does not change.
    pub fn answer_command(&mut self, hbfi: HBFI, request: Request, digest: [u8; 32]) -> (answer:
        Result<(HBFI, Response), Error>)
        ensures
            match command_refusal(old(self)@.protocol) {
                Some(error) => answer == Err::<(HBFI, Response), Error>(error) && final(self)@
                    == old(self)@,
                None => {
                    &&& answer matches Ok((back, Response::Secret(bytes)))
                    &&& back == hbfi
                    &&& bytes@ == digest@
                    &&& bytes@.len() == 32
                    &&& final(self)@ == (ServiceView {
                        protocol: command_outcome(old(self)@.protocol, request->Secret_0),
                        ..old(self)@
                    })
                },
            },
    {
        match self.refusal() {
            Some(error) => Err(error),
            None => match request {
                Request::Secret(peer) => {
                    let bytes = self.protocol.commit_secret_to(peer.index(), digest);
                    Ok((hbfi, Response::Secret(bytes)))
                },
            },
        }
    }

    /// Handles one command of the application without going over the
    /// transport: commits to a fresh secret for the peer that the command
    /// names, and answers with the commitment under the same identifier. An
    /// instance that is not peered, or whose worker has terminated, answers
    /// no command and does not change.
    pub fn command(&mut self, hbfi: HBFI, request: Request) -> (answer: Result<
        (HBFI, Response),
        Error,
    >)
        ensures
            match command_refusal(old(self)@.protocol) {
                Some(error) => answer == Err::<(HBFI, Response), Error>(error) && final(self)@
                    == old(self)@,
                None => {
                    &&& answer matches Ok((back, Response::Secret(bytes)))
                    &&& back == hbfi
                    &&& bytes@.len() == 32
                    &&& is_commitment(bytes@)
                    &&& final(self)@ == (ServiceView {
                        protocol: command_outcome(old(self)@.protocol, request->Secret_0),
                        ..old(self)@
                    })
                },
            },
    {
        match self.refusal() {
            Some(error) => Err(error),
            None => {
                let (_secret, digest) = secret_generate();
                self.answer_command(hbfi, request, digest)
            },
        }
    }
}

} // verus!
