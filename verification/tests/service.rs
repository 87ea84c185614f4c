use copernica_packets::PrivateIdentityInterface;
use locd::error::Error;
use locd::filter::{Label, Labels};
use locd::hbfi::HBFI;
use locd::identity::PublicIdentity;
use locd::negotiation::NegotiationState;
use locd::packet::NarrowWaistPacket;
use locd::protocol::{Action, Event, LinkId, Sealing, LOCD};
use locd::service::LOCDService;
use locd::signals::{Request, Response};

fn service_labels() -> Labels {
    Labels {
        app: 100,
        module: 200,
        ping: Label { function: 1, argument: 1 },
        secret: Label { function: 2, argument: 20 },
        contract_details: Label { function: 3, argument: 30 },
        counter_offer: Label { function: 4, argument: 40 },
        nested_request: Label { function: 5, argument: 50 },
    }
}

fn service() -> LOCDService {
    LOCDService::new(PrivateIdentityInterface::new_key(), service_labels()).unwrap()
}

fn some_hbfi() -> HBFI {
    HBFI {
        responder_index: 9,
        requester_index: Some(7),
        app: 100,
        module: 200,
        function: 2,
        argument: 20,
        offset: 0,
        window: 0,
    }
}

#[test]
fn service_must_peer_before_it_runs_or_pings() {
    let mut service = service();
    assert_eq!(service.link_id(), None);
    assert_eq!(service.run(), Err(Error::NotPeered));
    assert_eq!(service.ping(PublicIdentity { key: [3u8; 64] }), Err(Error::NotPeered));
    assert_eq!(service.step(Event::Fault), Err(Error::NotPeered));

    service.peer_with_link(LinkId { id: 4 });
    assert_eq!(service.link_id(), Some(LinkId { id: 4 }));
    assert_eq!(service.run(), Ok(()));
    service.peer_with_link(LinkId { id: 5 });
    assert_eq!(service.link_id(), Some(LinkId { id: 5 }));
}

#[test]
fn service_ping_builds_the_encrypted_ping_request() {
    let mut service = service();
    service.peer_with_link(LinkId { id: 4 });
    let other = PublicIdentity { key: [3u8; 64] };
    assert_eq!(
        service.ping(other),
        Ok(HBFI {
            responder_index: other.index().unwrap(),
            requester_index: Some(service.protocol().get_index()),
            app: 100,
            module: 200,
            function: 1,
            argument: 1,
            offset: 0,
            window: 0,
        })
    );
}

#[test]
fn command_yields_one_secret_response_of_32_bytes_under_the_same_hbfi() {
    let mut service = service();
    service.peer_with_link(LinkId { id: 4 });
    let h = some_hbfi();
    let peer = PublicIdentity { key: [7u8; 64] };
    let (back, response) = service.command(h, Request::Secret(peer)).unwrap();
    assert_eq!(back, h);
    let first = match response {
        Response::Secret(bytes) => bytes,
    };
    assert_eq!(first.len(), 32);
    let (_, again) = service.command(h, Request::Secret(peer)).unwrap();
    assert_ne!(again, Response::Secret(first));
    assert_eq!(
        service.protocol().negotiation_state(peer.index().unwrap()),
        NegotiationState::SecretSent
    );
}

#[test]
fn answer_command_hands_out_the_digest() {
    let mut service = service();
    service.peer_with_link(LinkId { id: 4 });
    let h = some_hbfi();
    let digest = [7u8; 32];
    assert_eq!(service.refusal(), None);
    assert_eq!(
        service.answer_command(h, Request::Secret(PublicIdentity { key: [7u8; 64] }), digest),
        Ok((h, Response::Secret(vec![7u8; 32])))
    );
}

#[test]
fn command_before_peering_is_refused() {
    let mut service = service();
    let peer = PublicIdentity { key: [7u8; 64] };
    assert_eq!(service.refusal(), Some(Error::NotPeered));
    assert_eq!(service.command(some_hbfi(), Request::Secret(peer)), Err(Error::NotPeered));
    assert_eq!(
        service.answer_command(some_hbfi(), Request::Secret(peer), [7u8; 32]),
        Err(Error::NotPeered)
    );
    assert_eq!(
        service.protocol().negotiation_state(peer.index().unwrap()),
        NegotiationState::Initial
    );
}

#[test]
fn command_after_the_worker_died_is_refused() {
    let mut service = service();
    service.peer_with_link(LinkId { id: 4 });
    let peer = PublicIdentity { key: [7u8; 64] };
    assert_eq!(service.step(Event::Fault), Ok(Action::Halt));
    assert_eq!(service.refusal(), Some(Error::Terminated));
    assert_eq!(service.command(some_hbfi(), Request::Secret(peer)), Err(Error::Terminated));
    assert_eq!(
        service.answer_command(some_hbfi(), Request::Secret(peer), [7u8; 32]),
        Err(Error::Terminated)
    );
    assert_eq!(
        service.protocol().negotiation_state(peer.index().unwrap()),
        NegotiationState::Initial
    );
}

#[test]
fn service_steps_its_instance() {
    let locd = LOCD::new(PrivateIdentityInterface::new_key(), service_labels()).unwrap();
    let own = locd.get_index();
    let mut service = LOCDService::around(locd);
    service.peer_with_link(LinkId { id: 4 });
    let h = HBFI { responder_index: own, function: 1, argument: 1, ..some_hbfi() };
    assert_eq!(
        service.step(Event::Packet(NarrowWaistPacket::Request { hbfi: h, window_metadata: 0 })),
        Ok(Action::Respond {
            hbfi: h,
            payload: vec![4, 0, 0, 0, 0, 0, 0, 0, b'p', b'i', b'n', b'g'],
            sealing: Sealing::Cyphertext,
        })
    );
    assert_eq!(service.step(Event::Fault), Ok(Action::Halt));
    assert_eq!(service.step(Event::Fault), Err(Error::Terminated));
}
