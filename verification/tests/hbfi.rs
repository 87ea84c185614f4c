use locd::error::Error;
use locd::filter::{
    Filter, Handler, Label, Labels, APP_NAME, ARG_AMOUNT, ARG_COUNTER_OFFER, ARG_PING,
    ARG_REQUEST, ARG_SECRET, FUN_PEER, FUN_PING, MOD_HTLC,
};
use locd::hbfi::HBFI;
use locd::identity::PublicIdentity;
use locd::index::index_of;

fn labels() -> Labels {
    Labels {
        app: 100,
        module: 200,
        ping: Label { function: 1, argument: 1 },
        secret: Label { function: 2, argument: 20 },
        contract_details: Label { function: 3, argument: 30 },
        counter_offer: Label { function: 4, argument: 40 },
        nested_request: Label { function: 5, argument: 50 },
    }
}

fn plain() -> HBFI {
    HBFI {
        responder_index: 9,
        requester_index: None,
        app: 1,
        module: 2,
        function: 3,
        argument: 4,
        offset: 0,
        window: 0,
    }
}

#[test]
fn new_builds_the_identifier_of_a_fresh_exchange() {
    let requester = PublicIdentity { key: [1u8; 64] };
    let responder = PublicIdentity { key: [2u8; 64] };
    let made = HBFI::new(Some(requester), responder, "locd", "htlc", "ping", "9");
    assert_eq!(
        made,
        Ok(HBFI {
            responder_index: responder.index().unwrap(),
            requester_index: Some(requester.index().unwrap()),
            app: index_of("locd").unwrap(),
            module: index_of("htlc").unwrap(),
            function: index_of("ping").unwrap(),
            argument: 5427898550962141346,
            offset: 0,
            window: 0,
        })
    );
    assert_ne!(responder.index(), requester.index());
}

#[test]
fn new_without_requester_is_anonymous() {
    let responder = PublicIdentity { key: [2u8; 64] };
    let made = HBFI::new(None, responder, "a", "b", "c", "d").unwrap();
    assert_eq!(made.requester_index, None);
    assert_eq!(made.responder_index, responder.index().unwrap());
    assert_eq!(made.offset, 0);
    assert_eq!(made.window, 0);
}

#[test]
fn same_request_ignores_requester_offset_and_window() {
    let a = plain();
    let b = HBFI { requester_index: Some(5), ..a.at(3, 8) };
    assert!(a.is_same_request(&b));
    assert_ne!(a, b);
    assert_eq!(a.at(3, 8).offset, 3);
    assert_eq!(a.at(3, 8).window, 8);
}

#[test]
fn same_request_needs_all_five_indices() {
    let a = plain();
    assert!(!a.is_same_request(&HBFI { responder_index: 10, ..a }));
    assert!(!a.is_same_request(&HBFI { app: 10, ..a }));
    assert!(!a.is_same_request(&HBFI { module: 10, ..a }));
    assert!(!a.is_same_request(&HBFI { function: 10, ..a }));
    assert!(!a.is_same_request(&HBFI { argument: 10, ..a }));
}

#[test]
fn filter_matches_iff_responder_app_and_module_agree() {
    let filter = Filter { responder_index: 9, app: 100, module: 200 };
    let h = HBFI { app: 100, module: 200, ..plain() };
    assert!(filter.matches(&h));
    assert!(!filter.matches(&HBFI { responder_index: 8, ..h }));
    assert!(!filter.matches(&HBFI { app: 101, ..h }));
    assert!(!filter.matches(&HBFI { module: 201, ..h }));
    assert!(filter.matches(&HBFI { function: 77, argument: 78, offset: 1, window: 2, ..h }));
    assert!(filter.matches(&HBFI { requester_index: Some(1), ..h }));
}

#[test]
fn filter_matches_what_new_builds_for_its_labels() {
    let responder = PublicIdentity { key: [2u8; 64] };
    let other = PublicIdentity { key: [3u8; 64] };
    let filter = Filter {
        responder_index: responder.index().unwrap(),
        app: index_of(APP_NAME).unwrap(),
        module: index_of(MOD_HTLC).unwrap(),
    };
    let build = |pid, app, module| HBFI::new(None, pid, app, module, FUN_PING, ARG_PING).unwrap();
    assert!(filter.matches(&build(responder, APP_NAME, MOD_HTLC)));
    assert!(!filter.matches(&build(other, APP_NAME, MOD_HTLC)));
    assert!(!filter.matches(&build(responder, "other", MOD_HTLC)));
    assert!(!filter.matches(&build(responder, APP_NAME, "other")));
}

#[test]
fn label_matches_function_and_argument() {
    let label = Label { function: 3, argument: 4 };
    let h = plain();
    assert!(label.matches(&h));
    assert!(!label.matches(&HBFI { function: 4, ..h }));
    assert!(!label.matches(&HBFI { argument: 3, ..h }));
}

#[test]
fn label_new_reduces_both_names() {
    assert_eq!(
        Label::new("ping", "9"),
        Ok(Label { function: index_of("ping").unwrap(), argument: 5427898550962141346 })
    );
}

#[test]
fn standard_labels_are_the_indices_of_the_protocol_names() {
    let l = Labels::standard().unwrap();
    let i = |name| index_of(name).unwrap();
    assert_eq!(APP_NAME, "locd");
    assert_eq!(MOD_HTLC, "htlc");
    assert_eq!(FUN_PEER, "peer");
    assert_eq!(FUN_PING, "ping");
    assert_eq!(ARG_PING, "ping");
    assert_eq!(l.app, i("locd"));
    assert_eq!(l.module, i("htlc"));
    assert_eq!(l.ping, Label { function: i("ping"), argument: i("ping") });
    assert_eq!(l.secret, Label { function: i("peer"), argument: i(ARG_SECRET) });
    assert_eq!(l.contract_details, Label { function: i("peer"), argument: i(ARG_AMOUNT) });
    assert_eq!(l.counter_offer, Label { function: i("peer"), argument: i(ARG_COUNTER_OFFER) });
    assert_eq!(l.nested_request, Label { function: i("peer"), argument: i(ARG_REQUEST) });
}

#[test]
fn select_picks_the_handler_of_each_label() {
    let l = labels();
    let h = HBFI { app: 100, module: 200, function: 0, argument: 0, ..plain() };
    assert_eq!(l.select(&HBFI { function: 1, argument: 1, ..h }), Some(Handler::Ping));
    assert_eq!(l.select(&HBFI { function: 2, argument: 20, ..h }), Some(Handler::Secret));
    assert_eq!(l.select(&HBFI { function: 3, argument: 30, ..h }), Some(Handler::ContractDetails));
    assert_eq!(l.select(&HBFI { function: 4, argument: 40, ..h }), Some(Handler::CounterOffer));
    assert_eq!(l.select(&HBFI { function: 5, argument: 50, ..h }), Some(Handler::NestedRequest));
    assert_eq!(l.select(&HBFI { function: 2, argument: 30, ..h }), None);
    assert_eq!(l.select(&h), None);
}

#[test]
fn select_tells_the_standard_handlers_apart() {
    let l = Labels::standard().unwrap();
    let pid = PublicIdentity { key: [2u8; 64] };
    let h = |function, argument| HBFI::new(None, pid, APP_NAME, MOD_HTLC, function, argument)
        .unwrap();
    assert_eq!(l.select(&h(FUN_PING, ARG_PING)), Some(Handler::Ping));
    assert_eq!(l.select(&h(FUN_PEER, ARG_SECRET)), Some(Handler::Secret));
    assert_eq!(l.select(&h(FUN_PEER, ARG_AMOUNT)), Some(Handler::ContractDetails));
    assert_eq!(l.select(&h(FUN_PEER, ARG_COUNTER_OFFER)), Some(Handler::CounterOffer));
    assert_eq!(l.select(&h(FUN_PEER, ARG_REQUEST)), Some(Handler::NestedRequest));
    assert_eq!(l.select(&h(FUN_PING, ARG_SECRET)), None);
}

#[test]
fn select_prefers_the_earlier_handler_on_a_collision() {
    let same = Label { function: 6, argument: 6 };
    let l = Labels { secret: same, contract_details: same, nested_request: same, ..labels() };
    let h = HBFI { function: 6, argument: 6, ..plain() };
    assert_eq!(l.select(&h), Some(Handler::Secret));
}

#[test]
fn error_messages() {
    assert_eq!(Error::NotPeered.message(), "You must peer with a link first");
    assert_eq!(Error::Terminated.message(), "The worker has terminated");
    assert_eq!(Error::UnindexedLabel.message(), "A label has no filter index");
    assert_eq!(Error::UnindexedIdentity.message(), "An identity has no filter index");
    assert_eq!(Error::MalformedEcho.message(), "An echoed chunk is malformed");
}
