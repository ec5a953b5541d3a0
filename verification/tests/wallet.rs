//! The wallet connect client.
use nostr::nips::nip44;
use nostr_ln::event::{Heard, Incoming, Signal};
use nostr_ln::keys::PublicKey;
use nostr_ln::link::{Dial, Dialed};
use nostr_ln::nnc::{ErrorCode, NncError, ResultError};
use nostr_ln::nwc::client::{
    read_answer, read_notification, read_outcome, Act, Awaited, Error, Exchange, Happened,
    Listened, OpenAct, OpenStage, Stage, Tried, Verdict, WalletConnect, WalletUri,
};
use nostr_ln::nwc::WalletNotificationType;
use nostr_ln::time::Timer;
use serde_json::Value;
use std::time::Duration;

const CLIENT: &str = "0000000000000000000000000000000000000000000000000000000000000001";
const WALLET: &str = "0000000000000000000000000000000000000000000000000000000000000002";
const STRANGER: &str = "0000000000000000000000000000000000000000000000000000000000000003";

fn keys(secret: &str) -> nostr::Keys {
    nostr::Keys::parse(secret).unwrap()
}

fn public(secret: &str) -> PublicKey {
    PublicKey { bytes: keys(secret).public_key().to_bytes() }
}

fn value(text: &str) -> Value {
    serde_json::from_str(text).unwrap()
}

fn wallet() -> WalletConnect {
    let text = format!(
        "nostr+walletconnect://{}?relay=wss://a&relay=wss://b&secret={CLIENT}",
        keys(WALLET).public_key().to_hex()
    );
    WalletConnect::new(WalletUri::from_str(&text).unwrap())
}

fn sealed_by(secret: &str, text: &str) -> String {
    let to = keys(CLIENT).public_key();
    nip44::encrypt(keys(secret).secret_key(), &to, text, nip44::Version::default()).unwrap()
}

fn answer(author: &str, kind: u16, id: &str, text: &str) -> Incoming {
    Incoming {
        kind,
        author: public(author),
        tags: vec![
            vec!["p".to_string(), keys(CLIENT).public_key().to_hex()],
            vec!["e".to_string(), id.to_string()],
        ],
        content: sealed_by(author, text),
    }
}

/// A request that has been published and waits, with the id of its event.
fn waiting(w: &WalletConnect) -> (Exchange, String) {
    let mut x = w.call_raw("get_info", value("{}"));
    assert!(matches!(w.step(&mut x, Happened::Done), Act::Listen));
    assert!(matches!(w.step(&mut x, Happened::Done), Act::Publish));
    assert!(matches!(w.step(&mut x, Happened::Done), Act::Wait));
    let id = x.sent.as_ref().unwrap().id.clone();
    (x, id)
}

#[test]
fn a_request_carries_the_method_to_the_wallet() {
    let w = wallet();
    let out = w.request("no_such_method", value(r#"{"amount":5}"#)).unwrap();
    let event = &out.event;
    assert_eq!(event.kind.as_u16(), 23194);
    assert_eq!(event.pubkey, keys(CLIENT).public_key());
    assert_eq!(out.id, event.id.to_hex());
    event.verify().unwrap();
    let tags: Vec<Vec<String>> = event.tags.iter().map(|t| t.as_slice().to_vec()).collect();
    assert_eq!(tags, vec![vec!["p".to_string(), keys(WALLET).public_key().to_hex()]]);
    let plain = nip44::decrypt(keys(WALLET).secret_key(), &event.pubkey, &event.content).unwrap();
    assert_eq!(plain, r#"{"method":"no_such_method","params":{"amount":5}}"#);
}

#[test]
fn the_relays_are_asked_and_listened_to_before_the_request_is_published() {
    let w = wallet();
    let mut x = w.call_raw("get_info", value("{}"));
    assert_eq!(x.stage, Stage::Subscribing);
    assert!(x.sent.is_none());
    let first = w.step(&mut x, Happened::Heard(Heard::Other));
    match first {
        Act::Subscribe(f) => {
            assert_eq!(f.kind, 23195);
            assert_eq!(f.to.bytes, public(CLIENT).bytes);
        }
        _ => panic!("the relays come first"),
    }
    assert!(matches!(w.step(&mut x, Happened::Done), Act::Listen));
    assert!(x.sent.is_some());
    assert!(matches!(w.step(&mut x, Happened::Done), Act::Publish));
    assert_eq!(x.stage, Stage::Publishing);
    assert!(matches!(w.step(&mut x, Happened::Done), Act::Wait));
    assert_eq!(x.stage, Stage::Waiting);
}

#[test]
fn the_wallets_answer_ends_a_request() {
    let w = wallet();
    let (mut x, id) = waiting(&w);
    let e = answer(WALLET, 23195, &id, r#"{"result_type":"get_info","result":{"alias":"x"}}"#);
    match w.step(&mut x, Happened::Heard(Heard::Event(e))) {
        Act::Finish(Ok(v)) => assert_eq!(v, value(r#"{"alias":"x"}"#)),
        _ => panic!("an answer ends the request"),
    }
    assert_eq!(x.stage, Stage::Done);
    assert!(matches!(w.step(&mut x, Happened::Done), Act::Rest));
}

#[test]
fn what_is_no_answer_to_the_request_is_passed_over() {
    let w = wallet();
    let (mut x, id) = waiting(&w);
    let text = r#"{"result":1}"#;
    for e in [
        answer(STRANGER, 23195, &id, text),
        answer(WALLET, 23197, &id, text),
        answer(WALLET, 23195, "00", text),
    ] {
        assert!(matches!(w.step(&mut x, Happened::Heard(Heard::Event(e))), Act::Wait));
    }
    let bare = Incoming {
        kind: 23195,
        author: public(WALLET),
        tags: vec![vec!["e".to_string()], vec![], vec!["a".to_string(), id.clone()]],
        content: sealed_by(WALLET, text),
    };
    assert!(matches!(w.step(&mut x, Happened::Heard(Heard::Event(bare))), Act::Wait));
    assert!(matches!(w.step(&mut x, Happened::Heard(Heard::Other)), Act::Wait));
    assert_eq!(x.stage, Stage::Waiting);
}

#[test]
fn time_runs_out() {
    for heard in [Heard::Late, Heard::Elapsed] {
        let w = wallet();
        let (mut x, _) = waiting(&w);
        match w.step(&mut x, Happened::Heard(heard)) {
            Act::Finish(Err(e)) => {
                assert!(matches!(e, Error::TimedOut(d) if d == Duration::from_secs(30)));
                assert_eq!(e.to_text(), "no response within 30s");
            }
            _ => panic!("the wait is over"),
        }
    }
}

#[test]
fn the_timeout_can_be_set() {
    let w = wallet().with_timeout(Duration::from_millis(1500));
    let out = w.hear("00", Heard::Late);
    match out {
        Some(Err(e)) => assert_eq!(e.to_text(), "no response within 1.5s"),
        _ => panic!("the wait is over"),
    }
}

#[test]
fn a_relay_that_fails_ends_a_request() {
    let w = wallet();
    let mut x = w.call_raw("get_info", value("{}"));
    match w.step(&mut x, Happened::Failed("down".to_string())) {
        Act::Finish(Err(e)) => assert_eq!(e.to_text(), "relay: down"),
        _ => panic!("a failure ends the request"),
    }
    let mut y = w.call_raw("get_info", value("{}"));
    w.step(&mut y, Happened::Done);
    w.step(&mut y, Happened::Done);
    match w.step(&mut y, Happened::Failed("rejected".to_string())) {
        Act::Finish(Err(Error::Relay(e))) => assert_eq!(e, "rejected"),
        _ => panic!("a failure ends the request"),
    }
    assert_eq!(y.stage, Stage::Done);
}

#[test]
fn an_answer_that_does_not_open_is_the_signers_error() {
    let w = wallet();
    let (mut x, id) = waiting(&w);
    let mut e = answer(WALLET, 23195, &id, r#"{"result":1}"#);
    e.content = "not sealed".to_string();
    match w.step(&mut x, Happened::Heard(Heard::Event(e))) {
        Act::Finish(Err(e)) => {
            assert!(matches!(e, Error::Signer(_)));
            assert!(e.to_text().starts_with("signer: "));
            assert!(e.to_text().len() > "signer: ".len());
        }
        _ => panic!("the answer ends the request"),
    }
}

#[test]
fn a_request_that_is_too_long_is_the_signers_error() {
    let w = wallet();
    let long = Value::String("x".repeat(70_000));
    assert!(matches!(w.request("m", long.clone()), Err(Error::Signer(_))));
    let mut x = w.call_raw("m", long);
    assert!(matches!(w.step(&mut x, Happened::Done), Act::Finish(Err(Error::Signer(_)))));
    assert_eq!(x.stage, Stage::Done);
}

#[test]
fn a_refusal_carries_its_code_and_message() {
    let text = r#"{"error":{"code":"RESTRICTED","message":"no"},"result":1}"#;
    match read_answer(text) {
        Err(e) => {
            assert!(matches!(&e, Error::Refused(r) if matches!(r.code, ErrorCode::Restricted)));
            assert_eq!(e.to_text(), "the wallet refused: RESTRICTED: no");
        }
        Ok(_) => panic!("an error is a refusal"),
    }
}

#[test]
fn a_null_error_is_no_refusal() {
    assert_eq!(read_answer(r#"{"error":null,"result":[1]}"#).unwrap(), value("[1]"));
    assert_eq!(read_answer(r#"{"result":null}"#).unwrap(), Value::Null);
    assert_eq!(read_answer(r#"{}"#).unwrap(), Value::Null);
    assert_eq!(read_outcome(value("3")).unwrap(), Value::Null);
}

#[test]
fn a_malformed_answer_is_a_json_error() {
    match read_answer("{") {
        Err(e) => {
            let text = serde_json::from_str::<Value>("{").unwrap_err().to_string();
            assert_eq!(e.to_text(), format!("json: {text}"));
        }
        Ok(_) => panic!("this is no JSON"),
    }
    match read_answer(r#"{"error":{"code":"OTHER"}}"#) {
        Err(e) => assert_eq!(e.to_text(), "json: missing field `message`"),
        Ok(_) => panic!("an error without a message is malformed"),
    }
    assert!(matches!(read_answer(r#"{"error":{"code":1,"message":"m"}}"#), Err(Error::Json(_))));
    match read_answer(r#"{"error":{"message":"m"}}"#) {
        Err(e) => assert_eq!(e.to_text(), "json: missing field `code`"),
        Ok(_) => panic!("an error without a code is malformed"),
    }
    match read_answer(r#"{"error":"no"}"#) {
        Err(e) => {
            assert!(matches!(e, Error::Json(_)));
            assert!(!e.to_text().contains("missing field"));
        }
        Ok(_) => panic!("an error that is no object is malformed"),
    }
}

#[test]
fn each_error_has_its_words() {
    let refused = Error::Refused(NncError {
        code: ErrorCode::read("QUOTA_EXCEEDED"),
        message: "enough".to_string(),
    });
    assert_eq!(refused.to_text(), "the wallet refused: QUOTA_EXCEEDED: enough");
    let result = Error::Result(ResultError { text: "wrong type".to_string() });
    assert_eq!(result.to_text(), "wrong type");
    let json = serde_json::from_str::<Value>("nope").unwrap_err();
    let text = json.to_string();
    assert_eq!(Error::from(json).to_text(), format!("json: {text}"));
}

#[test]
fn the_relays_are_added_in_order_and_then_connected_to() {
    let mut w = wallet();
    let first = w.bootstrap();
    assert_eq!(first, Dial::Add(0));
    let second = w.dialed(first, Dialed::Added).unwrap();
    assert_eq!(second, Dial::Add(1));
    let third = w.dialed(second, Dialed::Added).unwrap();
    assert_eq!(third, Dial::Connect);
    assert!(!w.connected);
    assert_eq!(w.dialed(third, Dialed::Connected).unwrap(), Dial::Ready);
    assert!(w.connected);
    assert_eq!(w.bootstrap(), Dial::Ready);
}

#[test]
fn a_relay_that_is_refused_ends_the_attempt() {
    let mut w = wallet();
    let at = w.bootstrap();
    match w.dialed(at, Dialed::Refused("bad url".to_string())) {
        Err(e) => assert_eq!(e.to_text(), "relay: bad url"),
        Ok(_) => panic!("the attempt is over"),
    }
    assert!(!w.connected);
    assert_eq!(w.bootstrap(), Dial::Add(0));
}

#[test]
fn notifications_are_subscribed_to_before_they_are_read() {
    let w = wallet();
    let types = vec![
        WalletNotificationType::HoldInvoiceAccepted,
        WalletNotificationType::Unknown("odd".to_string()),
    ];
    let mut o = w.notifications(&types).unwrap();
    assert_eq!(o.stage, OpenStage::Publishing);
    let event = &o.subscription.event;
    assert_eq!(event.kind.as_u16(), 30199);
    let hex = keys(WALLET).public_key().to_hex();
    let tags: Vec<Vec<String>> = event.tags.iter().map(|t| t.as_slice().to_vec()).collect();
    assert_eq!(
        tags,
        vec![vec!["d".to_string(), hex.clone()], vec!["p".to_string(), hex]]
    );
    let plain = nip44::decrypt(keys(WALLET).secret_key(), &event.pubkey, &event.content).unwrap();
    assert_eq!(plain, r#"["hold_invoice_accepted","odd"]"#);

    assert!(matches!(w.open_step(&mut o, Tried::Done), OpenAct::Pause(500)));
    match w.open_step(&mut o, Tried::Done) {
        OpenAct::Subscribe(f) => {
            assert_eq!(f.kind, 23197);
            assert_eq!(f.to.bytes, public(CLIENT).bytes);
        }
        _ => panic!("the relays are asked next"),
    }
    assert!(matches!(w.open_step(&mut o, Tried::Done), OpenAct::Read(_)));
    assert_eq!(o.stage, OpenStage::Open);
    assert!(matches!(w.open_step(&mut o, Tried::Done), OpenAct::Rest));
}

#[test]
fn asking_for_nothing_is_an_empty_list() {
    let w = wallet();
    let o = w.notifications(&vec![]).unwrap();
    let event = &o.subscription.event;
    let plain = nip44::decrypt(keys(WALLET).secret_key(), &event.pubkey, &event.content).unwrap();
    assert_eq!(plain, "[]");
}

#[test]
fn a_subscription_that_is_not_published_is_a_relay_error() {
    let w = wallet();
    let mut o = w.notifications(&vec![]).unwrap();
    match w.open_step(&mut o, Tried::Failed("full".to_string())) {
        OpenAct::Fail(e) => assert_eq!(e.to_text(), "relay: full"),
        _ => panic!("the opening is over"),
    }
    assert_eq!(o.stage, OpenStage::Failed);
    assert!(matches!(w.open_step(&mut o, Tried::Done), OpenAct::Rest));
}

#[test]
fn notifications_of_the_wallet_are_read_and_others_passed_over() {
    let w = wallet();
    let mut o = w.notifications(&vec![]).unwrap();
    w.open_step(&mut o, Tried::Done);
    w.open_step(&mut o, Tried::Done);
    let n = match w.open_step(&mut o, Tried::Done) {
        OpenAct::Read(n) => n,
        _ => panic!("the notifications are open"),
    };
    let text = r#"{"notification_type":"payment_sent","notification":{"amount":7}}"#;
    match n.next(Signal::Event(answer(WALLET, 23197, "", text))) {
        Listened::Got(n) => {
            assert!(matches!(n.notification_type, WalletNotificationType::PaymentSent));
            assert_eq!(n.notification, value(r#"{"amount":7}"#));
        }
        _ => panic!("this is a notification"),
    }
    assert!(matches!(
        n.next(Signal::Event(answer(STRANGER, 23197, "", text))),
        Listened::Again
    ));
    assert!(matches!(
        n.next(Signal::Event(answer(WALLET, 23195, "", text))),
        Listened::Again
    ));
    assert!(matches!(
        n.next(Signal::Event(answer(WALLET, 23197, "", "no JSON"))),
        Listened::Again
    ));
    assert!(matches!(n.next(Signal::Other), Listened::Again));
    assert!(matches!(n.next(Signal::Ended), Listened::End));
}

#[test]
fn a_notification_that_does_not_open_is_passed_over() {
    let w = wallet();
    let mut o = w.notifications(&vec![]).unwrap();
    w.open_step(&mut o, Tried::Done);
    w.open_step(&mut o, Tried::Done);
    let n = match w.open_step(&mut o, Tried::Done) {
        OpenAct::Read(n) => n,
        _ => panic!("the notifications are open"),
    };
    let text = r#"{"notification_type":"payment_sent","notification":1}"#;
    let mut garbled = answer(WALLET, 23197, "", text);
    garbled.content = "garbled".to_string();
    assert!(matches!(n.next(Signal::Event(garbled)), Listened::Again));
    let next = n.next(Signal::Event(answer(WALLET, 23197, "", text)));
    assert!(matches!(next, Listened::Got(_)));
}

#[test]
fn deliveries_that_are_no_answer_do_not_change_the_outcome() {
    let w = wallet();
    let text = r#"{"result":{"alias":"x"}}"#;
    for extra in [0usize, 1, 5] {
        let (mut x, id) = waiting(&w);
        for i in 0..extra {
            let other = match i % 3 {
                0 => answer(STRANGER, 23195, &id, r#"{"result":1}"#),
                1 => answer(WALLET, 23197, &id, r#"{"result":2}"#),
                _ => answer(WALLET, 23195, "00", r#"{"result":3}"#),
            };
            assert!(matches!(w.step(&mut x, Happened::Heard(Heard::Event(other))), Act::Wait));
        }
        let right = answer(WALLET, 23195, &id, text);
        match w.step(&mut x, Happened::Heard(Heard::Event(right))) {
            Act::Finish(Ok(v)) => assert_eq!(v, value(r#"{"alias":"x"}"#)),
            _ => panic!("the first answer decides"),
        }
        let second = answer(WALLET, 23195, &id, r#"{"result":4}"#);
        assert!(matches!(w.step(&mut x, Happened::Heard(Heard::Event(second))), Act::Rest));
    }
}

#[test]
fn the_first_act_of_a_request_and_of_an_opening_is_said() {
    let w = wallet();
    let x = w.send("get_info", value("{}"));
    match w.act(&x) {
        Act::Subscribe(f) => {
            assert_eq!(f.kind, 23195);
            assert_eq!(f.to.bytes, public(CLIENT).bytes);
        }
        _ => panic!("the relays come first"),
    }
    let mut o = w.notifications(&vec![]).unwrap();
    assert!(matches!(w.open_act(&o), OpenAct::Publish));
    w.open_step(&mut o, Tried::Done);
    assert!(matches!(w.open_act(&o), OpenAct::Pause(500)));
}

#[test]
fn a_wait_has_one_deadline() {
    let w = wallet();
    let mut wait = w.wait();
    let at = Duration::from_secs;
    assert_eq!(wait.left(at(100)), Some(at(30)));
    assert_eq!(wait.left(at(110)), Some(at(20)));
    assert_eq!(wait.left(Duration::from_millis(129_999)), Some(Duration::from_millis(1)));
    assert_eq!(wait.left(at(130)), None);
    assert_eq!(wait.left(at(500)), None);
    assert_eq!(wait.left(at(90)), Some(at(30)));
    assert_eq!(Timer::new(at(0)).left(at(1)), None);
}

#[test]
fn waiting_for_one_type_passes_over_the_others() {
    let w = wallet();
    let mut o = w.notifications(&vec![]).unwrap();
    w.open_step(&mut o, Tried::Done);
    w.open_step(&mut o, Tried::Done);
    let n = match w.open_step(&mut o, Tried::Done) {
        OpenAct::Read(n) => n,
        _ => panic!("the notifications are open"),
    };
    let want = WalletNotificationType::HoldInvoiceAccepted;
    let note = |name: &str| {
        let text = format!(r#"{{"notification_type":"{name}","notification":1}}"#);
        match read_notification(&text) {
            Listened::Got(n) => n,
            _ => panic!("this is a notification"),
        }
    };
    let other = note("payment_received");
    assert!(matches!(n.wait_for(&want, Awaited::Got(other)), Verdict::Again));
    let right = note("hold_invoice_accepted");
    match n.wait_for(&want, Awaited::Got(right)) {
        Verdict::Got(n) => assert_eq!(n.notification, value("1")),
        _ => panic!("this is the one"),
    }
    assert!(matches!(n.wait_for(&want, Awaited::TimeOut), Verdict::GiveUp));
    assert!(matches!(n.wait_for(&want, Awaited::Ended), Verdict::GiveUp));
}

#[test]
fn a_text_without_a_type_is_no_notification() {
    assert!(matches!(read_notification(r#"{"notification":1}"#), Listened::Again));
    assert!(matches!(read_notification(r#"{"notification_type":"x"}"#), Listened::Again));
    assert!(matches!(read_notification("["), Listened::Again));
    match read_notification(r#"{"notification_type":"new_kind","notification":null}"#) {
        Listened::Got(n) => assert_eq!(n.notification_type.as_str(), "new_kind"),
        _ => panic!("an unknown type is kept"),
    }
}

#[test]
fn a_known_name_is_not_an_unknown_type() {
    let known = WalletNotificationType::named("payment_sent");
    let odd = WalletNotificationType::Unknown("payment_sent".to_string());
    assert!(!known.same(&odd));
    assert!(known.same(&WalletNotificationType::PaymentSent));
    assert!(odd.same(&odd.clone()));
}
