//! The node control client.
use nostr_ln::event::{Heard, Incoming, Signal};
use nostr_ln::keys::PublicKey;
use nostr_ln::link::{Dial, Dialed};
use nostr_ln::nnc::client::{
    read_answer, read_notification, read_opened, Act, Error, Exchange, Happened, Noticed, NostrNodeControl,
    OpenAct, Stage, Waited,
};
use nostr_ln::nnc::uri::NodeControlUri;
use nostr_ln::nnc::{ErrorCode, NncError, NotificationType, Response, ResultError};
use serde_json::Value;
use std::time::Duration;

const SERVICE: &str = "79be667ef9dcbbac55a06295ce870b07029bfcdb2dce28d959f2815b16f81798";

fn value(text: &str) -> Value {
    serde_json::from_str(text).unwrap()
}

fn node() -> NostrNodeControl {
    let text = format!("nostr+nodecontrol://{SERVICE}?relay=wss://a");
    NostrNodeControl::new(NodeControlUri::from_str(&text).unwrap())
}

fn key(n: u8) -> PublicKey {
    PublicKey { bytes: [n; 32] }
}

fn response(error: Option<NncError>, result: Option<Value>) -> Response {
    Response { error, result }
}

fn refusal(code: &str) -> NncError {
    NncError { code: ErrorCode::read(code), message: "no".to_string() }
}

fn signer_error(text: &str) -> nostr::signer::SignerError {
    nostr::signer::SignerError::from(text)
}

fn reply(n: &NostrNodeControl, id: &str) -> Incoming {
    Incoming {
        kind: 23199,
        author: n.service(),
        tags: vec![vec!["e".to_string(), id.to_string()]],
        content: "sealed answer".to_string(),
    }
}

/// A request that waits for the response to the event `id`.
fn waiting(n: &NostrNodeControl) -> Exchange {
    let x = n.call_raw("list_channels", value("{}"));
    let (x, _) = n.step(x, Happened::Known(key(7)));
    let (x, _) = n.step(x, Happened::Done);
    let (x, _) = n.step(x, Happened::Sealed("sealed".to_string()));
    let (x, _) = n.step(x, Happened::Signed("id".to_string()));
    let (x, _) = n.step(x, Happened::Done);
    let (x, _) = n.step(x, Happened::Done);
    x
}

#[test]
fn a_request_goes_through_its_stages_in_order() {
    let n = node();
    let x = n.call_raw("list_channels", value(r#"{"all":true}"#));
    assert!(matches!(n.act(&x), Act::Identify));
    let (x, act) = n.step(x, Happened::Known(key(7)));
    match act {
        Act::Subscribe(f) => {
            assert_eq!(f.kind, 23199);
            assert_eq!(f.to.bytes, [7; 32]);
        }
        _ => panic!("the relays are asked first"),
    }
    let (x, act) = n.step(x, Happened::Done);
    match act {
        Act::Seal(text) => assert_eq!(text, r#"{"method":"list_channels","params":{"all":true}}"#),
        _ => panic!("the request is sealed next"),
    }
    let (x, act) = n.step(x, Happened::Sealed("sealed".to_string()));
    match act {
        Act::Sign(draft) => {
            assert_eq!(draft.kind, 23198);
            assert_eq!(draft.content, "sealed");
            assert_eq!(draft.tags, vec![vec!["p".to_string(), SERVICE.to_string()]]);
        }
        _ => panic!("the event is signed next"),
    }
    let (x, act) = n.step(x, Happened::Signed("id".to_string()));
    assert!(matches!(act, Act::Listen));
    let (x, act) = n.step(x, Happened::Done);
    assert!(matches!(act, Act::Publish));
    let (x, act) = n.step(x, Happened::Done);
    assert!(matches!(act, Act::Wait));
    let heard = Heard::Event(reply(&n, "id"));
    let (x, act) = n.step(x, Happened::Heard(heard));
    match act {
        Act::Open(text) => assert_eq!(text, "sealed answer"),
        _ => panic!("the answer is opened"),
    }
    let (x, act) = n.step(x, Happened::Opened(r#"{"result":[1,2]}"#.to_string()));
    match act {
        Act::Finish(Ok(r)) => assert_eq!(n.settle(r).unwrap(), value("[1,2]")),
        _ => panic!("the answer ends the request"),
    }
    assert!(matches!(x.stage, Stage::Done));
    let (_, act) = n.step(x, Happened::Done);
    assert!(matches!(act, Act::Rest));
}

#[test]
fn what_does_not_belong_to_a_stage_changes_nothing() {
    let n = node();
    let x = n.call_raw("m", value("{}"));
    let (x, act) = n.step(x, Happened::Done);
    assert!(matches!(act, Act::Identify));
    assert!(matches!(x.stage, Stage::Identifying));
    let (x, _) = n.step(x, Happened::Known(key(1)));
    let (x, act) = n.step(x, Happened::Opened("{}".to_string()));
    assert!(matches!(act, Act::Subscribe(_)));
    assert!(matches!(x.stage, Stage::Subscribing(_)));
}

#[test]
fn only_the_services_answer_to_the_request_counts() {
    let n = node();
    assert!(matches!(n.await_response("id", Heard::Late), Waited::TimedOut));
    assert!(matches!(n.await_response("id", Heard::Elapsed), Waited::TimedOut));
    assert!(matches!(n.await_response("id", Heard::Other), Waited::Again));
    assert!(matches!(n.await_response("id", Heard::Event(reply(&n, "other"))), Waited::Again));
    let mut stranger = reply(&n, "id");
    stranger.author = key(9);
    assert!(matches!(n.await_response("id", Heard::Event(stranger)), Waited::Again));
    let mut kind = reply(&n, "id");
    kind.kind = 23200;
    assert!(matches!(n.await_response("id", Heard::Event(kind)), Waited::Again));
    let right = n.await_response("id", Heard::Event(reply(&n, "id")));
    assert!(matches!(right, Waited::Answer(s) if s == "sealed answer"));
}

#[test]
fn a_failure_ends_a_request_at_each_stage() {
    let n = node();
    let x = n.call_raw("m", value("{}"));
    let (x, act) = n.step(x, Happened::SignerFailed(signer_error("locked")));
    match act {
        Act::Finish(Err(e)) => assert_eq!(e.to_text(), "signer: locked"),
        _ => panic!("the request is over"),
    }
    assert!(matches!(x.stage, Stage::Done));

    let (x, _) = n.step(n.call_raw("m", value("{}")), Happened::Known(key(1)));
    let (_, act) = n.step(x, Happened::Failed("down".to_string()));
    assert!(matches!(act, Act::Finish(Err(Error::Relay(e))) if e == "down"));

    let (x, _) = n.step(n.call_raw("m", value("{}")), Happened::Known(key(1)));
    let (x, _) = n.step(x, Happened::Done);
    let (_, act) = n.step(x, Happened::SignerFailed(signer_error("no seal")));
    assert!(matches!(act, Act::Finish(Err(Error::Signer(_)))));

    let signing = || {
        let (x, _) = n.step(n.call_raw("m", value("{}")), Happened::Known(key(1)));
        let (x, _) = n.step(x, Happened::Done);
        let (x, act) = n.step(x, Happened::Sealed("sealed".to_string()));
        assert!(matches!(act, Act::Sign(_)));
        x
    };
    let (x, act) = n.step(signing(), Happened::SignerFailed(signer_error("no signature")));
    match act {
        Act::Finish(Err(e)) => {
            assert!(matches!(e, Error::Signer(_)));
            assert_eq!(e.to_text(), "signer: no signature");
        }
        _ => panic!("the request is over"),
    }
    assert!(matches!(x.stage, Stage::Done));
    let (_, act) = n.step(signing(), Happened::Failed("no tag".to_string()));
    assert!(matches!(act, Act::Finish(Err(Error::Relay(e))) if e == "no tag"));

    let (_, act) = n.step(waiting(&n), Happened::Heard(Heard::Elapsed));
    match act {
        Act::Finish(Err(e)) => assert_eq!(e.to_text(), "no answer within 30s"),
        _ => panic!("the wait is over"),
    }

    let (x, _) = n.step(waiting(&n), Happened::Heard(Heard::Event(reply(&n, "id"))));
    let (_, act) = n.step(x, Happened::Opened("nope".to_string()));
    assert!(matches!(act, Act::Finish(Err(Error::Json(_)))));
}

#[test]
fn a_response_is_read_from_an_object() {
    let r = read_answer(r#"{"result":{"a":1},"error":null}"#).unwrap();
    assert!(r.error.is_none());
    assert_eq!(r.result, Some(value(r#"{"a":1}"#)));
    let r = read_answer(r#"{"error":{"code":"UNAUTHORIZED","message":"who"}}"#).unwrap();
    assert!(matches!(r.error.unwrap().code, ErrorCode::Unauthorized));
    assert!(r.result.is_none());
    assert!(matches!(read_answer("[]"), Err(Error::Json(_))));
    let said = |text: &str| match read_answer(text) {
        Err(e) => e.to_text(),
        Ok(_) => panic!("this is no response"),
    };
    assert_eq!(said(r#"{"error":{"message":"m"}}"#), "json: missing field `code`");
    assert_eq!(said(r#"{"error":{"code":"OTHER"}}"#), "json: missing field `message`");
    assert!(!said(r#"{"error":["OTHER"]}"#).contains("missing field"));
}

#[test]
fn a_refusal_comes_before_a_result() {
    let n = node();
    let both = response(Some(refusal("RESTRICTED")), Some(value("1")));
    assert!(matches!(n.settle(both), Err(Error::Refused(_))));
    assert_eq!(n.settle(response(None, Some(value("1")))).unwrap(), value("1"));
    assert_eq!(n.settle(response(None, None)).unwrap(), Value::Null);

    let refused = n.call(response(Some(refusal("RESTRICTED")), None), Ok(5u8));
    assert!(matches!(refused, Err(Error::Refused(_))));
    assert_eq!(n.call(response(None, None), Ok(5u8)).unwrap(), 5);
    let wrong = ResultError { text: "wrong type".to_string() };
    match n.call::<u8>(response(None, None), Err(wrong)) {
        Err(e) => assert_eq!(e.to_text(), "wrong type"),
        Ok(_) => panic!("the result could not be read"),
    }
}

#[test]
fn an_unauthorized_refusal_says_what_is_missing() {
    let e = Error::Refused(refusal("UNAUTHORIZED"));
    assert_eq!(
        e.to_text(),
        "UNAUTHORIZED: no — the node service has no grant for this client's pubkey. In NNC a \
         connection URI is not a credential: the owner must publish a kind 30198 grant naming it."
    );
    assert_eq!(Error::Refused(refusal("RESTRICTED")).to_text(), "RESTRICTED: no");
    assert_eq!(Error::Relay("r".to_string()).to_text(), "relay: r");
    assert_eq!(Error::TimedOut(Duration::from_secs(300)).to_text(), "no answer within 300s");
    let json = serde_json::from_str::<Value>("").unwrap_err();
    let text = json.to_string();
    assert_eq!(Error::from(json).to_text(), format!("json: {text}"));
}

#[test]
fn the_timeouts_can_be_set() {
    let n = node();
    assert_eq!(n.timeout, Duration::from_secs(30));
    assert_eq!(n.outcome_timeout, Duration::from_secs(3600));
    let n = n.with_timeout(Duration::from_secs(1)).with_outcome_timeout(Duration::from_secs(2));
    assert_eq!(n.timeout, Duration::from_secs(1));
    assert_eq!(n.wait().left(Duration::from_secs(9)), Some(Duration::from_secs(1)));
    assert_eq!(n.outcome_timeout, Duration::from_secs(2));
}

#[test]
fn the_node_is_dialed_once() {
    let mut n = node();
    assert_eq!(n.bootstrap(), Dial::Add(0));
    assert_eq!(n.dialed(Dial::Add(0), Dialed::Added).unwrap(), Dial::Connect);
    assert_eq!(n.dialed(Dial::Connect, Dialed::Connected).unwrap(), Dial::Ready);
    assert_eq!(n.bootstrap(), Dial::Ready);
    let mut m = node();
    assert!(matches!(
        m.dialed(Dial::Add(0), Dialed::Refused("x".to_string())),
        Err(Error::Relay(e)) if e == "x"
    ));
    assert!(!m.connected);
}

#[test]
fn a_subscription_is_published_before_the_relays_are_asked() {
    let n = node();
    let types = vec![NotificationType::ChannelOpened, NotificationType::named("odd")];
    let o = n.set_subscription(types);
    assert!(matches!(n.open_act(&o), OpenAct::Identify));
    let (o, act) = n.open_step(o, Happened::Known(key(7)));
    assert!(matches!(act, OpenAct::Seal(text) if text == r#"["channel_opened","odd"]"#));
    let (o, act) = n.open_step(o, Happened::Sealed("sealed".to_string()));
    match act {
        OpenAct::Sign(draft) => {
            assert_eq!(draft.kind, 30199);
            assert_eq!(draft.content, "sealed");
            assert_eq!(
                draft.tags,
                vec![
                    vec!["d".to_string(), SERVICE.to_string()],
                    vec!["p".to_string(), SERVICE.to_string()],
                ]
            );
        }
        _ => panic!("the subscription is signed next"),
    }
    let (o, act) = n.open_step(o, Happened::Signed("id".to_string()));
    assert!(matches!(act, OpenAct::Publish));
    let (o, act) = n.open_step(o, Happened::Done);
    assert!(matches!(act, OpenAct::Subscribe(f) if f.kind == 23200 && f.to.bytes == [7; 32]));
    let (o, act) = n.open_step(o, Happened::Done);
    assert!(matches!(act, OpenAct::Read));
    let (_, act) = n.open_step(o, Happened::Done);
    assert!(matches!(act, OpenAct::Rest));
}

#[test]
fn a_subscription_that_fails_says_why() {
    let n = node();
    let o = n.set_subscription(vec![]);
    let (o, _) = n.open_step(o, Happened::Known(key(7)));
    let (_, act) = n.open_step(o, Happened::SignerFailed(signer_error("locked")));
    assert!(matches!(act, OpenAct::Fail(e) if e.to_text() == "signer: locked"));

    let (o, _) = n.open_step(n.set_subscription(vec![]), Happened::Known(key(7)));
    let (o, _) = n.open_step(o, Happened::Sealed("sealed".to_string()));
    let (_, act) = n.open_step(o, Happened::SignerFailed(signer_error("no signature")));
    assert!(matches!(act, OpenAct::Fail(Error::Signer(_))));
}

#[test]
fn notifications_of_the_service_are_opened() {
    let n = node();
    let event = |kind: u16, author: PublicKey| {
        Signal::Event(Incoming { kind, author, tags: vec![], content: "sealed".to_string() })
    };
    let ours = n.handle_notifications(event(23200, n.service()));
    assert!(matches!(ours, Noticed::Open(s) if s == "sealed"));
    assert!(matches!(n.handle_notifications(event(23199, n.service())), Noticed::Again));
    assert!(matches!(n.handle_notifications(event(23200, key(1))), Noticed::Again));
    assert!(matches!(n.handle_notifications(Signal::Other), Noticed::Again));
    assert!(matches!(n.handle_notifications(Signal::Ended), Noticed::End));
}

#[test]
fn a_node_notification_is_read_by_its_type() {
    let text = r#"{"notification_type":"channel_closed","notification":{"id":"a"}}"#;
    let note = read_notification(text).unwrap();
    assert!(matches!(note.notification_type, NotificationType::ChannelClosed));
    assert_eq!(note.notification, value(r#"{"id":"a"}"#));
    assert!(read_notification("{}").is_none());
    assert!(read_notification("x").is_none());
}

#[test]
fn a_node_notification_that_does_not_open_is_passed_over() {
    let text = r#"{"notification_type":"channel_opened","notification":1}"#;
    assert!(read_opened(Ok(text.to_string())).is_some());
    assert!(read_opened(Ok("{}".to_string())).is_none());
    assert!(read_opened(Err(signer_error("no key"))).is_none());
}

#[test]
fn other_deliveries_leave_a_node_request_waiting() {
    let n = node();
    let mut x = waiting(&n);
    for id in ["other", "", "di"] {
        let (next, act) = n.step(x, Happened::Heard(Heard::Event(reply(&n, id))));
        assert!(matches!(act, Act::Wait));
        x = next;
    }
    assert!(matches!(&x.stage, Stage::Waiting(id) if id == "id"));
    let (x, act) = n.step(x, Happened::Heard(Heard::Event(reply(&n, "id"))));
    assert!(matches!(act, Act::Open(text) if text == "sealed answer"));
    let mut second = reply(&n, "id");
    second.content = "another answer".to_string();
    let (x, act) = n.step(x, Happened::Heard(Heard::Event(second)));
    assert!(matches!(act, Act::Open(text) if text == "sealed answer"));
    assert!(matches!(x.stage, Stage::Opening(s) if s == "sealed answer"));
}
