//! The decisions of the command line.
use nostr_ln::ctrl::{
    advertised, ask, coded, credential, die, emit, join, methods, nnc_call, nnc_notify, nnc_refusal,
    node, node_note, nwc_call, nwc_notify, opt_in, params, refusal, run, take_flag, take_value,
    usage, wallet, wallet_note, wanted_node_types, wanted_wallet_types, warn, Command, Order,
    Outcome, Protocol, Stage, Task,
};
use nostr_ln::nnc::{ErrorCode, NncError, Notification, NotificationType};
use nostr_ln::nwc::{WalletNotification, WalletNotificationType};
use serde_json::Value;
use std::time::Duration;

const SECRET: &str = "0000000000000000000000000000000000000000000000000000000000000001";
const KEY: &str = "79be667ef9dcbbac55a06295ce870b07029bfcdb2dce28d959f2815b16f81798";

fn value(text: &str) -> Value {
    serde_json::from_str(text).unwrap()
}

fn words(list: &[&str]) -> Vec<String> {
    list.iter().map(|s| s.to_string()).collect()
}

fn order(list: &[&str]) -> Order {
    match run(words(list)) {
        Ok(order) => order,
        Err(e) => panic!("{e}"),
    }
}

fn complaint(list: &[&str]) -> String {
    match run(words(list)) {
        Ok(_) => panic!("the arguments should be refused"),
        Err(e) => e,
    }
}

fn wallet_uri() -> String {
    format!("nostr+walletconnect://{KEY}?relay=wss://a&secret={SECRET}")
}

fn node_uri() -> String {
    format!("nostr+nodecontrol://{KEY}?relay=wss://a")
}

fn refused(code: &str, message: &str) -> NncError {
    NncError { code: ErrorCode::read(code), message: message.to_string() }
}

#[test]
fn usage_shows_the_shapes_and_examples() {
    let text = usage();
    assert!(text.starts_with("usage:\n  dln-ctrl nwc <method> [params-json] [-n] [--json]\n"));
    assert!(text.contains("  dln-ctrl <nwc|nnc> notify [types...]\n"));
    assert!(text.contains("make_invoice '{\"amount\":120000,\"description\":\"x\"}'\n"));
    assert!(text.contains("  NNC_URI      nostr+nodecontrol://…     (carries no secret)\n"));
    assert!(text.ends_with("visible in `ps` to every user on the machine."));
    assert_eq!(text.lines().count(), 24);
}

#[test]
fn a_flag_is_taken_once() {
    let mut args = words(&["a", "-n", "b", "-n"]);
    assert!(take_flag(&mut args, "-n"));
    assert_eq!(args, words(&["a", "b", "-n"]));
    assert!(take_flag(&mut args, "-n"));
    assert_eq!(args, words(&["a", "b"]));
    assert!(!take_flag(&mut args, "-n"));
    assert_eq!(args, words(&["a", "b"]));
}

#[test]
fn a_flag_stands_anywhere() {
    for list in [["-n", "a", "b"], ["a", "-n", "b"], ["a", "b", "-n"]] {
        let mut args = words(&list);
        assert!(take_flag(&mut args, "-n"));
        assert_eq!(args, words(&["a", "b"]));
    }
}

#[test]
fn a_value_is_taken_with_its_name() {
    let mut args = words(&["a", "--uri", "x", "b"]);
    assert_eq!(take_value(&mut args, "--uri"), Some("x".to_string()));
    assert_eq!(args, words(&["a", "b"]));
    assert_eq!(take_value(&mut args, "--uri"), None);
    assert_eq!(args, words(&["a", "b"]));
}

#[test]
fn a_name_that_nothing_follows_has_no_value() {
    let mut args = words(&["a", "--uri"]);
    assert_eq!(take_value(&mut args, "--uri"), None);
    assert_eq!(args, words(&["a"]));
}

#[test]
fn a_name_may_be_the_value_of_itself() {
    let mut args = words(&["--uri", "--uri"]);
    assert_eq!(take_value(&mut args, "--uri"), Some("--uri".to_string()));
    assert!(args.is_empty());
}

#[test]
fn absent_params_are_an_empty_object() {
    assert_eq!(params(&vec![]).unwrap(), value("{}"));
    assert_eq!(params(&words(&["[1]", "ignored"])).unwrap(), value("[1]"));
}

#[test]
fn params_that_are_no_json_are_refused() {
    let text = serde_json::from_str::<Value>("{amount").unwrap_err().to_string();
    assert_eq!(
        params(&words(&["{amount"])).unwrap_err(),
        format!("params are not JSON: {text}\n  got: {{amount")
    );
}

#[test]
fn help_is_shown_where_nothing_is_asked() {
    for list in [vec![], vec!["-h"], vec!["--help", "x"], vec!["--json"], vec!["-n", "--notify"]] {
        assert!(matches!(order(&list).command, Command::Usage));
    }
}

#[test]
fn a_method_is_required() {
    assert_eq!(complaint(&["nwc"]), format!("nwc: a method is required\n\n{}", usage()));
    assert_eq!(complaint(&["xyz"]), format!("xyz: a method is required\n\n{}", usage()));
}

#[test]
fn an_unknown_protocol_is_quoted() {
    assert_eq!(
        complaint(&["n\tx", "get_info", "{no json"]),
        format!("unknown protocol \"n\\tx\" — expected nwc or nnc\n\n{}", usage())
    );
}

#[test]
fn a_method_goes_out_as_typed() {
    match order(&["nwc", "never_heard_of", r#"{"a":1}"#]).command {
        Command::Call(Protocol::Wallet, method, params) => {
            assert_eq!(method, "never_heard_of");
            assert_eq!(params, value(r#"{"a":1}"#));
        }
        _ => panic!("this is a call"),
    }
    match order(&["nnc", "list_channels"]).command {
        Command::Call(Protocol::Node, method, params) => {
            assert_eq!(method, "list_channels");
            assert_eq!(params, value("{}"));
        }
        _ => panic!("this is a call"),
    }
    assert!(complaint(&["nnc", "list_channels", "{"]).starts_with("params are not JSON: "));
}

#[test]
fn notify_and_methods_are_not_called() {
    match order(&["nnc", "notify", "channel_opened", "odd"]).command {
        Command::Notify(Protocol::Node, types) => {
            assert_eq!(types, words(&["channel_opened", "odd"]));
        }
        _ => panic!("this asks for notifications"),
    }
    assert!(matches!(order(&["nwc", "notify"]).command, Command::Notify(Protocol::Wallet, t) if t.is_empty()));
    assert!(matches!(order(&["nwc", "methods"]).command, Command::Methods(Protocol::Wallet)));
    assert!(matches!(order(&["nnc", "methods", "x"]).command, Command::Methods(Protocol::Node)));
}

#[test]
fn options_are_taken_out_first() {
    let o = order(&["--json", "nwc", "-n", "pay", "--uri", "u", "--notify", "{}"]);
    assert!(o.json);
    assert!(o.notify);
    assert_eq!(o.uri, Some("u".to_string()));
    assert!(matches!(o.command, Command::Call(Protocol::Wallet, m, _) if m == "pay"));
    let plain = order(&["nwc", "pay"]);
    assert!(!plain.json);
    assert!(!plain.notify);
    assert_eq!(plain.uri, None);
    assert!(order(&["nwc", "pay", "--notify"]).notify);
}

#[test]
fn a_credential_comes_from_the_argument_or_the_environment() {
    let arg = || Some("arg".to_string());
    let env = || Some("env".to_string());
    assert_eq!(credential(arg(), env(), "V").unwrap(), "arg");
    assert_eq!(credential(None, env(), "V").unwrap(), "env");
    assert_eq!(credential(None, None, "V").unwrap_err(), "no credential: set $V");
}

#[test]
fn a_blank_credential_is_none() {
    for blank in ["", "  ", "\t\n", "\u{a0}\u{3000}\u{2003}"] {
        let got = credential(Some(blank.to_string()), Some("env".to_string()), "V");
        assert_eq!(got.unwrap_err(), "no credential: set $V");
    }
    assert_eq!(credential(None, Some(" x ".to_string()), "V").unwrap(), " x ");
    assert_eq!(credential(None, Some("\u{200b}".to_string()), "V").unwrap(), "\u{200b}");
}

#[test]
fn white_space_is_that_of_unicode() {
    for n in 0..0x11_0000u32 {
        if let Some(c) = char::from_u32(n) {
            let got = credential(None, Some(c.to_string()), "V").is_err();
            assert_eq!(got, c.is_whitespace());
        }
    }
}

#[test]
fn a_wallet_needs_one_credential() {
    let w = wallet(None, Some(wallet_uri())).ok().unwrap();
    assert_eq!(w.timeout, Duration::from_secs(300));
    assert_eq!(w.uri.relays, words(&["wss://a"]));
    assert!(!w.connected);
    let none = wallet(None, None).err().unwrap();
    assert_eq!(none, "no credential: set $NWC_URI");
}

#[test]
fn a_node_needs_two_credentials() {
    let (n, key) = node(Some(node_uri()), None, Some(SECRET.to_string())).ok().unwrap();
    assert_eq!(n.timeout, Duration::from_secs(300));
    assert_eq!(n.outcome_timeout, Duration::from_secs(3600));
    assert_eq!(key.to_secret_hex(), SECRET);
    let refusal = |arg: Option<String>, secret: Option<String>| node(arg, None, secret).err().unwrap();
    assert_eq!(refusal(None, Some(SECRET.to_string())), "no credential: set $NNC_URI");
    assert_eq!(refusal(Some(node_uri()), None), "no credential: set $NNC_SECRET");
    assert_eq!(
        refusal(Some(wallet_uri()), None),
        "NNC_URI is not a nostr+nodecontrol:// URI"
    );
    assert_eq!(refusal(Some(node_uri()), Some("12".to_string())), "NNC_SECRET is not a key");
}

#[test]
fn nothing_of_a_credential_is_said_back() {
    let text = format!("nostr+walletconnect://{KEY}?secret={SECRET}");
    let said = wallet(Some(text), None).err().unwrap();
    assert_eq!(said, "NWC_URI is not a nostr+walletconnect:// URI");
    assert!(!said.contains(SECRET));
    assert!(!said.contains(KEY));
}

#[test]
fn named_types_are_asked_for_as_named() {
    let got = wanted_wallet_types(&words(&["odd", "payment_sent"]));
    assert_eq!(got.len(), 2);
    assert!(matches!(&got[0], WalletNotificationType::Unknown(s) if s == "odd"));
    assert!(matches!(&got[1], WalletNotificationType::PaymentSent));
    let got = wanted_node_types(&words(&["channel_closed", "payment_sent"]));
    assert!(matches!(&got[0], NotificationType::ChannelClosed));
    assert!(matches!(&got[1], NotificationType::Unknown(s) if s == "payment_sent"));
}

#[test]
fn all_types_are_asked_for_where_none_is_named() {
    let wallet: Vec<String> =
        wanted_wallet_types(&vec![]).iter().map(|t| t.as_str().to_string()).collect();
    assert_eq!(wallet, words(&["payment_received", "payment_sent", "hold_invoice_accepted"]));
    let node: Vec<String> =
        wanted_node_types(&vec![]).iter().map(|t| t.as_str().to_string()).collect();
    assert_eq!(node, words(&["channel_opened", "channel_closed"]));
}

#[test]
fn a_node_is_told_to_notify() {
    let got = opt_in("open_channel", value(r#"{"pubkey":"02"}"#));
    assert_eq!(got, value(r#"{"pubkey":"02","notify":true}"#));
    assert_eq!(opt_in("close_channel", value("{}")), value(r#"{"notify":true}"#));
}

#[test]
fn what_the_params_say_of_notify_stands() {
    assert_eq!(opt_in("open_channel", value(r#"{"notify":false}"#)), value(r#"{"notify":false}"#));
    assert_eq!(opt_in("open_channel", value(r#"{"notify":null}"#)), value(r#"{"notify":null}"#));
    assert_eq!(opt_in("open_channel", value("[1]")), value("[1]"));
    assert_eq!(opt_in("list_channels", value("{}")), value("{}"));
}

#[test]
fn an_answer_is_printed_as_it_is() {
    let v = value(r#"{"a":[1,"x"]}"#);
    assert_eq!(emit(&v, true), r#"{"a":[1,"x"]}"#);
    assert_eq!(emit(&v, false), "{\n  \"a\": [\n    1,\n    \"x\"\n  ]\n}");
}

#[test]
fn a_refusal_shows_its_code() {
    let e = refused("NOT_IMPLEMENTED", "estimate_onchain_fees is not implemented");
    assert_eq!(coded(&e), "NotImplemented: estimate_onchain_fees is not implemented");
    let e = refused("RESTRICTED", "this controller may not call that method");
    assert_eq!(
        coded(&e),
        "Restricted: this controller may not call that method  (the grant may not permit this method)"
    );
    assert_eq!(coded(&refused("UNAUTHORIZED", "no")), "Unauthorized: no");
    assert_eq!(coded(&refused("ODD", "no")), "Unknown(\"ODD\"): no");
}

#[test]
fn other_failures_are_said_in_their_own_words() {
    let e = nostr_ln::nwc::client::Error::Refused(refused("RESTRICTED", "no"));
    assert_eq!(refusal(&e), "Restricted: no  (the grant may not permit this method)");
    let e = nostr_ln::nwc::client::Error::Relay("down".to_string());
    assert_eq!(refusal(&e), "relay: down");
    let e = nostr_ln::nnc::client::Error::Refused(refused("UNAUTHORIZED", "no"));
    assert_eq!(nnc_refusal(&e), "Unauthorized: no");
    let e = nostr_ln::nnc::client::Error::TimedOut(Duration::from_secs(300));
    assert_eq!(nnc_refusal(&e), "no answer within 300s");
}

#[test]
fn texts_are_joined_with_commas() {
    assert_eq!(join(&words(&["a", "b", "c"])), "a, b, c");
    assert_eq!(join(&words(&["a"])), "a");
    assert_eq!(join(&vec![]), "");
}

#[test]
fn a_failure_names_the_program() {
    assert_eq!(die("relay: down"), "dln-ctrl: relay: down");
}

#[test]
fn a_notification_is_printed_on_one_line() {
    let n = WalletNotification {
        notification_type: WalletNotificationType::named("payment_sent"),
        notification: value(r#"{ "amount": 7 }"#),
    };
    assert_eq!(
        wallet_note(&n),
        r#"{"notification_type":"payment_sent","notification":{"amount":7}}"#
    );
    let n = Notification {
        notification_type: NotificationType::named("o\"dd"),
        notification: Value::Null,
    };
    assert_eq!(node_note(&n), r#"{"notification_type":"o\"dd","notification":null}"#);
}

#[test]
fn known_methods_are_listed_in_order() {
    let known = words(&["b", "a", "c_d"]);
    assert_eq!(methods(&known), known);
    assert!(methods(&vec![]).is_empty());
}

#[test]
fn a_wallet_is_asked_by_get_info() {
    let (method, params) = ask();
    assert_eq!(method, "get_info");
    assert_eq!(params, value("{}"));
}

#[test]
fn a_wallet_call_with_notifications_subscribes_first() {
    let (mut s, first) = nwc_call("pay".to_string(), value("{}"), true, true);
    assert_eq!(
        first.lines,
        words(&["subscribed to payment_received, payment_sent, hold_invoice_accepted"])
    );
    assert!(matches!(first.task, Task::Open));
    let next = s.step(Outcome::Opened(Ok(())));
    assert!(next.lines.is_empty());
    assert!(matches!(next.task, Task::Call));
    assert_eq!(s.stage, Stage::Calling);
    let next = s.step(Outcome::Called(Ok(value(r#"{"a":1}"#))));
    assert_eq!(next.output, Some(r#"{"a":1}"#.to_string()));
    assert_eq!(next.lines, words(&["waiting for notifications — ^C to stop"]));
    assert!(matches!(next.task, Task::Read));
    let next = s.step(Outcome::Ended(Ok(())));
    assert!(matches!(next.task, Task::Succeed));
    assert!(matches!(s.step(Outcome::Ended(Ok(()))).task, Task::Rest));
}

#[test]
fn a_call_without_notifications_only_calls() {
    let (mut s, first) = nwc_call("pay".to_string(), value("{}"), false, false);
    assert!(first.lines.is_empty());
    assert!(matches!(first.task, Task::Call));
    let next = s.step(Outcome::Called(Ok(value("[]"))));
    assert_eq!(next.output, Some("[]".to_string()));
    assert!(next.lines.is_empty());
    assert!(matches!(next.task, Task::Succeed));
}

#[test]
fn a_node_call_with_notifications_opts_in_and_subscribes_first() {
    let (mut s, first) = nnc_call("open_channel".to_string(), value("{}"), false, true);
    assert!(first.lines.is_empty());
    assert!(matches!(first.task, Task::Open));
    let (method, params) = s.call.as_ref().unwrap();
    assert_eq!(method, "open_channel");
    assert_eq!(params, &value(r#"{"notify":true}"#));
    let next = s.step(Outcome::Opened(Ok(())));
    assert_eq!(next.lines, words(&["subscribed to channel_opened, channel_closed"]));
    assert!(matches!(next.task, Task::Call));
    let (s, _) = nnc_call("open_channel".to_string(), value("{}"), false, false);
    assert_eq!(s.call.unwrap().1, value("{}"));
}

#[test]
fn a_session_fails_with_the_reason() {
    let (mut s, _) = nnc_call("m".to_string(), value("{}"), false, true);
    let next = s.step(Outcome::Opened(Err("relay: down".to_string())));
    assert!(matches!(next.task, Task::Fail(e) if e == "relay: down"));
    let (mut s, _) = nwc_call("m".to_string(), value("{}"), false, false);
    let next = s.step(Outcome::Called(Err("Restricted: no".to_string())));
    assert!(next.output.is_none());
    assert!(matches!(next.task, Task::Fail(e) if e == "Restricted: no"));
    let (mut s, _) = nnc_notify(&vec![]);
    s.step(Outcome::Opened(Ok(())));
    let next = s.step(Outcome::Ended(Err("signer: x".to_string())));
    assert!(matches!(next.task, Task::Fail(e) if e == "signer: x"));
}

#[test]
fn what_does_not_belong_to_a_stage_repeats_it() {
    let (mut s, _) = nwc_call("m".to_string(), value("{}"), false, true);
    let next = s.step(Outcome::Called(Ok(Value::Null)));
    assert!(next.output.is_none());
    assert!(matches!(next.task, Task::Open));
    assert_eq!(s.stage, Stage::Opening);
}

#[test]
fn a_wallet_is_asked_what_it_sends_before_it_is_listened_to() {
    let (mut s, first) = nwc_notify(&words(&["channel_opened"]));
    assert!(matches!(first.task, Task::Ask));
    let info = value(r#"{"notifications":["payment_received","payment_sent"]}"#);
    let next = s.step(Outcome::Told(Some(info)));
    assert_eq!(
        next.lines,
        words(&["warning: this node does not advertise channel_opened — it advertises payment_received, payment_sent"])
    );
    assert!(matches!(next.task, Task::Open));
    let next = s.step(Outcome::Opened(Ok(())));
    assert_eq!(next.lines, words(&["subscribed to channel_opened", "waiting — ^C to stop"]));
    assert!(matches!(next.task, Task::Read));
}

#[test]
fn a_wallet_that_does_not_say_what_it_sends_is_not_warned_of() {
    for info in [None, Some(value("{}")), Some(value(r#"{"notifications":[1]}"#))] {
        let (mut s, _) = nwc_notify(&vec![]);
        let next = s.step(Outcome::Told(info));
        assert!(next.lines.is_empty());
        assert!(matches!(next.task, Task::Open));
    }
}

#[test]
fn warnings_are_for_what_is_wanted_and_not_sent() {
    let told = words(&["a", "b"]);
    assert!(warn(&words(&["b", "a"]), &told).is_empty());
    let got = warn(&words(&["x", "a", "y"]), &told);
    assert_eq!(got.len(), 2);
    assert!(got[0].starts_with("warning: this node does not advertise x — it advertises a, b"));
    assert_eq!(advertised(&value(r#"{"notifications":["a","b"]}"#)), Some(told));
    assert_eq!(advertised(&value(r#"{"notifications":"a"}"#)), None);
    assert_eq!(advertised(&value("[]")), None);
}

#[test]
fn node_notifications_are_subscribed_to_by_name() {
    let (mut s, first) = nnc_notify(&words(&["channel_opened"]));
    assert!(matches!(first.task, Task::Open));
    let next = s.step(Outcome::Opened(Ok(())));
    assert_eq!(next.lines, words(&["subscribed to channel_opened", "waiting — ^C to stop"]));
}
