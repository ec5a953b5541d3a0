//! What a request to a wallet comes to, from the first act to the outcome.
use vstd::prelude::*;
use vstd::string::*;
use serde_json::Value;
use crate::event::{Heard, Incoming, Signal};
use crate::json::{
    json_array, json_error_text, json_object, json_parse, json_string, json_text, json_view, member,
    text_in,
};
use crate::keys::{
    event_view, hex_text, kept_tags, opened, public_key_for, public_key_in, seal_error,
    secret_bytes, secret_key_in, signer_error_text,
};
use crate::nwc::client::{
    judges, open_after, wallet_uri, Act, Awaited, Error, Exchange, Happened, Listened, Notifications,
    OpenAct, OpenStage, Outgoing, Stage, Tried, UriError, Verdict, WalletConnect, WalletUriView,
};
use crate::nwc::WalletNotificationType;
use crate::time::duration_debug;
use crate::uri::uri_parts;

verus! {

/// An event answers a request exactly if it is of the kind, by the author, and one of its tags
/// begins with `e` and the id of the request.
pub proof fn law_answers_are_told_by_kind_author_and_tag(
    e: Incoming,
    kind: u16,
    author: Seq<u8>,
    id: Seq<char>,
)
    ensures
        e.is_from(kind, author) == (e.kind == kind && e.author@ == author),
        e.is_answer(kind, author, id) == (e.kind == kind && e.author@ == author && exists|i: int|
            0 <= i < e.tags@.len() && (#[trigger] e.tags@[i])@.len() >= 2 && e.tags@[i]@[0]@ == "e"@
                && e.tags@[i]@[1]@ == id),
{
    let all = crate::keys::tag_texts(e.tags@);
    assert forall|i: int| 0 <= i < e.tags@.len() implies all[i].len() == (#[trigger] e.tags@[i])@.len()
        && (e.tags@[i]@.len() >= 2 ==> all[i][0] == e.tags@[i]@[0]@ && all[i][1]
        == e.tags@[i]@[1]@) by {}
    if e.is_answer(kind, author, id) {
        let i = choose|i: int| 0 <= i < all.len() && crate::event::points_at(#[trigger] all[i], id);
        assert(e.tags@[i]@.len() >= 2);
    }
    if exists|i: int|
        0 <= i < e.tags@.len() && (#[trigger] e.tags@[i])@.len() >= 2 && e.tags@[i]@[0]@ == "e"@
            && e.tags@[i]@[1]@ == id {
        let i = choose|i: int|
            0 <= i < e.tags@.len() && (#[trigger] e.tags@[i])@.len() >= 2 && e.tags@[i]@[0]@ == "e"@
                && e.tags@[i]@[1]@ == id;
        assert(crate::event::points_at(all[i], id));
    }
}

/// An event that carries a text to the wallet is signed by the client, of the kind, tagged, and
/// opens to that text between the client and the wallet.
pub proof fn law_carried_event(
    w: WalletConnect,
    out: Outgoing,
    kind: u16,
    tags: Seq<Seq<Seq<char>>>,
    text: Seq<char>,
)
    requires
        w.carries(out, kind, tags, text),
    ensures
        out.id@ == event_view(out.event).id,
        event_view(out.event).signed,
        event_view(out.event).kind == kind,
        event_view(out.event).author == public_key_for(secret_bytes(w.uri.secret)),
        event_view(out.event).tags == kept_tags(tags, public_key_for(secret_bytes(w.uri.secret))),
        opened(secret_bytes(w.uri.secret), w.uri.wallet@, event_view(out.event).content) == Ok::<
            Seq<char>,
            Seq<char>,
        >(text),
        w.address() == seq!["p"@, hex_text(w.uri.wallet@)],
        w.identifier() == seq!["d"@, hex_text(w.uri.wallet@)],
{
}

/// Once the relays were asked, a request is made that carries the method as it was given and its
/// parameters to the wallet, and the stream is taken next; where it cannot be sealed, the signer's
/// error is the outcome.
pub proof fn law_request_is_made(w: WalletConnect, x: Exchange, to: Exchange, act: Act)
    requires
        x.stage == Stage::Subscribing,
        w.goes(x, Happened::Done, to, act),
    ensures
        ({
            let secret = secret_bytes(w.uri.secret);
            let text = json_text(
                json_object(
                    seq![("method"@, json_string(x.method@)), ("params"@, x.params)],
                ),
            );
            match seal_error(secret, w.uri.wallet@, text) {
                None => {
                    &&& act is Listen
                    &&& to.stage == Stage::Listening
                    &&& to.sent matches Some(out) && out.id@ == event_view(out.event).id
                        && event_view(out.event).signed && event_view(out.event).kind == 23194
                        && event_view(out.event).author == public_key_for(secret) && event_view(
                        out.event,
                    ).tags == kept_tags(
                        seq![seq!["p"@, hex_text(w.uri.wallet@)]],
                        public_key_for(secret),
                    ) && opened(secret, w.uri.wallet@, event_view(out.event).content) == Ok::<
                        Seq<char>,
                        Seq<char>,
                    >(text)
                },
                Some(words) => act matches Act::Finish(Err(Error::Signer(e)))
                    && signer_error_text(e) == words,
            }
        }),
{
    assert(w.in_order(to));
}

/// The acts follow one another: the relays are asked, the stream is taken, the request is
/// published, the response is awaited, and what was sent stays what it was.
pub proof fn law_acts_follow_one_another(w: WalletConnect, x: Exchange, to: Exchange, act: Act)
    requires
        w.goes(x, Happened::Done, to, act),
    ensures
        x.stage == Stage::Listening ==> to == (Exchange { stage: Stage::Publishing, ..x })
            && act is Publish,
        x.stage == Stage::Publishing ==> to == (Exchange { stage: Stage::Waiting, ..x })
            && act is Wait,
        x.stage == Stage::Waiting ==> to == x && act is Wait,
        x.stage == Stage::Done ==> to == x && act is Rest,
{
}

/// What the relays are asked for first is responses to the client.
pub proof fn law_first_act(w: WalletConnect, act: Act)
    requires
        w.fits(act, Stage::Subscribing),
    ensures
        act matches Act::Subscribe(f) && f.kind == 23195 && f.to@ == public_key_for(
            secret_bytes(w.uri.secret),
        ),
{
}

/// A relay that fails while it is asked, or while the request is published, ends the request with
/// what it said.
pub proof fn law_relay_failure_is_the_outcome(
    w: WalletConnect,
    x: Exchange,
    text: String,
    to: Exchange,
    act: Act,
)
    requires
        x.stage == Stage::Subscribing || x.stage == Stage::Publishing,
        w.goes(x, Happened::Failed(text), to, act),
    ensures
        act == Act::Finish(Err(Error::Relay(text))),
        to == (Exchange { stage: Stage::Done, ..x }),
{
}

/// A request that waits, and whose time has run out, ends with the timeout that was set.
pub proof fn law_timeout_is_the_outcome(
    w: WalletConnect,
    x: Exchange,
    heard: Heard,
    to: Exchange,
    act: Act,
)
    requires
        x.stage == Stage::Waiting,
        heard is Late || heard is Elapsed,
        w.goes(x, Happened::Heard(heard), to, act),
    ensures
        act == Act::Finish(Err(Error::TimedOut(w.timeout))),
        to == (Exchange { stage: Stage::Done, ..x }),
{
}

/// An event is one that a wallet answers a request with.
pub open spec fn is_reply(w: WalletConnect, x: Exchange, e: Incoming, out: Outgoing) -> bool {
    &&& x.stage == Stage::Waiting
    &&& x.sent == Some(out)
    &&& e.kind == 23195
    &&& e.author@ == w.uri.wallet@
    &&& exists|i: int|
        0 <= i < e.tags@.len() && (#[trigger] e.tags@[i])@.len() >= 2 && e.tags@[i]@[0]@ == "e"@
            && e.tags@[i]@[1]@ == out.id@
}

/// A wallet's answer with an error is handed to the caller as that refusal, whatever else the
/// answer holds.
pub proof fn law_refusal_reaches_the_caller(
    w: WalletConnect,
    x: Exchange,
    sent: Outgoing,
    e: Incoming,
    plain: Seq<char>,
    v: Value,
    error: Value,
    code: Value,
    message: Value,
    to: Exchange,
    act: Act,
)
    requires
        is_reply(w, x, e, sent),
        opened(secret_bytes(w.uri.secret), w.uri.wallet@, e.content@) == Ok::<Seq<char>, Seq<char>>(
            plain,
        ),
        json_parse(plain) == Ok::<Value, Seq<char>>(v),
        member(v, "error"@) == Some(error),
        !(json_view(error) is Null),
        member(error, "code"@) == Some(code),
        text_in(code) is Some,
        member(error, "message"@) == Some(message),
        text_in(message) is Some,
        w.goes(x, Happened::Heard(Heard::Event(e)), to, act),
    ensures
        act matches Act::Finish(Err(Error::Refused(r))) && Some(r.code.wire()) == text_in(code)
            && Some(r.message@) == text_in(message),
        to.stage == Stage::Done,
{
    law_answers_are_told_by_kind_author_and_tag(e, 23195, w.uri.wallet@, sent.id@);
}

/// A wallet's answer without an error is handed to the caller as its result, and as null where
/// there is none.
pub proof fn law_result_reaches_the_caller(
    w: WalletConnect,
    x: Exchange,
    sent: Outgoing,
    e: Incoming,
    plain: Seq<char>,
    v: Value,
    to: Exchange,
    act: Act,
)
    requires
        is_reply(w, x, e, sent),
        opened(secret_bytes(w.uri.secret), w.uri.wallet@, e.content@) == Ok::<Seq<char>, Seq<char>>(
            plain,
        ),
        json_parse(plain) == Ok::<Value, Seq<char>>(v),
        member(v, "error"@) matches Some(error) ==> json_view(error) is Null,
        w.goes(x, Happened::Heard(Heard::Event(e)), to, act),
    ensures
        member(v, "result"@) matches Some(result) ==> act == Act::Finish(Ok(result)),
        member(v, "result"@) is None ==> (act matches Act::Finish(Ok(result)) && json_view(result)
            is Null),
        to.stage == Stage::Done,
{
    law_answers_are_told_by_kind_author_and_tag(e, 23195, w.uri.wallet@, sent.id@);
}

/// A wallet's answer that does not open, or that is no JSON, is handed to the caller as that error.
pub proof fn law_unreadable_answer_is_the_outcome(
    w: WalletConnect,
    x: Exchange,
    sent: Outgoing,
    e: Incoming,
    to: Exchange,
    act: Act,
)
    requires
        is_reply(w, x, e, sent),
        w.goes(x, Happened::Heard(Heard::Event(e)), to, act),
    ensures
        match opened(secret_bytes(w.uri.secret), w.uri.wallet@, e.content@) {
            Err(words) => act matches Act::Finish(Err(Error::Signer(s))) && signer_error_text(s)
                == words,
            Ok(plain) => json_parse(plain) matches Err(words) ==> (act matches Act::Finish(
                Err(Error::Json(j)),
            ) && json_error_text(j) == words),
        },
{
    law_answers_are_told_by_kind_author_and_tag(e, 23195, w.uri.wallet@, sent.id@);
}

/// An event that is of another kind, by another author, or without a tag that names the request,
/// leaves a request waiting as it was; so does what is no event.
pub proof fn law_other_events_leave_a_request_waiting(
    w: WalletConnect,
    x: Exchange,
    sent: Outgoing,
    e: Incoming,
    to: Exchange,
    act: Act,
)
    requires
        x.stage == Stage::Waiting,
        x.sent == Some(sent),
        !is_reply(w, x, e, sent),
        w.goes(x, Happened::Heard(Heard::Event(e)), to, act) || w.goes(
            x,
            Happened::Heard(Heard::Other),
            to,
            act,
        ),
    ensures
        act is Wait,
        to == x,
{
    law_answers_are_told_by_kind_author_and_tag(e, 23195, w.uri.wallet@, sent.id@);
}

/// What does not belong to a stage changes nothing and asks for the same act again.
pub proof fn law_strays_change_nothing(
    w: WalletConnect,
    x: Exchange,
    happened: Happened,
    to: Exchange,
    act: Act,
)
    requires
        w.goes(x, happened, to, act),
        match x.stage {
            Stage::Subscribing => happened is Heard,
            Stage::Listening => !(happened is Done),
            Stage::Publishing => happened is Heard,
            Stage::Waiting => !(happened is Heard),
            Stage::Done => true,
        },
    ensures
        to == x,
        match x.stage {
            Stage::Subscribing => act is Subscribe,
            Stage::Listening => act is Listen,
            Stage::Publishing => act is Publish,
            Stage::Waiting => act is Wait,
            Stage::Done => act is Rest,
        },
{
}

/// Each error is said with what it holds, and in no other words.
pub proof fn law_wallet_error_words(e: Error)
    ensures
        e matches Error::Refused(r) ==> e.words() == "the wallet refused: "@ + (r.code.wire() + ": "@
            + r.message@),
        e matches Error::TimedOut(d) ==> e.words() == "no response within "@ + duration_debug(d),
        e matches Error::Result(r) ==> e.words() == r.text@,
        e matches Error::Relay(t) ==> e.words() == "relay: "@ + t@,
        e matches Error::Signer(s) ==> e.words() == "signer: "@ + signer_error_text(s),
        e matches Error::Json(j) ==> e.words() == "json: "@ + json_error_text(j),
{
}

/// What is said of a text that is no wallet's URI does not depend on the text.
pub proof fn law_uri_error_words(e: UriError)
    ensures
        e == UriError::Scheme ==> e.words() == "not a nostr+walletconnect:// uri"@,
        e == UriError::Wallet ==> e.words() == "the wallet pubkey is missing or malformed"@,
        e == UriError::NoRelay ==> e.words() == "a uri must name at least one relay"@,
        e == UriError::Secret ==> e.words() == "the secret is missing or malformed"@,
{
}

/// The opening of notifications goes on only where an act was done, ends with what a relay said
/// where one failed, and asks for a pause of half a second and then for notifications to the
/// client.
pub proof fn law_opening(w: WalletConnect, text: String, act: OpenAct)
    ensures
        open_after(OpenStage::Publishing, Tried::Done) == OpenStage::Settling,
        open_after(OpenStage::Settling, Tried::Done) == OpenStage::Subscribing,
        open_after(OpenStage::Subscribing, Tried::Done) == OpenStage::Open,
        open_after(OpenStage::Publishing, Tried::Failed(text)) == OpenStage::Failed,
        open_after(OpenStage::Subscribing, Tried::Failed(text)) == OpenStage::Failed,
        open_after(OpenStage::Settling, Tried::Failed(text)) == OpenStage::Subscribing,
        forall|t: Tried| #[trigger] open_after(OpenStage::Open, t) == OpenStage::Open,
        forall|t: Tried| #[trigger] open_after(OpenStage::Failed, t) == OpenStage::Failed,
        w.open_fits(act, OpenStage::Publishing) ==> act is Publish,
        w.open_fits(act, OpenStage::Settling) ==> act == OpenAct::Pause(500),
        w.open_fits(act, OpenStage::Subscribing) ==> (act matches OpenAct::Subscribe(f) && f.kind
            == 23197 && f.to@ == public_key_for(secret_bytes(w.uri.secret))),
        w.open_fits(act, OpenStage::Open) ==> act is Rest,
        w.open_fits(act, OpenStage::Failed) ==> act is Rest,
{
}

/// The text of a subscription is the list of the names asked for, each once and in order; whether
/// it can be sealed depends on it and the two keys alone.
pub proof fn law_subscription_text(w: WalletConnect, names: Seq<Seq<char>>, i: int)
    ensures
        w.subscription_error(names) == seal_error(
            secret_bytes(w.uri.secret),
            w.uri.wallet@,
            json_text(crate::request::names_tree(names)),
        ),
        crate::request::names_tree(names) == json_array(
            Seq::new(names.len(), |j: int| json_string(names[j])),
        ),
        crate::request::lists(crate::request::names_tree(names), names) && 0 <= i < names.len()
            ==> (json_view(crate::request::names_tree(names)) matches
            crate::json::JsonView::Array(items) && items.len() == names.len() && text_in(items[i])
            == Some(names[i])),
{
    assert(names.map_values(|s: Seq<char>| json_string(s)) =~= Seq::new(
        names.len(),
        |j: int| json_string(names[j]),
    ));
}

/// A tree that asks for a method holds its name and its parameters and nothing else.
pub proof fn law_request_asks_for_the_method(v: Value, method: Seq<char>, params: Value)
    requires
        crate::request::asks_for(v, method, params),
    ensures
        member(v, "method"@) matches Some(name) && text_in(name) == Some(method),
        member(v, "params"@) == Some(params),
        forall|key: Seq<char>|
            key != "method"@ && key != "params"@ ==> #[trigger] member(v, key) is None,
{
}

/// A wallet's URI is read by its parts: the first thing missing is the error, the wallet's key
/// before the relays and the relays before the secret, and where nothing is, the wallet is the one
/// whose key it names, with all the relays and the last secret that it names.
pub proof fn law_wallet_uri_by_parts(s: Seq<char>)
    ensures
        match uri_parts(s, "nostr+walletconnect://"@) {
            None => wallet_uri(s) == Err::<WalletUriView, UriError>(UriError::Scheme),
            Some(p) => match public_key_in(p.key) {
                None => wallet_uri(s) == Err::<WalletUriView, UriError>(UriError::Wallet),
                Some(wallet) => if p.relays.len() == 0 {
                    wallet_uri(s) == Err::<WalletUriView, UriError>(UriError::NoRelay)
                } else {
                    match p.secret {
                        None => wallet_uri(s) == Err::<WalletUriView, UriError>(UriError::Secret),
                        Some(text) => match secret_key_in(text) {
                            None => wallet_uri(s) == Err::<WalletUriView, UriError>(
                                UriError::Secret,
                            ),
                            Some(secret) => wallet_uri(s) == Ok::<WalletUriView, UriError>(
                                WalletUriView { wallet, relays: p.relays, secret },
                            ),
                        },
                    }
                },
            },
        },
{
}

/// What a wallet's URI is seen as is all that it holds, and the client's key is that of its
/// secret.
pub proof fn law_wallet_uri_is_seen_whole(w: WalletConnect)
    ensures
        w.uri@.wallet == w.uri.wallet@,
        w.uri@.secret == secret_bytes(w.uri.secret),
        w.uri@.relays.len() == w.uri.relays@.len(),
        forall|i: int|
            0 <= i < w.uri.relays@.len() ==> #[trigger] w.uri@.relays[i] == w.uri.relays@[i]@,
        w.own_secret() == w.uri@.secret,
        w.own_key() == public_key_for(w.uri@.secret),
{
}

/// A wallet's notification is told exactly if it is of that kind and by the wallet, opens, names a
/// type and tells something; only the end of the stream ends the reading.
pub proof fn law_wallet_notifications(n: Notifications, signal: Signal, out: Listened)
    requires
        n.brings(signal, out),
    ensures
        out is End == signal is Ended,
        signal is Other ==> out is Again,
        signal matches Signal::Event(e) ==> (e.kind != 23197 || e.author@ != n.wallet@ ==> out is
            Again),
        signal matches Signal::Event(e) ==> (opened(
            secret_bytes(n.secret),
            n.wallet@,
            e.content@,
        ) is Err ==> out is Again),
        signal matches Signal::Event(e) ==> (opened(
            secret_bytes(n.secret),
            n.wallet@,
            e.content@,
        ) matches Ok(plain) ==> (json_parse(plain) matches Ok(v) ==> (member(
            v,
            "notification_type"@,
        ) matches Some(name) ==> (member(v, "notification"@) matches Some(told) ==> (e.kind == 23197
            && e.author@ == n.wallet@ && text_in(name) is Some ==> (out matches Listened::Got(got)
            && Some(got.notification_type.name()) == text_in(name) && got.notification == told)))))),
{
}

/// Whoever waits for one type gets a notification of that type and no other, waits on over others,
/// and gives up when the time or the stream ends.
pub proof fn law_waiting_for_one_type(
    want: WalletNotificationType,
    awaited: Awaited,
    out: Verdict,
)
    requires
        judges(want, awaited, out),
    ensures
        awaited is TimeOut || awaited is Ended ==> out is GiveUp,
        out is GiveUp ==> !(awaited is Got),
        awaited matches Awaited::Got(n) ==> (n.notification_type == want ==> out == Verdict::Got(n)),
        out matches Verdict::Got(n) ==> awaited == Awaited::Got(n) && n.notification_type.name()
            == want.name() && (n.notification_type is Unknown) == (want is Unknown),
        awaited matches Awaited::Got(n) ==> (n.notification_type.name() != want.name() ==> out is
            Again),
{
}

/// A request that is begun for a method, once the relays were asked for responses, carries that
/// method as it was typed and those parameters to the wallet.
pub proof fn law_begun_request_asks_for_the_method(
    w: WalletConnect,
    x: Exchange,
    method: Seq<char>,
    params: Value,
    to: Exchange,
    act: Act,
)
    requires
        x.begins(method, params),
        w.goes(x, Happened::Done, to, act),
    ensures
        x.sent is None,
        to.sent matches Some(out) ==> opened(
            secret_bytes(w.uri.secret),
            w.uri.wallet@,
            event_view(out.event).content,
        ) == Ok::<Seq<char>, Seq<char>>(
            json_text(json_object(seq![("method"@, json_string(method)), ("params"@, params)])),
        ),
        to.sent is Some == (act is Listen),
{
    law_request_is_made(w, x, to, act);
}

} // verus!
