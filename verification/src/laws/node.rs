//! What a request to a node comes to, from the first act to the outcome.
use vstd::prelude::*;
use vstd::string::*;
use nostr::signer::SignerError;
use serde_json::Value;
use crate::event::{Heard, Incoming, Signal};
use crate::json::{
    json_array, json_error_text, json_object, json_parse, json_string, json_text, json_view, member,
    text_in,
};
use crate::keys::{hex_text, signer_error_text, tag_texts, PublicKey};
use crate::laws::wallet::law_answers_are_told_by_kind_author_and_tag;
use crate::nnc::client::{
    answers, open_after, settles, Act, Error, Exchange, Happened, NostrNodeControl, Noticed, OpenAct,
    OpenProgress, OpenStage, Opening, Progress, Stage,
};
use crate::nnc::{node_names, Response};
use crate::time::duration_debug;

verus! {

/// Where the signer fails, in whichever stage it is asked for something, its error is the outcome,
/// and nothing more is done.
pub proof fn law_signer_failure_is_the_outcome(
    n: NostrNodeControl,
    x: Exchange,
    e: SignerError,
    to: Exchange,
    act: Act,
)
    requires
        x.stage is Identifying || x.stage is Sealing || x.stage is Signing || x.stage is Opening,
        n.goes(x, Happened::SignerFailed(e), to, act),
    ensures
        act == Act::Finish(Err(Error::Signer(e))),
        to.stage is Done,
{
}

/// Where a relay fails, or the event cannot be made, what it said is the outcome.
pub proof fn law_relay_failure_is_the_outcome(
    n: NostrNodeControl,
    x: Exchange,
    text: String,
    to: Exchange,
    act: Act,
)
    requires
        x.stage is Subscribing || x.stage is Signing || x.stage is Publishing,
        n.goes(x, Happened::Failed(text), to, act),
    ensures
        act == Act::Finish(Err(Error::Relay(text))),
        to.stage is Done,
{
}

/// The relays are asked for responses to the key that the signer gave.
pub proof fn law_responses_are_asked_for(
    n: NostrNodeControl,
    x: Exchange,
    me: PublicKey,
    to: Exchange,
    act: Act,
)
    requires
        x.stage is Identifying,
        n.goes(x, Happened::Known(me), to, act),
    ensures
        act matches Act::Subscribe(f) && f.kind == 23199 && f.to == me,
        to == (Exchange { stage: Stage::Subscribing(me), ..x }),
{
}

/// What is sealed is the method as it was given and its parameters.
pub proof fn law_request_is_sealed(n: NostrNodeControl, x: Exchange, to: Exchange, act: Act)
    requires
        x.stage is Subscribing,
        n.goes(x, Happened::Done, to, act),
    ensures
        act matches Act::Seal(text) && text@ == json_text(
            json_object(seq![("method"@, json_string(x.method@)), ("params"@, x.params)]),
        ),
        to == (Exchange { stage: Stage::Sealing, ..x }),
{
}

/// What is signed is an event of the kind of requests that carries the sealed text and is
/// addressed to the service.
pub proof fn law_request_is_signed(
    n: NostrNodeControl,
    x: Exchange,
    sealed: String,
    to: Exchange,
    act: Act,
)
    requires
        x.stage is Sealing,
        n.goes(x, Happened::Sealed(sealed), to, act),
    ensures
        act matches Act::Sign(draft) && draft.kind == 23198 && draft.content@ == sealed@
            && tag_texts(draft.tags@) == seq![seq!["p"@, hex_text(n.uri.service@)]],
        to == (Exchange { stage: Stage::Signing(sealed), ..x }),
{
}

/// A signed event is listened for, then published, then its response is awaited, always under the
/// id that it was signed with.
pub proof fn law_signed_event_is_published(
    n: NostrNodeControl,
    x: Exchange,
    id: String,
    to: Exchange,
    act: Act,
)
    ensures
        x.stage is Signing && n.goes(x, Happened::Signed(id), to, act) ==> act is Listen && to == (
        Exchange { stage: Stage::Listening(id), ..x }),
        x.stage == Stage::Listening(id) && n.goes(x, Happened::Done, to, act) ==> act is Publish
            && to == (Exchange { stage: Stage::Publishing(id), ..x }),
        x.stage == Stage::Publishing(id) && n.goes(x, Happened::Done, to, act) ==> act is Wait
            && to == (Exchange { stage: Stage::Waiting(id), ..x }),
{
}

/// An event is one that the service answers the request with this id with.
pub open spec fn is_reply(n: NostrNodeControl, id: Seq<char>, e: Incoming) -> bool {
    &&& e.kind == 23199
    &&& e.author@ == n.uri.service@
    &&& exists|i: int|
        0 <= i < e.tags@.len() && (#[trigger] e.tags@[i])@.len() >= 2 && e.tags@[i]@[0]@ == "e"@
            && e.tags@[i]@[1]@ == id
}

/// The service's answer to the request is opened, any other event leaves the request waiting as it
/// was, and so does what is no event.
pub proof fn law_only_the_answer_is_opened(
    n: NostrNodeControl,
    x: Exchange,
    id: String,
    e: Incoming,
    to: Exchange,
    act: Act,
)
    requires
        x.stage == Stage::Waiting(id),
    ensures
        is_reply(n, id@, e) && n.goes(x, Happened::Heard(Heard::Event(e)), to, act) ==> (act matches
            Act::Open(text) && text@ == e.content@ && to == (Exchange {
            stage: Stage::Opening(e.content),
            ..x
        })),
        !is_reply(n, id@, e) && n.goes(x, Happened::Heard(Heard::Event(e)), to, act) ==> act is Wait
            && to == x,
        n.goes(x, Happened::Heard(Heard::Other), to, act) ==> act is Wait && to == x,
{
    law_answers_are_told_by_kind_author_and_tag(e, 23199, n.uri.service@, id@);
}

/// A request that waits, and whose time has run out, ends with the timeout that was set.
pub proof fn law_timeout_is_the_outcome(
    n: NostrNodeControl,
    x: Exchange,
    heard: Heard,
    to: Exchange,
    act: Act,
)
    requires
        x.stage is Waiting,
        heard is Late || heard is Elapsed,
        n.goes(x, Happened::Heard(heard), to, act),
    ensures
        act == Act::Finish(Err(Error::TimedOut(n.timeout))),
        to.stage is Done,
{
}

/// An answer with an error is handed over as a response with that refusal, whatever else the
/// answer holds.
pub proof fn law_refusal_is_handed_over(
    n: NostrNodeControl,
    x: Exchange,
    plain: String,
    v: Value,
    error: Value,
    code: Value,
    message: Value,
    to: Exchange,
    act: Act,
)
    requires
        x.stage is Opening,
        json_parse(plain@) == Ok::<Value, Seq<char>>(v),
        member(v, "error"@) == Some(error),
        !(json_view(error) is Null),
        member(error, "code"@) == Some(code),
        text_in(code) is Some,
        member(error, "message"@) == Some(message),
        text_in(message) is Some,
        n.goes(x, Happened::Opened(plain), to, act),
    ensures
        act matches Act::Finish(Ok(response)) && (response.error matches Some(e) && Some(
            e.code.wire(),
        ) == text_in(code) && Some(e.message@) == text_in(message)),
{
}

/// An answer without an error is handed over as a response with its result as it is, whatever else
/// the answer holds.
pub proof fn law_result_is_handed_over(
    n: NostrNodeControl,
    x: Exchange,
    plain: String,
    v: Value,
    result: Value,
    to: Exchange,
    act: Act,
)
    requires
        x.stage is Opening,
        json_parse(plain@) == Ok::<Value, Seq<char>>(v),
        member(v, "error"@) matches Some(error) ==> json_view(error) is Null,
        member(v, "result"@) == Some(result),
        !(json_view(result) is Null),
        n.goes(x, Happened::Opened(plain), to, act),
    ensures
        act matches Act::Finish(Ok(response)) && response.error is None && response.result == Some(
            result,
        ),
{
}

/// An answer that is no JSON is handed over as that error.
pub proof fn law_malformed_answer_is_handed_over(
    n: NostrNodeControl,
    x: Exchange,
    plain: String,
    words: Seq<char>,
    to: Exchange,
    act: Act,
)
    requires
        x.stage is Opening,
        json_parse(plain@) == Err::<Value, Seq<char>>(words),
        n.goes(x, Happened::Opened(plain), to, act),
    ensures
        act matches Act::Finish(Err(Error::Json(e))) && json_error_text(e) == words,
{
}

/// A request keeps its method and parameters whatever happens, hands over one outcome, and does
/// nothing after that.
pub proof fn law_request_stays_the_same(
    n: NostrNodeControl,
    x: Exchange,
    happened: Happened,
    to: Exchange,
    act: Act,
)
    requires
        n.goes(x, happened, to, act),
    ensures
        to.method == x.method,
        to.params == x.params,
        x.stage is Done ==> to == x && act is Rest,
        act is Finish ==> to.stage is Done && !(x.stage is Done),
        to.stage is Done && !(x.stage is Done) ==> act is Finish,
{
}

/// What does not belong to a stage changes nothing.
pub proof fn law_strays_change_nothing(
    n: NostrNodeControl,
    x: Exchange,
    happened: Happened,
    to: Exchange,
    act: Act,
)
    requires
        n.goes(x, happened, to, act),
        match x.stage {
            Stage::Identifying => !(happened is Known) && !(happened is SignerFailed),
            Stage::Subscribing(_) => !(happened is Done) && !(happened is Failed),
            Stage::Sealing => !(happened is Sealed) && !(happened is SignerFailed),
            Stage::Signing(_) => !(happened is Signed) && !(happened is Failed) && !(happened is
                SignerFailed),
            Stage::Listening(_) => !(happened is Done),
            Stage::Publishing(_) => !(happened is Done) && !(happened is Failed),
            Stage::Waiting(_) => !(happened is Heard),
            Stage::Opening(_) => !(happened is Opened) && !(happened is SignerFailed),
            Stage::Done => true,
        },
    ensures
        to == x,
        !(act is Finish),
{
}

/// Each error is said with what it holds; an `UNAUTHORIZED` refusal, and no other, also says what
/// is missing.
pub proof fn law_node_error_words(e: Error)
    ensures
        e matches Error::Refused(r) ==> e.words() == r.code.wire() + ": "@ + r.message@ + if r.code
            is Unauthorized {
            " — the node service has no grant for this client's pubkey. In NNC a connection URI is not a credential: the owner must publish a kind 30198 grant naming it."@
        } else {
            Seq::empty()
        },
        e matches Error::TimedOut(d) ==> e.words() == "no answer within "@ + duration_debug(d),
        e matches Error::Result(r) ==> e.words() == r.text@,
        e matches Error::Relay(t) ==> e.words() == "relay: "@ + t@,
        e matches Error::Signer(s) ==> e.words() == "signer: "@ + signer_error_text(s),
        e matches Error::Json(j) ==> e.words() == "json: "@ + json_error_text(j),
{
    if let Error::Refused(r) = e {
        let line = r.code.wire() + ": "@ + r.message@;
        assert(line + Seq::<char>::empty() =~= line);
    }
}

/// The opening of notifications goes from the key to the sealed list, the signed event, the
/// publishing and the asking of the relays, and ends with the error of whoever failed.
pub proof fn law_opening(
    me: PublicKey,
    sealed: String,
    id: String,
    text: String,
    e: SignerError,
)
    ensures
        open_after(OpenStage::Identifying, Happened::Known(me)) == OpenProgress::Go(
            OpenStage::Sealing(me),
        ),
        open_after(OpenStage::Sealing(me), Happened::Sealed(sealed)) == OpenProgress::Go(
            OpenStage::Signing(me, sealed),
        ),
        open_after(OpenStage::Signing(me, sealed), Happened::Signed(id)) == OpenProgress::Go(
            OpenStage::Publishing(me),
        ),
        open_after(OpenStage::Publishing(me), Happened::Done) == OpenProgress::Go(
            OpenStage::Subscribing(me),
        ),
        open_after(OpenStage::Subscribing(me), Happened::Done) == OpenProgress::Read,
        forall|stage: OpenStage|
            stage is Identifying || stage is Sealing || stage is Signing
                ==> #[trigger] open_after(stage, Happened::SignerFailed(e)) == OpenProgress::Fail(
                Error::Signer(e),
            ),
        forall|stage: OpenStage|
            stage is Signing || stage is Publishing || stage is Subscribing
                ==> #[trigger] open_after(stage, Happened::Failed(text)) == OpenProgress::Fail(
                Error::Relay(text),
            ),
        forall|happened: Happened| #[trigger]
            open_after(OpenStage::Over, happened) == OpenProgress::Go(OpenStage::Over),
{
}

/// A subscription carries the list of the names asked for, in order, under the service's key, and
/// notifications to the client are asked for.
pub proof fn law_opening_acts(n: NostrNodeControl, o: Opening, act: OpenAct)
    requires
        n.open_fits(act, o),
    ensures
        o.stage is Identifying ==> act is Identify,
        o.stage is Sealing ==> (act matches OpenAct::Seal(text) && text@ == json_text(
            json_array(
                Seq::new(o.types@.len(), |i: int| json_string(o.types@[i].name())),
            ),
        )),
        o.stage matches OpenStage::Signing(_, sealed) ==> (act matches OpenAct::Sign(draft)
            && draft.kind == 30199 && draft.content@ == sealed@ && tag_texts(draft.tags@) == seq![
            seq!["d"@, hex_text(n.uri.service@)],
            seq!["p"@, hex_text(n.uri.service@)],
        ]),
        o.stage is Publishing ==> act is Publish,
        o.stage matches OpenStage::Subscribing(me) ==> (act matches OpenAct::Subscribe(f) && f.kind
            == 23200 && f.to == me),
        o.stage is Over ==> act is Rest,
{
    let names = node_names(o.types@);
    assert(names.map_values(|s: Seq<char>| json_string(s)) =~= Seq::new(
        o.types@.len(),
        |i: int| json_string(o.types@[i].name()),
    ));
}

/// A request moves on or ends, and never both.
pub proof fn law_one_way_on(
    n: NostrNodeControl,
    stage: Stage,
    happened: Happened,
    a: Progress,
    b: Progress,
)
    requires
        n.moves(stage, happened, a),
        n.moves(stage, happened, b),
    ensures
        a is Go == b is Go,
        a is Go ==> a == b,
{
}

/// Each stage asks for its act, over what it holds.
pub proof fn law_acts_of_stages(n: NostrNodeControl, x: Exchange, act: Act)
    requires
        n.fits(act, x),
    ensures
        x.stage is Identifying ==> act is Identify,
        x.stage matches Stage::Subscribing(me) ==> (act matches Act::Subscribe(f) && f.kind == 23199
            && f.to == me),
        x.stage is Sealing ==> act is Seal,
        x.stage matches Stage::Signing(sealed) ==> (act matches Act::Sign(draft) && draft.content@
            == sealed@),
        x.stage is Listening ==> act is Listen,
        x.stage is Publishing ==> act is Publish,
        x.stage is Waiting ==> act is Wait,
        x.stage matches Stage::Opening(sealed) ==> (act matches Act::Open(text) && text@ == sealed@),
        x.stage is Done ==> act is Rest,
{
}

/// What does not belong to a stage of an opening changes nothing.
pub proof fn law_opening_strays(stage: OpenStage, happened: Happened)
    requires
        match stage {
            OpenStage::Identifying => !(happened is Known) && !(happened is SignerFailed),
            OpenStage::Sealing(_) => !(happened is Sealed) && !(happened is SignerFailed),
            OpenStage::Signing(_, _) => !(happened is Signed) && !(happened is Failed) && !(
            happened is SignerFailed),
            OpenStage::Publishing(_) => !(happened is Done) && !(happened is Failed),
            OpenStage::Subscribing(_) => !(happened is Done) && !(happened is Failed),
            OpenStage::Over => true,
        },
    ensures
        open_after(stage, happened) == OpenProgress::Go(stage),
{
}

/// An answer that is read and settled gives the caller its refusal where it has an error, else its
/// result as it is, and null where there is none, whatever else the answer holds.
pub proof fn law_answer_is_settled(
    plain: Seq<char>,
    v: Value,
    response: Response,
    out: Result<Value, Error>,
)
    requires
        json_parse(plain) == Ok::<Value, Seq<char>>(v),
        answers(plain, Ok(response)),
        settles(response, out),
    ensures
        member(v, "error"@) matches Some(error) ==> (!(json_view(error) is Null) ==> (out matches Err(
            Error::Refused(e),
        ) && (member(error, "code"@) matches Some(code) && text_in(code) == Some(e.code.wire())) && (
        member(error, "message"@) matches Some(message) && text_in(message) == Some(e.message@)))),
        (member(v, "error"@) is None || json_view(member(v, "error"@)->0) is Null) ==> match member(
            v,
            "result"@,
        ) {
            Some(result) => out matches Ok(r) && (r == result || json_view(r) is Null && json_view(
                result,
            ) is Null),
            None => out matches Ok(r) && json_view(r) is Null,
        },
{
}

/// A node and a wallet that answer with the same text give their callers the same.
pub proof fn law_node_answers_as_a_wallet_does(
    plain: Seq<char>,
    response: Response,
    a: Result<Value, Error>,
    b: Result<Value, crate::nwc::client::Error>,
)
    requires
        answers(plain, Ok(response)),
        settles(response, a),
        crate::nwc::client::says(plain, b),
    ensures
        a matches Ok(x) ==> (b matches Ok(y) && (x == y || json_view(x) is Null && json_view(y) is
            Null)),
        a matches Err(Error::Refused(e)) ==> (b matches Err(crate::nwc::client::Error::Refused(f))
            && e.code.wire() == f.code.wire() && e.message@ == f.message@),
        a is Err ==> a matches Err(Error::Refused(_)),
{
}

/// A node's notification is opened exactly if it is of that kind and by the service; only the end of
/// the stream ends the reading.
pub proof fn law_node_notifications(n: NostrNodeControl, signal: Signal, out: Noticed)
    requires
        n.notices(signal, out),
    ensures
        out is End == signal is Ended,
        signal is Other ==> out is Again,
        signal matches Signal::Event(e) ==> (e.kind == 23200 && e.author@ == n.uri.service@
            ==> out == Noticed::Open(e.content)),
        signal matches Signal::Event(e) ==> (e.kind != 23200 || e.author@ != n.uri.service@
            ==> out is Again),
{
}

/// A request that is begun for a method first asks who the client is, and what is sealed for it in
/// the end is that method as it was typed and those parameters.
pub proof fn law_begun_request_asks_for_the_method(
    n: NostrNodeControl,
    x: Exchange,
    method: Seq<char>,
    params: Value,
    act: Act,
    sealing: Exchange,
    seal: Act,
)
    requires
        x.begins(method, params),
        n.fits(act, x),
        sealing == (Exchange { stage: Stage::Sealing, ..x }),
        n.fits(seal, sealing),
    ensures
        act is Identify,
        seal matches Act::Seal(text) && text@ == json_text(
            json_object(seq![("method"@, json_string(method)), ("params"@, params)]),
        ),
{
}

} // verus!
