//! The node control client: what is sent to a node service and what its answers mean.
//!
//! The connection URI is no credential. The client signs with its own key, which may live with
//! another program, so sealing, signing and opening are acts that the caller performs.
use vstd::prelude::*;
use vstd::string::*;
use std::time::Duration;
use nostr::signer::SignerError;
use serde_json::Value;
use crate::event::{Filter, Heard, Signal};
use crate::json;
use crate::json::{json_error_text, json_parse, json_text, json_view, member};
use crate::keys;
use crate::keys::{hex_text, signer_error_text, tag_texts, PublicKey};
use crate::link::{dial, dial_from, redial, redialed, Dial, Dialed};
use crate::nnc::uri::NodeControlUri;
use crate::nnc::{
    missing_member, node_names, present, type_names, ErrorCode, NncError, Notification,
    NotificationType, Response, ResultError,
};
use crate::request::{asks_for, lists, names_text, names_tree, request_text, request_tree};
use crate::text::{concat, texts};
use crate::time::{debug_text, duration_debug, nanos, Timer};

verus! {

/// Kind of a request.
pub const REQUEST_KIND: u16 = 23198;

/// Kind of a response.
pub const RESPONSE_KIND: u16 = 23199;

/// Kind of a notification.
pub const NOTIFICATION_KIND: u16 = 23200;

/// Kind of a subscription.
pub const SUBSCRIPTION_KIND: u16 = 30199;

/// How long to wait for a response, in seconds, unless told otherwise: a round trip.
pub const DEFAULT_TIMEOUT_SECS: u64 = 30;

/// How long to wait for an asynchronous outcome, in seconds, unless told otherwise. Much longer,
/// because it waits for a confirmation on the chain.
pub const DEFAULT_OUTCOME_TIMEOUT_SECS: u64 = 3600;

/// What an `UNAUTHORIZED` refusal most often means.
pub const NO_GRANT: &'static str =
    " — the node service has no grant for this client's pubkey. In NNC a connection URI is not a credential: the owner must publish a kind 30198 grant naming it.";

/// What can go wrong.
#[derive(Debug)]
pub enum Error {
    /// The node service refused.
    ///
    /// `UNAUTHORIZED` from a client that connected fine usually means that the owner has not
    /// published a grant for its public key.
    Refused(NncError),
    /// No response arrived in time.
    TimedOut(Duration),
    /// The response did not match its method's type.
    Result(ResultError),
    /// The relay layer failed.
    Relay(String),
    /// The signer failed.
    Signer(SignerError),
    /// Malformed JSON.
    Json(serde_json::Error),
}

impl Error {
    /// The error in words.
    pub open spec fn words(&self) -> Seq<char> {
        match self {
            Error::Refused(e) => if e.code is Unauthorized {
                e.line() + NO_GRANT@
            } else {
                e.line()
            },
            Error::TimedOut(d) => "no answer within "@ + duration_debug(*d),
            Error::Result(e) => e.text@,
            Error::Relay(e) => "relay: "@ + e@,
            Error::Signer(e) => "signer: "@ + signer_error_text(*e),
            Error::Json(e) => "json: "@ + json_error_text(*e),
        }
    }

    /// The error in words.
    pub fn to_text(&self) -> (r: String)
        ensures
            r@ == self.words(),
    {
        match self {
            Error::Refused(e) => if matches!(e.code, ErrorCode::Unauthorized) {
                concat(e.to_text().as_str(), NO_GRANT)
            } else {
                e.to_text()
            },
            Error::TimedOut(d) => concat("no answer within ", debug_text(d).as_str()),
            Error::Result(e) => e.text.clone(),
            Error::Relay(e) => concat("relay: ", e.as_str()),
            Error::Signer(e) => concat("signer: ", keys::signer_text(e).as_str()),
            Error::Json(e) => concat("json: ", json::error_text(e).as_str()),
        }
    }
}

impl From<serde_json::Error> for Error {
    fn from(e: serde_json::Error) -> (r: Error) {
        Error::Json(e)
    }
}

impl vstd::std_specs::convert::FromSpecImpl<serde_json::Error> for Error {
    open spec fn obeys_from_spec() -> bool {
        true
    }

    open spec fn from_spec(e: serde_json::Error) -> Error {
        Error::Json(e)
    }
}

/// Whether an outcome is the response that a plain text writes, or that it writes none.
pub open spec fn answers(plain: Seq<char>, out: Result<Response, Error>) -> bool {
    match json_parse(plain) {
        Ok(v) => if Response::written(v) {
            out matches Ok(response) && response.reads(v)
        } else {
            out matches Err(Error::Json(e)) && Response::names_flaw(v, e)
        },
        Err(text) => out matches Err(Error::Json(e)) && json_error_text(e) == text,
    }
}

/// Whether two responses are the same to a caller.
pub open spec fn same_response(a: Response, b: Response) -> bool {
    &&& a.result == b.result
    &&& match (a.error, b.error) {
        (Some(x), Some(y)) => x.code.name() == y.code.name() && x.line() == y.line(),
        (None, None) => true,
        _ => false,
    }
}

/// What one plain text means is one outcome: the same response, or malformed JSON, with the same
/// words where the text does not parse or its refusal misses a member.
pub proof fn law_one_answer_one_outcome(
    plain: Seq<char>,
    a: Result<Response, Error>,
    b: Result<Response, Error>,
)
    requires
        answers(plain, a),
        answers(plain, b),
    ensures
        match (a, b) {
            (Ok(x), Ok(y)) => same_response(x, y),
            (Err(Error::Json(x)), Err(Error::Json(y))) => (match json_parse(plain) {
                Ok(v) => present(v, "error"@) matches Some(m) && missing_member(m) is Some,
                Err(_) => true,
            }) ==> json_error_text(x) == json_error_text(y),
            _ => false,
        },
{
    reveal_strlit("UNAUTHORIZED");
    reveal_strlit("RESTRICTED");
    reveal_strlit("NOT_IMPLEMENTED");
    assert("UNAUTHORIZED"@.len() == 12 && "RESTRICTED"@.len() == 10);
    assert("NOT_IMPLEMENTED"@.len() == 15);
}

/// Whether an outcome is what a response means to a caller that takes its result as it is.
pub open spec fn settles(response: Response, out: Result<Value, Error>) -> bool {
    match (response.error, response.result) {
        (Some(e), _) => out == Err::<Value, Error>(Error::Refused(e)),
        (None, Some(v)) => out == Ok::<Value, Error>(v),
        (None, None) => out matches Ok(v) && json_view(v) is Null,
    }
}

/// Reads the plain text of an answer.
pub fn read_answer(plain: &str) -> (r: Result<Response, Error>)
    ensures
        answers(plain@, r),
        json_parse(plain@) matches Ok(v) ==> (r matches Ok(response) ==> match member(
            v,
            "result"@,
        ) {
            Some(result) => response.result == if json_view(result) is Null {
                None
            } else {
                Some(result)
            },
            None => response.result is None,
        }),
        json_parse(plain@) matches Ok(v) ==> (r matches Ok(response) ==> response.error is Some
            == match member(v, "error"@) {
            Some(error) => !(json_view(error) is Null),
            None => false,
        }),
{
    match json::parse(plain) {
        Ok(v) => match Response::read(v) {
            Ok(response) => Ok(response),
            Err(e) => Err(Error::from(e)),
        },
        Err(e) => Err(Error::from(e)),
    }
}

/// A client for one node service.
pub struct NostrNodeControl {
    /// Where the service is.
    pub uri: NodeControlUri,
    /// How long a synchronous command waits.
    pub timeout: Duration,
    /// How long an asynchronous outcome waits.
    pub outcome_timeout: Duration,
    /// Whether the relays are connected.
    pub connected: bool,
}

impl NostrNodeControl {
    /// A client that is not connected yet.
    pub fn new(uri: NodeControlUri) -> (r: NostrNodeControl)
        ensures
            r.uri == uri,
            nanos(r.timeout) == DEFAULT_TIMEOUT_SECS * 1_000_000_000,
            nanos(r.outcome_timeout) == DEFAULT_OUTCOME_TIMEOUT_SECS * 1_000_000_000,
            !r.connected,
    {
        NostrNodeControl {
            uri,
            timeout: Duration::from_secs(DEFAULT_TIMEOUT_SECS),
            outcome_timeout: Duration::from_secs(DEFAULT_OUTCOME_TIMEOUT_SECS),
            connected: false,
        }
    }

    /// How long a synchronous command waits.
    pub fn with_timeout(self, timeout: Duration) -> (r: NostrNodeControl)
        ensures
            r == (NostrNodeControl { timeout, ..self }),
    {
        NostrNodeControl {
            uri: self.uri,
            timeout,
            outcome_timeout: self.outcome_timeout,
            connected: self.connected,
        }
    }

    /// How long an asynchronous outcome waits.
    pub fn with_outcome_timeout(self, timeout: Duration) -> (r: NostrNodeControl)
        ensures
            r == (NostrNodeControl { outcome_timeout: timeout, ..self }),
    {
        NostrNodeControl {
            uri: self.uri,
            timeout: self.timeout,
            outcome_timeout: timeout,
            connected: self.connected,
        }
    }

    /// The node service this talks to.
    pub fn service(&self) -> (r: PublicKey)
        ensures
            r == self.uri.service,
    {
        self.uri.service
    }

    /// The wait for a response, which has not begun.
    pub fn wait(&self) -> (r: Timer)
        ensures
            r.limit == self.timeout,
            r.started is None,
    {
        Timer::new(self.timeout)
    }

    /// What comes first to reach the relays: nothing, where they are connected already.
    pub fn bootstrap(&self) -> (r: Dial)
        ensures
            r == if self.connected {
                Dial::Ready
            } else {
                dial_from(0, self.uri.relays@.len() as int)
            },
    {
        dial(self.connected, self.uri.relays.len())
    }

    /// Goes on reaching the relays. A relay that cannot be added ends the attempt, and the client
    /// stays unconnected.
    pub fn dialed(&mut self, at: Dial, heard: Dialed) -> (r: Result<Dial, Error>)
        ensures
            final(self).uri == old(self).uri,
            final(self).timeout == old(self).timeout,
            final(self).outcome_timeout == old(self).outcome_timeout,
            final(self).connected == (old(self).connected || r == Ok::<Dial, Error>(Dial::Ready)),
            match redialed(at, heard, old(self).uri.relays@.len() as int) {
                Ok(next) => r == Ok::<Dial, Error>(next),
                Err(text) => r matches Err(Error::Relay(e)) && e@ == text,
            },
    {
        match redial(at, heard, self.uri.relays.len()) {
            Ok(next) => {
                if next == Dial::Ready {
                    self.connected = true;
                }
                Ok(next)
            },
            Err(e) => Err(Error::Relay(e)),
        }
    }
}

/// An event to be signed.
pub struct Draft {
    /// Its kind.
    pub kind: u16,
    /// Its content, sealed for the service.
    pub content: String,
    /// Its tags.
    pub tags: Vec<Vec<String>>,
}

/// How far a request has come, with what the next step needs.
pub enum Stage {
    /// The signer is asked for the client's public key.
    Identifying,
    /// The relays are asked for responses to this key.
    Subscribing(PublicKey),
    /// The request is sealed for the service.
    Sealing,
    /// The event that carries this sealed text is signed.
    Signing(String),
    /// The stream of what the relays deliver is taken; the event has this id.
    Listening(String),
    /// The event with this id is published.
    Publishing(String),
    /// The response to the event with this id is awaited.
    Waiting(String),
    /// This sealed answer is opened.
    Opening(String),
    /// The request is over.
    Done,
}

/// What is to be done next for a request.
pub enum Act {
    /// Ask the signer for the client's public key.
    Identify,
    /// Ask the relays for these events.
    Subscribe(Filter),
    /// Have the signer seal this text for the service.
    Seal(String),
    /// Have this event signed.
    Sign(Draft),
    /// Take the stream of what the relays deliver.
    Listen,
    /// Publish the signed event.
    Publish,
    /// Wait for the next delivery.
    Wait,
    /// Have the signer open this text, which the service sealed.
    Open(String),
    /// Hand the outcome to the caller.
    Finish(Result<Response, Error>),
    /// Nothing: the outcome was handed over.
    Rest,
}

/// What came of the last act.
pub enum Happened {
    /// It was done.
    Done,
    /// It failed; the text says why.
    Failed(String),
    /// The signer failed.
    SignerFailed(SignerError),
    /// The client's public key is this.
    Known(PublicKey),
    /// The text was sealed to this.
    Sealed(String),
    /// The event was signed and has this id, in hexadecimal.
    Signed(String),
    /// The wait brought this.
    Heard(Heard),
    /// The answer opened to this.
    Opened(String),
}

/// Where a request goes from a stage.
pub enum Progress {
    /// To this stage.
    Go(Stage),
    /// To its end.
    End(Result<Response, Error>),
}

/// What a turn of waiting means.
pub enum Waited {
    /// The time has run out.
    TimedOut,
    /// Nothing yet.
    Again,
    /// This sealed answer has come.
    Answer(String),
}

/// A request under way.
pub struct Exchange {
    /// How far it has come.
    pub stage: Stage,
    /// The method that is asked for.
    pub method: String,
    /// Its parameters.
    pub params: Value,
}

impl Exchange {
    /// Whether a request for a method begins here.
    pub open spec fn begins(&self, method: Seq<char>, params: Value) -> bool {
        self.method@ == method && self.params == params && self.stage is Identifying
    }
}

impl NostrNodeControl {
    /// The tag that addresses an event to the service.
    pub open spec fn address(&self) -> Seq<Seq<char>> {
        seq!["p"@, hex_text(self.uri.service@)]
    }

    /// The tag under which the client's subscription with the service is kept.
    pub open spec fn identifier(&self) -> Seq<Seq<char>> {
        seq!["d"@, hex_text(self.uri.service@)]
    }

    /// What a turn of waiting for the response to a request means: an event counts only if it is
    /// of the kind of responses, by the service, and tagged with the id of the request.
    pub open spec fn waits(&self, request: Seq<char>, heard: Heard) -> Waited {
        match heard {
            Heard::Late => Waited::TimedOut,
            Heard::Elapsed => Waited::TimedOut,
            Heard::Other => Waited::Again,
            Heard::Event(e) => if e.is_answer(RESPONSE_KIND, self.uri.service@, request) {
                Waited::Answer(e.content)
            } else {
                Waited::Again
            },
        }
    }

    /// Tells what a turn of waiting means.
    pub fn await_response(&self, request: &str, heard: Heard) -> (r: Waited)
        ensures
            r == self.waits(request@, heard),
    {
        match heard {
            Heard::Late => Waited::TimedOut,
            Heard::Elapsed => Waited::TimedOut,
            Heard::Other => Waited::Again,
            Heard::Event(e) => if e.answers(RESPONSE_KIND, &self.uri.service, request) {
                Waited::Answer(e.content)
            } else {
                Waited::Again
            },
        }
    }

    /// Where a request goes from a stage. The relays are asked for responses before the request
    /// is sealed, and the stream is taken before it is published. What does not belong to the
    /// stage changes nothing.
    pub open spec fn moves(&self, stage: Stage, happened: Happened, to: Progress) -> bool {
        match (stage, happened) {
            (Stage::Identifying, Happened::Known(me)) => to == Progress::Go(
                Stage::Subscribing(me),
            ),
            (Stage::Identifying, Happened::SignerFailed(e)) => to == Progress::End(
                Err(Error::Signer(e)),
            ),
            (Stage::Subscribing(_), Happened::Done) => to == Progress::Go(Stage::Sealing),
            (Stage::Subscribing(_), Happened::Failed(e)) => to == Progress::End(
                Err(Error::Relay(e)),
            ),
            (Stage::Sealing, Happened::Sealed(sealed)) => to == Progress::Go(
                Stage::Signing(sealed),
            ),
            (Stage::Sealing, Happened::SignerFailed(e)) => to == Progress::End(
                Err(Error::Signer(e)),
            ),
            (Stage::Signing(_), Happened::Signed(id)) => to == Progress::Go(Stage::Listening(id)),
            (Stage::Signing(_), Happened::SignerFailed(e)) => to == Progress::End(
                Err(Error::Signer(e)),
            ),
            (Stage::Signing(_), Happened::Failed(e)) => to == Progress::End(Err(Error::Relay(e))),
            (Stage::Listening(id), Happened::Done) => to == Progress::Go(Stage::Publishing(id)),
            (Stage::Publishing(id), Happened::Done) => to == Progress::Go(Stage::Waiting(id)),
            (Stage::Publishing(_), Happened::Failed(e)) => to == Progress::End(
                Err(Error::Relay(e)),
            ),
            (Stage::Waiting(id), Happened::Heard(heard)) => match self.waits(id@, heard) {
                Waited::TimedOut => to == Progress::End(Err(Error::TimedOut(self.timeout))),
                Waited::Again => to == Progress::Go(stage),
                Waited::Answer(sealed) => to == Progress::Go(Stage::Opening(sealed)),
            },
            (Stage::Opening(_), Happened::Opened(plain)) => to matches Progress::End(out)
                && answers(plain@, out),
            (Stage::Opening(_), Happened::SignerFailed(e)) => to == Progress::End(
                Err(Error::Signer(e)),
            ),
            _ => to == Progress::Go(stage),
        }
    }

    /// Goes on from a stage.
    pub fn advance(&self, stage: Stage, happened: Happened) -> (r: Progress)
        ensures
            self.moves(stage, happened, r),
    {
        match (stage, happened) {
            (Stage::Identifying, Happened::Known(me)) => Progress::Go(Stage::Subscribing(me)),
            (Stage::Identifying, Happened::SignerFailed(e)) => Progress::End(
                Err(Error::Signer(e)),
            ),
            (Stage::Subscribing(_), Happened::Done) => Progress::Go(Stage::Sealing),
            (Stage::Subscribing(_), Happened::Failed(e)) => Progress::End(Err(Error::Relay(e))),
            (Stage::Sealing, Happened::Sealed(sealed)) => Progress::Go(Stage::Signing(sealed)),
            (Stage::Sealing, Happened::SignerFailed(e)) => Progress::End(Err(Error::Signer(e))),
            (Stage::Signing(_), Happened::Signed(id)) => Progress::Go(Stage::Listening(id)),
            (Stage::Signing(_), Happened::SignerFailed(e)) => Progress::End(
                Err(Error::Signer(e)),
            ),
            (Stage::Signing(_), Happened::Failed(e)) => Progress::End(Err(Error::Relay(e))),
            (Stage::Listening(id), Happened::Done) => Progress::Go(Stage::Publishing(id)),
            (Stage::Publishing(id), Happened::Done) => Progress::Go(Stage::Waiting(id)),
            (Stage::Publishing(_), Happened::Failed(e)) => Progress::End(Err(Error::Relay(e))),
            (Stage::Waiting(id), Happened::Heard(heard)) => {
                match self.await_response(id.as_str(), heard) {
                    Waited::TimedOut => Progress::End(Err(Error::TimedOut(self.timeout))),
                    Waited::Again => Progress::Go(Stage::Waiting(id)),
                    Waited::Answer(sealed) => Progress::Go(Stage::Opening(sealed)),
                }
            },
            (Stage::Opening(_), Happened::Opened(plain)) => Progress::End(
                read_answer(plain.as_str()),
            ),
            (Stage::Opening(_), Happened::SignerFailed(e)) => Progress::End(
                Err(Error::Signer(e)),
            ),
            (stage, _) => Progress::Go(stage),
        }
    }

    /// Whether an act is the one that a stage of a request asks for.
    pub open spec fn fits(&self, act: Act, x: Exchange) -> bool {
        match x.stage {
            Stage::Identifying => act is Identify,
            Stage::Subscribing(me) => act matches Act::Subscribe(f) && f.kind == RESPONSE_KIND
                && f.to == me,
            Stage::Sealing => act matches Act::Seal(text) && text@ == json_text(
                request_tree(x.method@, x.params),
            ) && asks_for(request_tree(x.method@, x.params), x.method@, x.params),
            Stage::Signing(sealed) => act matches Act::Sign(draft) && draft.kind == REQUEST_KIND
                && draft.content@ == sealed@ && tag_texts(draft.tags@) == seq![self.address()],
            Stage::Listening(_) => act is Listen,
            Stage::Publishing(_) => act is Publish,
            Stage::Waiting(_) => act is Wait,
            Stage::Opening(sealed) => act matches Act::Open(text) && text@ == sealed@,
            Stage::Done => act is Rest,
        }
    }

    /// What a stage of a request asks for.
    pub fn act(&self, x: &Exchange) -> (r: Act)
        ensures
            self.fits(r, *x),
    {
        match &x.stage {
            Stage::Identifying => Act::Identify,
            Stage::Subscribing(me) => Act::Subscribe(Filter { kind: RESPONSE_KIND, to: *me }),
            Stage::Sealing => match request_text(x.method.as_str(), json::duplicate(&x.params)) {
                Ok(text) => Act::Seal(text),
                Err(e) => Act::Finish(Err(Error::from(e))),
            },
            Stage::Signing(sealed) => {
                let tags: Vec<Vec<String>> = vec![
                    vec!["p".to_owned(), keys::public_key_hex(&self.uri.service)],
                ];
                assert(texts(tags@[0]@) =~= self.address());
                assert(tag_texts(tags@) =~= seq![self.address()]);
                Act::Sign(Draft { kind: REQUEST_KIND, content: sealed.clone(), tags })
            },
            Stage::Listening(_) => Act::Listen,
            Stage::Publishing(_) => Act::Publish,
            Stage::Waiting(_) => Act::Wait,
            Stage::Opening(sealed) => Act::Open(sealed.clone()),
            Stage::Done => Act::Rest,
        }
    }

    /// Begins a request for a method, once the relays are reached.
    pub fn send(&self, method: &str, params: Value) -> (r: Exchange)
        ensures
            r.begins(method@, params),
            r.stage is Identifying,
            r.method@ == method@,
            r.params == params,
    {
        Exchange { stage: Stage::Identifying, method: method.to_owned(), params }
    }

    /// Whether a request goes from one state to another, and asks for an act, after something
    /// happened.
    pub open spec fn goes(&self, x: Exchange, happened: Happened, to: Exchange, act: Act) -> bool {
        &&& to.method == x.method
        &&& to.params == x.params
        &&& match act {
            Act::Finish(out) => to.stage is Done && self.moves(
                x.stage,
                happened,
                Progress::End(out),
            ),
            act => self.moves(x.stage, happened, Progress::Go(to.stage)) && self.fits(act, to),
        }
    }

    /// Goes on with a request after an act, and says what is to be done next.
    pub fn step(&self, x: Exchange, happened: Happened) -> (r: (Exchange, Act))
        ensures
            self.goes(x, happened, r.0, r.1),
    {
        match self.advance(x.stage, happened) {
            Progress::Go(stage) => {
                let next: Exchange = Exchange { stage, method: x.method, params: x.params };
                let act: Act = self.act(&next);
                (next, act)
            },
            Progress::End(out) => (
                Exchange { stage: Stage::Done, method: x.method, params: x.params },
                Act::Finish(out),
            ),
        }
    }

    /// Begins a request for a method by name.
    ///
    /// For a method that is not known until it is typed. The name is not checked: a node that
    /// does not serve it answers so, which is the answer that was asked for. What the answer
    /// means is told by [`NostrNodeControl::settle`].
    pub fn call_raw(&self, method: &str, params: Value) -> (r: Exchange)
        ensures
            r.begins(method@, params),
            r.stage is Identifying,
            r.method@ == method@,
            r.params == params,
    {
        self.send(method, params)
    }

    /// What a response means to a caller that takes its result as it is: a refusal, or the
    /// result, and null where there is none.
    pub fn settle(&self, response: Response) -> (r: Result<Value, Error>)
        ensures
            settles(response, r),
            match response.error {
                Some(e) => r == Err::<Value, Error>(Error::Refused(e)),
                None => match response.result {
                    Some(v) => r == Ok::<Value, Error>(v),
                    None => r matches Ok(v) && json_view(v) is Null,
                },
            },
    {
        match response.error {
            Some(e) => Err(Error::Refused(e)),
            None => match response.result {
                Some(v) => Ok(v),
                None => Ok(json::null()),
            },
        }
    }

    /// What a response means to a caller that reads its result as a type of its own: a refusal
    /// comes before whatever became of the reading.
    pub fn call<R>(&self, response: Response, read: Result<R, ResultError>) -> (r: Result<R, Error>)
        ensures
            match response.error {
                Some(e) => r == Err::<R, Error>(Error::Refused(e)),
                None => match read {
                    Ok(v) => r == Ok::<R, Error>(v),
                    Err(e) => r == Err::<R, Error>(Error::Result(e)),
                },
            },
    {
        match response.error {
            Some(e) => Err(Error::Refused(e)),
            None => match read {
                Ok(v) => Ok(v),
                Err(e) => Err(Error::Result(e)),
            },
        }
    }

    /// Whether a run of stages and of what happened in each is one that a request can take from
    /// its beginning.
    pub open spec fn is_run(&self, stages: Seq<Stage>, happened: Seq<Happened>) -> bool {
        &&& stages.len() == happened.len() + 1
        &&& stages[0] is Identifying
        &&& forall|i: int|
            0 <= i < happened.len() ==> self.moves(
                #[trigger] stages[i],
                happened[i],
                Progress::Go(stages[i + 1]),
            )
    }

    /// A request is published only after the relays were asked for responses and, after that, the
    /// stream of what they deliver was taken: no response can come before somebody listens.
    pub proof fn law_listens_before_publishing(
        &self,
        stages: Seq<Stage>,
        happened: Seq<Happened>,
        n: int,
    )
        requires
            self.is_run(stages, happened),
            0 <= n < stages.len(),
            stages[n] is Publishing || stages[n] is Waiting || stages[n] is Opening,
        ensures
            exists|i: int, j: int|
                0 <= i < j < n && #[trigger] stages[i] is Subscribing && happened[i] is Done
                    && #[trigger] stages[j] is Listening && happened[j] is Done,
        decreases n,
    {
        assert(self.moves(stages[n - 1], happened[n - 1], Progress::Go(stages[n])));
        if stages[n - 1] is Listening {
            let i = self.lemma_subscribed(stages, happened, n - 1);
            assert(stages[i] is Subscribing && stages[n - 1] is Listening);
        } else {
            self.law_listens_before_publishing(stages, happened, n - 1);
        }
    }

    /// What decides a wait: what the first delivery means that is not passed over, if there is
    /// one.
    pub open spec fn deciding(&self, request: Seq<char>, heard: Seq<Heard>) -> Waited
        decreases heard.len(),
    {
        if heard.len() == 0 {
            Waited::Again
        } else {
            match self.waits(request, heard[0]) {
                Waited::Again => self.deciding(request, heard.skip(1)),
                decided => decided,
            }
        }
    }

    /// Whether a request that waits for the response to the event `id` goes through these states,
    /// and asks for these acts, as the waits bring these deliveries.
    pub open spec fn is_wait(
        &self,
        id: String,
        states: Seq<Exchange>,
        heard: Seq<Heard>,
        acts: Seq<Act>,
    ) -> bool {
        &&& states.len() == heard.len() + 1
        &&& acts.len() == heard.len()
        &&& states[0].stage == Stage::Waiting(id)
        &&& forall|i: int|
            0 <= i < heard.len() ==> self.goes(
                states[i],
                Happened::Heard(heard[i]),
                states[i + 1],
                #[trigger] acts[i],
            )
    }

    /// The stage that a wait leads to.
    pub open spec fn led_to(id: String, decided: Waited) -> Stage {
        match decided {
            Waited::Again => Stage::Waiting(id),
            Waited::TimedOut => Stage::Done,
            Waited::Answer(sealed) => Stage::Opening(sealed),
        }
    }

    /// The first delivery that is not passed over decides a wait, and whatever comes after changes
    /// nothing: the request waits on, gives up because the time has run out, or opens that answer
    /// and no other.
    pub proof fn law_first_answer_decides(
        &self,
        id: String,
        states: Seq<Exchange>,
        heard: Seq<Heard>,
        acts: Seq<Act>,
    )
        requires
            self.is_wait(id, states, heard, acts),
        ensures
            states.last().stage == NostrNodeControl::led_to(id, self.deciding(id@, heard)),
            forall|i: int|
                0 <= i < acts.len() ==> match #[trigger] acts[i] {
                    Act::Finish(out) => self.deciding(id@, heard) is TimedOut && out == Err::<
                        Response,
                        Error,
                    >(Error::TimedOut(self.timeout)),
                    Act::Open(text) => self.deciding(id@, heard) matches Waited::Answer(sealed)
                        && text@ == sealed@,
                    Act::Wait => true,
                    Act::Rest => self.deciding(id@, heard) is TimedOut,
                    _ => false,
                },
            self.deciding(id@, heard) is TimedOut ==> exists|i: int|
                0 <= i < acts.len() && #[trigger] acts[i] is Finish,
        decreases heard.len(),
    {
        if heard.len() > 0 {
            assert(self.goes(states[0], Happened::Heard(heard[0]), states[1], acts[0]));
            match self.waits(id@, heard[0]) {
                Waited::Again => {
                    let (s, h, a) = (states.skip(1), heard.skip(1), acts.skip(1));
                    assert forall|i: int| 0 <= i < h.len() implies self.goes(
                        s[i],
                        Happened::Heard(h[i]),
                        s[i + 1],
                        #[trigger] a[i],
                    ) by {
                        assert(a[i] == acts[i + 1]);
                    }
                    self.law_first_answer_decides(id, s, h, a);
                    assert(s.last() == states.last());
                    assert forall|i: int| 0 < i < acts.len() implies #[trigger] acts[i] == a[i
                        - 1] by {}
                    if self.deciding(id@, heard) is TimedOut {
                        let j = choose|j: int| 0 <= j < a.len() && #[trigger] a[j] is Finish;
                        assert(acts[j + 1] is Finish);
                    }
                },
                decided => {
                    let stage = NostrNodeControl::led_to(id, decided);
                    assert(states[1].stage == stage);
                    assert forall|i: int| 0 < i < states.len() implies (#[trigger] states[i]).stage
                        == stage by {
                        self.lemma_settled(id, states, heard, acts, i);
                    }
                    assert forall|i: int| 0 < i < acts.len() implies match #[trigger] acts[i] {
                        Act::Open(text) => decided matches Waited::Answer(sealed) && text@
                            == sealed@,
                        Act::Rest => decided is TimedOut,
                        _ => false,
                    } by {
                        assert(self.goes(
                            states[i],
                            Happened::Heard(heard[i]),
                            states[i + 1],
                            acts[i],
                        ));
                    }
                },
            }
        }
    }

    proof fn lemma_settled(
        &self,
        id: String,
        states: Seq<Exchange>,
        heard: Seq<Heard>,
        acts: Seq<Act>,
        n: int,
    )
        requires
            self.is_wait(id, states, heard, acts),
            heard.len() > 0,
            !(self.waits(id@, heard[0]) is Again),
            0 < n < states.len(),
        ensures
            states[n].stage == NostrNodeControl::led_to(id, self.waits(id@, heard[0])),
        decreases n,
    {
        assert(self.goes(states[0], Happened::Heard(heard[0]), states[1], acts[0]));
        if n > 1 {
            self.lemma_settled(id, states, heard, acts, n - 1);
            assert(self.goes(
                states[n - 1],
                Happened::Heard(heard[n - 1]),
                states[n - 1 + 1],
                acts[n - 1],
            ));
        }
    }

    /// Deliveries that are passed over may come in any number and at any place: what decides stays
    /// the same.
    pub proof fn law_other_deliveries_do_not_decide(
        &self,
        request: Seq<char>,
        before: Seq<Heard>,
        extra: Seq<Heard>,
        after: Seq<Heard>,
    )
        requires
            forall|i: int|
                0 <= i < extra.len() ==> self.waits(request, #[trigger] extra[i]) is Again,
        ensures
            self.deciding(request, before + extra + after) == self.deciding(
                request,
                before + after,
            ),
        decreases before.len() + extra.len(),
    {
        let all = before + extra + after;
        let plain = before + after;
        if before.len() > 0 {
            assert(all.skip(1) =~= before.skip(1) + extra + after);
            assert(plain.skip(1) =~= before.skip(1) + after);
            assert(all[0] == before[0] && plain[0] == before[0]);
            self.law_other_deliveries_do_not_decide(request, before.skip(1), extra, after);
        } else if extra.len() > 0 {
            assert(all.skip(1) =~= before + extra.skip(1) + after);
            assert(all[0] == extra[0]);
            self.law_other_deliveries_do_not_decide(request, before, extra.skip(1), after);
        } else {
            assert(all =~= plain);
        }
    }

    /// Two waits for the response to one event, of which one is brought deliveries that are passed
    /// over beside those of the other, lead to the same stage: both wait on, both give up, or both
    /// open the same answer.
    pub proof fn law_other_deliveries_do_not_matter(
        &self,
        id: String,
        states: Seq<Exchange>,
        acts: Seq<Act>,
        more_states: Seq<Exchange>,
        more_acts: Seq<Act>,
        before: Seq<Heard>,
        extra: Seq<Heard>,
        after: Seq<Heard>,
    )
        requires
            self.is_wait(id, states, before + after, acts),
            self.is_wait(id, more_states, before + extra + after, more_acts),
            forall|i: int| 0 <= i < extra.len() ==> self.waits(id@, #[trigger] extra[i]) is Again,
        ensures
            states.last().stage == more_states.last().stage,
            forall|i: int, j: int|
                0 <= i < acts.len() && 0 <= j < more_acts.len() ==> match (
                    #[trigger] acts[i],
                    #[trigger] more_acts[j],
                ) {
                    (Act::Finish(a), Act::Finish(b)) => a == b,
                    (Act::Open(a), Act::Open(b)) => a@ == b@,
                    (Act::Finish(_), Act::Open(_)) => false,
                    (Act::Open(_), Act::Finish(_)) => false,
                    _ => true,
                },
            (exists|i: int| 0 <= i < acts.len() && #[trigger] acts[i] is Finish) == (exists|
                j: int,
            | 0 <= j < more_acts.len() && #[trigger] more_acts[j] is Finish),
    {
        self.law_other_deliveries_do_not_decide(id@, before, extra, after);
        self.law_first_answer_decides(id, states, before + after, acts);
        self.law_first_answer_decides(id, more_states, before + extra + after, more_acts);
    }

    proof fn lemma_subscribed(&self, stages: Seq<Stage>, happened: Seq<Happened>, n: int) -> (i:
        int)
        requires
            self.is_run(stages, happened),
            0 <= n < stages.len(),
            stages[n] is Sealing || stages[n] is Signing || stages[n] is Listening,
        ensures
            0 <= i < n,
            stages[i] is Subscribing,
            happened[i] is Done,
        decreases n,
    {
        assert(self.moves(stages[n - 1], happened[n - 1], Progress::Go(stages[n])));
        if stages[n - 1] is Subscribing {
            n - 1
        } else {
            self.lemma_subscribed(stages, happened, n - 1)
        }
    }
}

/// How far the opening of a node's notifications has come, with what the next step needs.
pub enum OpenStage {
    /// The signer is asked for the client's public key.
    Identifying,
    /// The subscription is sealed for the service; the client has this key.
    Sealing(PublicKey),
    /// The event that carries this sealed text is signed.
    Signing(PublicKey, String),
    /// The subscription is published.
    Publishing(PublicKey),
    /// The relays are asked for notifications to this key.
    Subscribing(PublicKey),
    /// The opening is over.
    Over,
}

/// What is to be done next to open a node's notifications.
pub enum OpenAct {
    /// Ask the signer for the client's public key.
    Identify,
    /// Have the signer seal this text for the service.
    Seal(String),
    /// Have this event signed.
    Sign(Draft),
    /// Publish the signed event.
    Publish,
    /// Ask the relays for these events.
    Subscribe(Filter),
    /// Take the stream of what the relays deliver, and read it.
    Read,
    /// Hand the error to the caller.
    Fail(Error),
    /// Nothing: the opening is over.
    Rest,
}

/// The opening of a node's notifications.
pub struct Opening {
    /// How far it has come.
    pub stage: OpenStage,
    /// What the client asks to be told.
    pub types: Vec<NotificationType>,
}

/// Where an opening goes from a stage.
pub enum OpenProgress {
    /// To this stage.
    Go(OpenStage),
    /// To the reading of notifications.
    Read,
    /// To this error.
    Fail(Error),
}

/// Where an opening goes from a stage: the subscription is published before the relays are asked.
/// What does not belong to the stage changes nothing.
pub open spec fn open_after(stage: OpenStage, happened: Happened) -> OpenProgress {
    match (stage, happened) {
        (OpenStage::Identifying, Happened::Known(me)) => OpenProgress::Go(OpenStage::Sealing(me)),
        (OpenStage::Identifying, Happened::SignerFailed(e)) => OpenProgress::Fail(
            Error::Signer(e),
        ),
        (OpenStage::Sealing(me), Happened::Sealed(sealed)) => OpenProgress::Go(
            OpenStage::Signing(me, sealed),
        ),
        (OpenStage::Sealing(_), Happened::SignerFailed(e)) => OpenProgress::Fail(Error::Signer(e)),
        (OpenStage::Signing(me, _), Happened::Signed(_)) => OpenProgress::Go(
            OpenStage::Publishing(me),
        ),
        (OpenStage::Signing(_, _), Happened::SignerFailed(e)) => OpenProgress::Fail(
            Error::Signer(e),
        ),
        (OpenStage::Signing(_, _), Happened::Failed(e)) => OpenProgress::Fail(Error::Relay(e)),
        (OpenStage::Publishing(me), Happened::Done) => OpenProgress::Go(
            OpenStage::Subscribing(me),
        ),
        (OpenStage::Publishing(_), Happened::Failed(e)) => OpenProgress::Fail(Error::Relay(e)),
        (OpenStage::Subscribing(_), Happened::Done) => OpenProgress::Read,
        (OpenStage::Subscribing(_), Happened::Failed(e)) => OpenProgress::Fail(Error::Relay(e)),
        (stage, _) => OpenProgress::Go(stage),
    }
}

/// Goes on from a stage of an opening.
pub fn open_advance(stage: OpenStage, happened: Happened) -> (r: OpenProgress)
    ensures
        r == open_after(stage, happened),
{
    match (stage, happened) {
        (OpenStage::Identifying, Happened::Known(me)) => OpenProgress::Go(OpenStage::Sealing(me)),
        (OpenStage::Identifying, Happened::SignerFailed(e)) => OpenProgress::Fail(
            Error::Signer(e),
        ),
        (OpenStage::Sealing(me), Happened::Sealed(sealed)) => OpenProgress::Go(
            OpenStage::Signing(me, sealed),
        ),
        (OpenStage::Sealing(_), Happened::SignerFailed(e)) => OpenProgress::Fail(Error::Signer(e)),
        (OpenStage::Signing(me, _), Happened::Signed(_)) => OpenProgress::Go(
            OpenStage::Publishing(me),
        ),
        (OpenStage::Signing(_, _), Happened::SignerFailed(e)) => OpenProgress::Fail(
            Error::Signer(e),
        ),
        (OpenStage::Signing(_, _), Happened::Failed(e)) => OpenProgress::Fail(Error::Relay(e)),
        (OpenStage::Publishing(me), Happened::Done) => OpenProgress::Go(
            OpenStage::Subscribing(me),
        ),
        (OpenStage::Publishing(_), Happened::Failed(e)) => OpenProgress::Fail(Error::Relay(e)),
        (OpenStage::Subscribing(_), Happened::Done) => OpenProgress::Read,
        (OpenStage::Subscribing(_), Happened::Failed(e)) => OpenProgress::Fail(Error::Relay(e)),
        (stage, _) => OpenProgress::Go(stage),
    }
}

/// Whether what is read out of a plain text is the notification it writes, or that it is none.
pub open spec fn tells(plain: Seq<char>, out: Option<Notification>) -> bool {
    match json_parse(plain) {
        Ok(v) => if Notification::written(v) {
            out matches Some(n) && n.reads(v)
        } else {
            out is None
        },
        Err(_) => out is None,
    }
}

/// Reads a notification out of a plain text, where it writes one.
pub fn read_notification(plain: &str) -> (r: Option<Notification>)
    ensures
        tells(plain@, r),
{
    match json::parse(plain) {
        Ok(v) => Notification::read(&v),
        Err(_) => None,
    }
}

/// What an attempt to open a notification means: one that does not open, or that cannot be read,
/// is passed over, so that only the end of the stream ends the reading.
pub fn read_opened(opened: Result<String, SignerError>) -> (r: Option<Notification>)
    ensures
        match opened {
            Ok(plain) => tells(plain@, r),
            Err(_) => r is None,
        },
{
    match opened {
        Ok(plain) => read_notification(plain.as_str()),
        Err(_) => None,
    }
}

/// What a signal means to a reader of notifications.
pub enum Noticed {
    /// There will be no more.
    End,
    /// Nothing; the next signal is to be awaited.
    Again,
    /// This sealed notification is to be opened.
    Open(String),
}

impl NostrNodeControl {
    /// Begins to subscribe to a node's notifications of some types, once the relays are reached.
    /// Asking for nothing is how a client stops being told anything.
    pub fn set_subscription(&self, types: Vec<NotificationType>) -> (r: Opening)
        ensures
            r.stage is Identifying,
            r.types == types,
    {
        Opening { stage: OpenStage::Identifying, types }
    }

    /// Whether an act is the one that a stage of an opening asks for.
    pub open spec fn open_fits(&self, act: OpenAct, o: Opening) -> bool {
        match o.stage {
            OpenStage::Identifying => act is Identify,
            OpenStage::Sealing(_) => act matches OpenAct::Seal(text) && text@ == json_text(
                names_tree(node_names(o.types@)),
            ) && lists(names_tree(node_names(o.types@)), node_names(o.types@)),
            OpenStage::Signing(_, sealed) => act matches OpenAct::Sign(draft) && draft.kind
                == SUBSCRIPTION_KIND && draft.content@ == sealed@ && tag_texts(draft.tags@)
                == seq![self.identifier(), self.address()],
            OpenStage::Publishing(_) => act is Publish,
            OpenStage::Subscribing(me) => act matches OpenAct::Subscribe(f) && f.kind
                == NOTIFICATION_KIND && f.to == me,
            OpenStage::Over => act is Rest,
        }
    }

    /// What a stage of an opening asks for.
    pub fn open_act(&self, o: &Opening) -> (r: OpenAct)
        ensures
            self.open_fits(r, *o),
    {
        match &o.stage {
            OpenStage::Identifying => OpenAct::Identify,
            OpenStage::Sealing(_) => match names_text(&type_names(&o.types)) {
                Ok(text) => OpenAct::Seal(text),
                Err(e) => OpenAct::Fail(Error::from(e)),
            },
            OpenStage::Signing(_, sealed) => {
                let hex: String = keys::public_key_hex(&self.uri.service);
                let tags: Vec<Vec<String>> = vec![
                    vec!["d".to_owned(), hex.clone()],
                    vec!["p".to_owned(), hex],
                ];
                assert(texts(tags@[0]@) =~= self.identifier());
                assert(texts(tags@[1]@) =~= self.address());
                assert(tag_texts(tags@) =~= seq![self.identifier(), self.address()]);
                OpenAct::Sign(Draft { kind: SUBSCRIPTION_KIND, content: sealed.clone(), tags })
            },
            OpenStage::Publishing(_) => OpenAct::Publish,
            OpenStage::Subscribing(me) => OpenAct::Subscribe(
                Filter { kind: NOTIFICATION_KIND, to: *me },
            ),
            OpenStage::Over => OpenAct::Rest,
        }
    }

    /// Goes on with an opening after an act, and says what is to be done next.
    pub fn open_step(&self, o: Opening, happened: Happened) -> (r: (Opening, OpenAct))
        ensures
            r.0.types == o.types,
            match open_after(o.stage, happened) {
                OpenProgress::Go(stage) => r.0.stage == stage && self.open_fits(r.1, r.0),
                OpenProgress::Read => r.0.stage is Over && r.1 is Read,
                OpenProgress::Fail(e) => r.0.stage is Over && r.1 == OpenAct::Fail(e),
            },
    {
        match open_advance(o.stage, happened) {
            OpenProgress::Go(stage) => {
                let next: Opening = Opening { stage, types: o.types };
                let act: OpenAct = self.open_act(&next);
                (next, act)
            },
            OpenProgress::Read => (Opening { stage: OpenStage::Over, types: o.types }, OpenAct::Read),
            OpenProgress::Fail(e) => (
                Opening { stage: OpenStage::Over, types: o.types },
                OpenAct::Fail(e),
            ),
        }
    }

    /// Whether a reader of the node's notifications makes this of a signal.
    pub open spec fn notices(&self, signal: Signal, out: Noticed) -> bool {
        match signal {
            Signal::Ended => out is End,
            Signal::Event(e) if e.is_from(NOTIFICATION_KIND, self.uri.service@) => out
                == Noticed::Open(e.content),
            _ => out is Again,
        }
    }

    /// What a signal means to a reader of the node's notifications: an event that is no
    /// notification of this service is passed over.
    pub fn handle_notifications(&self, signal: Signal) -> (r: Noticed)
        ensures
            self.notices(signal, r),
            match signal {
                Signal::Ended => r is End,
                Signal::Other => r is Again,
                Signal::Event(e) => if e.is_from(NOTIFICATION_KIND, self.uri.service@) {
                    r == Noticed::Open(e.content)
                } else {
                    r is Again
                },
            },
    {
        match signal {
            Signal::Ended => Noticed::End,
            Signal::Other => Noticed::Again,
            Signal::Event(e) => if e.came_from(NOTIFICATION_KIND, &self.uri.service) {
                Noticed::Open(e.content)
            } else {
                Noticed::Again
            },
        }
    }
}

/// Whether a run of stages and of what happened in each is one that an opening can take from its
/// beginning.
pub open spec fn is_opening(stages: Seq<OpenStage>, happened: Seq<Happened>) -> bool {
    &&& stages.len() == happened.len() + 1
    &&& stages[0] is Identifying
    &&& forall|i: int|
        0 <= i < happened.len() ==> open_after(#[trigger] stages[i], happened[i])
            == OpenProgress::Go(stages[i + 1])
}

/// The relays are asked for notifications only after the subscription was published: a service
/// sends nothing to a client that has not asked it.
pub proof fn law_publishes_before_subscribing(
    stages: Seq<OpenStage>,
    happened: Seq<Happened>,
    n: int,
)
    requires
        is_opening(stages, happened),
        0 <= n < stages.len(),
        stages[n] is Subscribing,
    ensures
        exists|i: int| 0 <= i < n && #[trigger] stages[i] is Publishing && happened[i] is Done,
    decreases n,
{
    assert(open_after(stages[n - 1], happened[n - 1]) == OpenProgress::Go(stages[n]));
    if stages[n - 1] is Subscribing {
        law_publishes_before_subscribing(stages, happened, n - 1);
    }
}

} // verus!
