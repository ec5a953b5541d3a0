//! The wallet connect client: where a wallet is, what is sent to it and what its answers mean.
//!
//! The connection URI carries the client's own secret key, so it is the whole credential.
use vstd::prelude::*;
use vstd::string::*;
use std::time::Duration;
use nostr::signer::SignerError;
use nostr::{Event, SecretKey};
use serde_json::Value;
use crate::event::{Filter, Heard, Signal};
use crate::json;
use crate::json::{json_error_text, json_parse, json_text, json_view, member, text_in};
use crate::keys;
use crate::keys::{
    event_view, hex_text, kept_tags, opened, public_key_for, public_key_in, seal_error,
    secret_bytes, secret_key_in, signer_error_text, tag_texts, PublicKey,
};
use crate::link::{dial, dial_from, redial, redialed, Dial, Dialed};
use crate::nnc::{
    error_texts, find_present, missing_member, names_flaw, present, NncError, ResultError,
};
use crate::nwc::{type_names, wallet_names, WalletNotification, WalletNotificationType};
use crate::request::{asks_for, lists, names_text, names_tree, request_text, request_tree};
use crate::text::{concat, texts};
use crate::time::{debug_text, duration_debug, nanos, Timer};
use crate::uri::{
    all_stand_for, law_written_uri_reads_back, split_uri, stands_for, uri_parts, written_uri,
};
use crate::SUBSCRIPTION_KIND;

verus! {

/// Kind of a request.
pub const REQUEST_KIND: u16 = 23194;

/// Kind of a response.
pub const RESPONSE_KIND: u16 = 23195;

/// Kind of a notification.
pub const NOTIFICATION_KIND: u16 = 23197;

/// The scheme of a wallet's URI.
pub const SCHEME: &'static str = "nostr+walletconnect://";

/// How long to wait for a response, in seconds, unless told otherwise.
pub const DEFAULT_TIMEOUT_SECS: u64 = 30;

/// How long a published subscription is given to take effect, in milliseconds.
pub const SETTLE_MILLIS: u64 = 500;

/// Where a wallet is, and the key to reach it with.
#[derive(Clone, Debug)]
pub struct WalletUri {
    /// The wallet service's public key.
    pub wallet: PublicKey,
    /// Where it listens.
    pub relays: Vec<String>,
    /// The client's own key.
    pub secret: SecretKey,
}

/// What a wallet's URI holds.
pub struct WalletUriView {
    /// The bytes of the wallet service's public key.
    pub wallet: Seq<u8>,
    /// The relays, in order.
    pub relays: Seq<Seq<char>>,
    /// The bytes of the client's secret key.
    pub secret: Seq<u8>,
}

impl View for WalletUri {
    type V = WalletUriView;

    open spec fn view(&self) -> WalletUriView {
        WalletUriView {
            wallet: self.wallet@,
            relays: texts(self.relays@),
            secret: secret_bytes(self.secret),
        }
    }
}

/// Why a text is not a wallet's URI.
#[derive(Clone, Copy, Debug, PartialEq, Eq, Structural)]
pub enum UriError {
    /// It is not of the `nostr+walletconnect` scheme.
    Scheme,
    /// The wallet's public key is missing or malformed.
    Wallet,
    /// It names no relay.
    NoRelay,
    /// The secret is missing or malformed.
    Secret,
}

impl UriError {
    /// The error in words. None of them comes out of the URI.
    pub open spec fn words(&self) -> Seq<char> {
        match self {
            UriError::Scheme => "not a nostr+walletconnect:// uri"@,
            UriError::Wallet => "the wallet pubkey is missing or malformed"@,
            UriError::NoRelay => "a uri must name at least one relay"@,
            UriError::Secret => "the secret is missing or malformed"@,
        }
    }

    /// The error in words.
    pub fn to_text(&self) -> (r: &'static str)
        ensures
            r@ == self.words(),
    {
        match self {
            UriError::Scheme => "not a nostr+walletconnect:// uri",
            UriError::Wallet => "the wallet pubkey is missing or malformed",
            UriError::NoRelay => "a uri must name at least one relay",
            UriError::Secret => "the secret is missing or malformed",
        }
    }
}

/// What a URI is, given the keys that its texts stand for: the first thing missing is the error.
pub open spec fn assembled(
    wallet: Option<Seq<u8>>,
    relays: Seq<Seq<char>>,
    secret: Option<Seq<u8>>,
) -> Result<WalletUriView, UriError> {
    match (wallet, secret) {
        (None, _) => Err(UriError::Wallet),
        (Some(wallet), secret) => if relays.len() == 0 {
            Err(UriError::NoRelay)
        } else {
            match secret {
                None => Err(UriError::Secret),
                Some(secret) => Ok(WalletUriView { wallet, relays, secret }),
            }
        },
    }
}

/// What a text is as a wallet's URI.
pub open spec fn wallet_uri(s: Seq<char>) -> Result<WalletUriView, UriError> {
    match uri_parts(s, SCHEME@) {
        None => Err(UriError::Scheme),
        Some(parts) => assembled(
            public_key_in(parts.key),
            parts.relays,
            match parts.secret {
                Some(text) => secret_key_in(text),
                None => None,
            },
        ),
    }
}

impl WalletUri {
    /// Puts a URI together from the keys that its texts gave, if they gave any.
    pub fn assemble(wallet: Option<PublicKey>, relays: Vec<String>, secret: Option<SecretKey>) -> (r:
        Result<WalletUri, UriError>)
        ensures
            ({
                let expected = assembled(
                    match wallet {
                        Some(k) => Some(k@),
                        None => None,
                    },
                    texts(relays@),
                    match secret {
                        Some(k) => Some(secret_bytes(k)),
                        None => None,
                    },
                );
                match r {
                    Ok(uri) => expected == Ok::<WalletUriView, UriError>(uri@),
                    Err(e) => expected == Err::<WalletUriView, UriError>(e),
                }
            }),
    {
        match wallet {
            None => Err(UriError::Wallet),
            Some(wallet) => if relays.len() == 0 {
                Err(UriError::NoRelay)
            } else {
                match secret {
                    None => Err(UriError::Secret),
                    Some(secret) => Ok(WalletUri { wallet, relays, secret }),
                }
            },
        }
    }

    /// Reads `nostr+walletconnect://<wallet-pubkey>?relay=<url>&secret=<hex>`.
    pub fn from_str(s: &str) -> (r: Result<WalletUri, UriError>)
        ensures
            match r {
                Ok(uri) => wallet_uri(s@) == Ok::<WalletUriView, UriError>(uri@),
                Err(e) => wallet_uri(s@) == Err::<WalletUriView, UriError>(e),
            },
    {
        match split_uri(s, SCHEME) {
            None => Err(UriError::Scheme),
            Some(parts) => {
                let wallet: Option<PublicKey> = keys::parse_public_key(parts.key.as_str()).ok();
                let secret: Option<SecretKey> = match &parts.secret {
                    Some(text) => keys::parse_secret_key(text.as_str()).ok(),
                    None => None,
                };
                WalletUri::assemble(wallet, parts.relays, secret)
            },
        }
    }
}

/// A wallet's URI that was written reads back: whatever keys its texts stand for, the relays are
/// the ones written, in order, whichever characters were escaped.
pub proof fn law_wallet_uri_reads_back(
    key: Seq<char>,
    written: Seq<Seq<char>>,
    written_secret: Seq<char>,
    relays: Seq<Seq<char>>,
    secret: Seq<char>,
)
    requires
        !key.contains('?'),
        all_stand_for(written, relays),
        stands_for(written_secret, secret),
    ensures
        wallet_uri(written_uri(SCHEME@, key, written, written_secret)) == assembled(
            public_key_in(key),
            relays,
            secret_key_in(secret),
        ),
{
    law_written_uri_reads_back(SCHEME@, key, written, written_secret, relays, secret);
}

/// What can go wrong talking to a wallet.
#[derive(Debug)]
pub enum Error {
    /// The wallet refused.
    Refused(NncError),
    /// No response arrived in time.
    TimedOut(Duration),
    /// The response did not match its method's type.
    Result(ResultError),
    /// The relay layer failed.
    Relay(String),
    /// The signer failed.
    Signer(SignerError),
    /// Malformed JSON.
    Json(serde_json::Error),
}

impl Error {
    /// The error in words.
    pub open spec fn words(&self) -> Seq<char> {
        match self {
            Error::Refused(e) => "the wallet refused: "@ + e.line(),
            Error::TimedOut(d) => "no response within "@ + duration_debug(*d),
            Error::Result(e) => e.text@,
            Error::Relay(e) => "relay: "@ + e@,
            Error::Signer(e) => "signer: "@ + signer_error_text(*e),
            Error::Json(e) => "json: "@ + json_error_text(*e),
        }
    }

    /// The error in words.
    pub fn to_text(&self) -> (r: String)
        ensures
            r@ == self.words(),
    {
        match self {
            Error::Refused(e) => concat("the wallet refused: ", e.to_text().as_str()),
            Error::TimedOut(d) => concat("no response within ", debug_text(d).as_str()),
            Error::Result(e) => e.text.clone(),
            Error::Relay(e) => concat("relay: ", e.as_str()),
            Error::Signer(e) => concat("signer: ", keys::signer_text(e).as_str()),
            Error::Json(e) => concat("json: ", json::error_text(e).as_str()),
        }
    }
}

impl From<serde_json::Error> for Error {
    fn from(e: serde_json::Error) -> (r: Error) {
        Error::Json(e)
    }
}

impl vstd::std_specs::convert::FromSpecImpl<serde_json::Error> for Error {
    open spec fn obeys_from_spec() -> bool {
        true
    }

    open spec fn from_spec(e: serde_json::Error) -> Error {
        Error::Json(e)
    }
}

/// A signed event on its way to the wallet.
pub struct Outgoing {
    /// The event.
    pub event: Event,
    /// Its id, in hexadecimal.
    pub id: String,
}

/// Whether an outcome is what the JSON of an answer means: a refusal where an error is present,
/// else the result, and null where there is none.
pub open spec fn means(v: Value, out: Result<Value, Error>) -> bool {
    match present(v, "error"@) {
        Some(m) => match error_texts(m) {
            Some(_) => out matches Err(Error::Refused(e)) && e.reads(m),
            None => out matches Err(Error::Json(e)) && names_flaw(m, e),
        },
        None => match member(v, "result"@) {
            Some(result) => out == Ok::<Value, Error>(result),
            None => out matches Ok(result) && json_view(result) is Null,
        },
    }
}

/// Whether an outcome is what the plain text of an answer means.
pub open spec fn says(plain: Seq<char>, out: Result<Value, Error>) -> bool {
    match json_parse(plain) {
        Ok(v) => means(v, out),
        Err(text) => out matches Err(Error::Json(e)) && json_error_text(e) == text,
    }
}

/// What the JSON of an answer means.
pub fn read_outcome(v: Value) -> (r: Result<Value, Error>)
    ensures
        means(v, r),
        member(v, "error"@) matches Some(m) ==> (!(json_view(m) is Null) ==> r is Err),
        member(v, "error"@) matches Some(m) ==> match (
            member(m, "code"@),
            member(m, "message"@),
        ) {
            (Some(code), Some(message)) => text_in(code) is Some && text_in(message) is Some ==> (
            r matches Err(Error::Refused(e)) && Some(e.code.wire()) == text_in(code) && Some(
                e.message@,
            ) == text_in(message)),
            _ => true,
        },
        (member(v, "error"@) is None || json_view(member(v, "error"@)->0) is Null) ==> match member(
            v,
            "result"@,
        ) {
            Some(result) => r == Ok::<Value, Error>(result),
            None => r matches Ok(result) && json_view(result) is Null,
        },
{
    match find_present(&v, "error") {
        Some(m) => match NncError::read(m) {
            Ok(e) => Err(Error::Refused(e)),
            Err(e) => Err(Error::from(e)),
        },
        None => match json::get(&v, "result") {
            Some(result) => Ok(json::duplicate(result)),
            None => Ok(json::null()),
        },
    }
}

/// What the plain text of an answer means.
pub fn read_answer(plain: &str) -> (r: Result<Value, Error>)
    ensures
        says(plain@, r),
{
    match json::parse(plain) {
        Ok(v) => read_outcome(v),
        Err(e) => Err(Error::from(e)),
    }
}

/// A connection to one wallet.
pub struct WalletConnect {
    /// Where the wallet is, and the key to reach it with.
    pub uri: WalletUri,
    /// How long to wait for a response.
    pub timeout: Duration,
    /// Whether the relays are connected.
    pub connected: bool,
}

impl WalletConnect {
    /// The bytes of the client's secret key.
    pub open spec fn own_secret(&self) -> Seq<u8> {
        secret_bytes(self.uri.secret)
    }

    /// The bytes of the client's public key.
    pub open spec fn own_key(&self) -> Seq<u8> {
        public_key_for(self.own_secret())
    }

    /// A connection that is not open yet.
    pub fn new(uri: WalletUri) -> (r: WalletConnect)
        ensures
            r.uri == uri,
            nanos(r.timeout) == DEFAULT_TIMEOUT_SECS * 1_000_000_000,
            !r.connected,
    {
        WalletConnect {
            uri,
            timeout: Duration::from_secs(DEFAULT_TIMEOUT_SECS),
            connected: false,
        }
    }

    /// How long to wait for a response.
    ///
    /// Paying a hold invoice does not return until the payee settles, so a caller that pays one
    /// should raise this.
    pub fn with_timeout(self, timeout: Duration) -> (r: WalletConnect)
        ensures
            r == (WalletConnect { timeout, ..self }),
    {
        WalletConnect { uri: self.uri, timeout, connected: self.connected }
    }

    /// The client's own public key, which a grant is written for.
    pub fn public_key(&self) -> (r: PublicKey)
        ensures
            r@ == self.own_key(),
    {
        keys::public_key_of(&self.uri.secret)
    }

    /// The wallet's public key.
    pub fn wallet(&self) -> (r: PublicKey)
        ensures
            r == self.uri.wallet,
    {
        self.uri.wallet
    }

    /// The wait for a response, which has not begun.
    pub fn wait(&self) -> (r: Timer)
        ensures
            r.limit == self.timeout,
            r.started is None,
    {
        Timer::new(self.timeout)
    }

    /// What comes first to reach the relays: nothing, where they are connected already.
    pub fn bootstrap(&self) -> (r: Dial)
        ensures
            r == if self.connected {
                Dial::Ready
            } else {
                dial_from(0, self.uri.relays@.len() as int)
            },
    {
        dial(self.connected, self.uri.relays.len())
    }

    /// Goes on reaching the relays. A relay that cannot be added ends the attempt, and the
    /// connection stays unconnected.
    pub fn dialed(&mut self, at: Dial, heard: Dialed) -> (r: Result<Dial, Error>)
        ensures
            final(self).uri == old(self).uri,
            final(self).timeout == old(self).timeout,
            final(self).connected == (old(self).connected || r == Ok::<Dial, Error>(Dial::Ready)),
            match redialed(at, heard, old(self).uri.relays@.len() as int) {
                Ok(next) => r == Ok::<Dial, Error>(next),
                Err(text) => r matches Err(Error::Relay(e)) && e@ == text,
            },
    {
        match redial(at, heard, self.uri.relays.len()) {
            Ok(next) => {
                if next == Dial::Ready {
                    self.connected = true;
                }
                Ok(next)
            },
            Err(e) => Err(Error::Relay(e)),
        }
    }

    /// Whether an event carries a text to the wallet: of a kind, signed by the client, tagged, and
    /// sealed so that it opens to the text.
    pub open spec fn carries(
        &self,
        out: Outgoing,
        kind: u16,
        tags: Seq<Seq<Seq<char>>>,
        text: Seq<char>,
    ) -> bool {
        let e = event_view(out.event);
        &&& out.id@ == e.id
        &&& e.signed
        &&& e.kind == kind
        &&& e.author == self.own_key()
        &&& e.tags == kept_tags(tags, self.own_key())
        &&& opened(self.own_secret(), self.uri.wallet@, e.content) == Ok::<Seq<char>, Seq<char>>(
            text,
        )
    }

    /// Seals a text for the wallet and signs an event that carries it.
    fn post(&self, kind: u16, tags: &Vec<Vec<String>>, text: &str) -> (r: Result<Outgoing, Error>)
        requires
            forall|i: int| 0 <= i < tags@.len() ==> (#[trigger] tags@[i])@.len() > 0,
        ensures
            match r {
                Ok(out) => seal_error(self.own_secret(), self.uri.wallet@, text@) is None
                    && self.carries(out, kind, tag_texts(tags@), text@),
                Err(e) => e matches Error::Signer(s) && seal_error(
                    self.own_secret(),
                    self.uri.wallet@,
                    text@,
                ) == Some(signer_error_text(s)),
            },
    {
        let sealed: String = match keys::seal(&self.uri.secret, &self.uri.wallet, text) {
            Ok(sealed) => sealed,
            Err(e) => return Err(Error::Signer(e)),
        };
        match keys::sign(&self.uri.secret, kind, sealed.as_str(), tags) {
            Ok(event) => {
                let id: String = keys::event_id(&event);
                Ok(Outgoing { event, id })
            },
            Err(e) => Err(Error::Relay(e)),
        }
    }

    /// The tag that addresses an event to the wallet.
    pub open spec fn address(&self) -> Seq<Seq<char>> {
        seq!["p"@, hex_text(self.uri.wallet@)]
    }

    /// Makes the event that asks the wallet for a method.
    ///
    /// The name of the method is not checked: a wallet that does not serve it says so itself.
    pub fn request(&self, method: &str, params: Value) -> (r: Result<Outgoing, Error>)
        ensures
            asks_for(request_tree(method@, params), method@, params),
            match r {
                Ok(out) => self.request_error(method@, params) is None && self.carries(
                    out,
                    REQUEST_KIND,
                    seq![self.address()],
                    json_text(request_tree(method@, params)),
                ),
                Err(e) => e matches Error::Signer(s) && self.request_error(method@, params)
                    == Some(signer_error_text(s)),
            },
    {
        let text: String = match request_text(method, params) {
            Ok(text) => text,
            Err(e) => return Err(Error::from(e)),
        };
        let tags: Vec<Vec<String>> = vec![
            vec!["p".to_owned(), keys::public_key_hex(&self.uri.wallet)],
        ];
        assert(texts(tags@[0]@) =~= self.address());
        assert(tag_texts(tags@) =~= seq![self.address()]);
        self.post(REQUEST_KIND, &tags, text.as_str())
    }

    /// The text of the error that making a request gives, if it gives one.
    pub open spec fn request_error(&self, method: Seq<char>, params: Value) -> Option<Seq<char>> {
        seal_error(
            self.own_secret(),
            self.uri.wallet@,
            json_text(request_tree(method, params)),
        )
    }
}

/// How far a request has come. Each stage waits for what it is named after.
#[derive(Clone, Copy, Debug, PartialEq, Eq, Structural)]
pub enum Stage {
    /// The relays are asked for responses to the client.
    Subscribing,
    /// The stream of what the relays deliver is taken.
    Listening,
    /// The request is published.
    Publishing,
    /// The response is awaited.
    Waiting,
    /// The request is over.
    Done,
}

/// What is to be done next for a request.
pub enum Act {
    /// Ask the relays for these events.
    Subscribe(Filter),
    /// Take the stream of what the relays deliver.
    Listen,
    /// Publish the request.
    Publish,
    /// Wait for the next delivery.
    Wait,
    /// Hand the outcome to the caller.
    Finish(Result<Value, Error>),
    /// Nothing: the outcome was handed over.
    Rest,
}

/// What came of the last act.
pub enum Happened {
    /// It was done.
    Done,
    /// It failed; the text says why.
    Failed(String),
    /// The wait brought this.
    Heard(Heard),
}

/// A request under way.
pub struct Exchange {
    /// How far it has come.
    pub stage: Stage,
    /// The method that is asked for.
    pub method: String,
    /// Its parameters.
    pub params: Value,
    /// The event that asks for it, once it is made.
    pub sent: Option<Outgoing>,
}

/// The stage after an act, given whether the request could be made and whether the wait is over.
pub open spec fn stage_after(stage: Stage, happened: Happened, made: bool, over: bool) -> Stage {
    match (stage, happened) {
        (Stage::Subscribing, Happened::Done) => if made {
            Stage::Listening
        } else {
            Stage::Done
        },
        (Stage::Subscribing, Happened::Failed(_)) => Stage::Done,
        (Stage::Listening, Happened::Done) => Stage::Publishing,
        (Stage::Publishing, Happened::Done) => Stage::Waiting,
        (Stage::Publishing, Happened::Failed(_)) => Stage::Done,
        (Stage::Waiting, Happened::Heard(_)) => if over {
            Stage::Done
        } else {
            Stage::Waiting
        },
        _ => stage,
    }
}

impl Exchange {
    /// Whether a request for a method begins here.
    pub open spec fn begins(&self, method: Seq<char>, params: Value) -> bool {
        self.method@ == method && self.params == params && self.stage == Stage::Subscribing
            && self.sent is None
    }

    /// The id of the event that asks, once it is made.
    pub open spec fn request_id(&self) -> Seq<char> {
        match self.sent {
            Some(out) => out.id@,
            None => Seq::empty(),
        }
    }
}

impl WalletConnect {
    /// Whether a wait is over: the time has run out, or the wallet has answered this request.
    pub open spec fn is_over(&self, request: Seq<char>, heard: Heard) -> bool {
        match heard {
            Heard::Late => true,
            Heard::Elapsed => true,
            Heard::Other => false,
            Heard::Event(e) => e.is_answer(RESPONSE_KIND, self.uri.wallet@, request),
        }
    }

    /// Whether an outcome is what a sealed answer of the wallet means.
    pub open spec fn unseals(&self, sealed: Seq<char>, out: Result<Value, Error>) -> bool {
        match opened(self.own_secret(), self.uri.wallet@, sealed) {
            Ok(plain) => says(plain, out),
            Err(text) => out matches Err(Error::Signer(e)) && signer_error_text(e) == text,
        }
    }

    /// Whether an outcome is what ended a wait.
    pub open spec fn ends(&self, heard: Heard, out: Result<Value, Error>) -> bool {
        match heard {
            Heard::Event(e) => self.unseals(e.content@, out),
            _ => out == Err::<Value, Error>(Error::TimedOut(self.timeout)),
        }
    }

    /// What a turn of waiting means for a request: an outcome, or nothing yet.
    ///
    /// An event counts only if it is of the kind of responses, by the wallet, and tagged with the
    /// id of the request; any other is passed over.
    pub fn hear(&self, request: &str, heard: Heard) -> (r: Option<Result<Value, Error>>)
        ensures
            match r {
                Some(out) => self.is_over(request@, heard) && self.ends(heard, out),
                None => !self.is_over(request@, heard),
            },
    {
        match heard {
            Heard::Late => Some(Err(Error::TimedOut(self.timeout))),
            Heard::Elapsed => Some(Err(Error::TimedOut(self.timeout))),
            Heard::Other => None,
            Heard::Event(e) => if e.answers(RESPONSE_KIND, &self.uri.wallet, request) {
                Some(
                    match keys::open(&self.uri.secret, &self.uri.wallet, e.content.as_str()) {
                        Ok(plain) => read_answer(plain.as_str()),
                        Err(e) => Err(Error::Signer(e)),
                    },
                )
            } else {
                None
            },
        }
    }

    /// What the relays are asked for before a request goes out: responses to the client.
    pub fn responses(&self) -> (r: Filter)
        ensures
            r.kind == RESPONSE_KIND,
            r.to@ == self.own_key(),
    {
        Filter { kind: RESPONSE_KIND, to: self.public_key() }
    }

    /// Begins a request for a method, once the relays are reached.
    pub fn send(&self, method: &str, params: Value) -> (r: Exchange)
        ensures
            r.begins(method@, params),
            r.stage == Stage::Subscribing,
            r.method@ == method@,
            r.params == params,
            r.sent is None,
    {
        Exchange { stage: Stage::Subscribing, method: method.to_owned(), params, sent: None }
    }

    /// Begins a request for a method by name.
    ///
    /// For a method that is not known until it is typed. The name is not checked: a wallet that
    /// does not serve it answers so, which is the answer that was asked for.
    pub fn call_raw(&self, method: &str, params: Value) -> (r: Exchange)
        ensures
            r.begins(method@, params),
            r.stage == Stage::Subscribing,
            r.method@ == method@,
            r.params == params,
            r.sent is None,
    {
        self.send(method, params)
    }

    /// Whether an exchange is in order: from the moment that it listens it holds the event that
    /// asks for its method.
    pub open spec fn in_order(&self, x: Exchange) -> bool {
        match x.stage {
            Stage::Listening | Stage::Publishing | Stage::Waiting => x.sent matches Some(out)
                && self.carries(
                out,
                REQUEST_KIND,
                seq![self.address()],
                json_text(request_tree(x.method@, x.params)),
            ),
            _ => true,
        }
    }

    /// Whether an act is the one that a stage asks for.
    pub open spec fn fits(&self, act: Act, stage: Stage) -> bool {
        match stage {
            Stage::Subscribing => act matches Act::Subscribe(f) && f.kind == RESPONSE_KIND && f.to@
                == self.own_key(),
            Stage::Listening => act is Listen,
            Stage::Publishing => act is Publish,
            Stage::Waiting => act is Wait,
            Stage::Done => act is Rest,
        }
    }

    /// What a stage of a request asks for.
    pub fn act(&self, x: &Exchange) -> (r: Act)
        ensures
            self.fits(r, x.stage),
    {
        match x.stage {
            Stage::Subscribing => Act::Subscribe(self.responses()),
            Stage::Listening => Act::Listen,
            Stage::Publishing => Act::Publish,
            Stage::Waiting => Act::Wait,
            Stage::Done => Act::Rest,
        }
    }

    /// Whether a request goes from one state to another, and asks for an act, after something
    /// happened. The outcome is asked to be handed over once, when the request ends.
    pub open spec fn goes(&self, x: Exchange, happened: Happened, to: Exchange, act: Act) -> bool {
        &&& self.in_order(x) ==> self.in_order(to)
        &&& to.method == x.method
        &&& to.params == x.params
        &&& to.stage == stage_after(
            x.stage,
            happened,
            self.request_error(x.method@, x.params) is None,
            happened matches Happened::Heard(h) && self.is_over(x.request_id(), h),
        )
        &&& x.stage != Stage::Subscribing || to.stage != Stage::Listening ==> to.sent == x.sent
        &&& if to.stage == Stage::Done && x.stage != Stage::Done {
            act matches Act::Finish(out) && match happened {
                Happened::Failed(text) => out == Err::<Value, Error>(Error::Relay(text)),
                Happened::Heard(h) => self.ends(h, out),
                Happened::Done => out matches Err(Error::Signer(e)) && self.request_error(
                    x.method@,
                    x.params,
                ) == Some(signer_error_text(e)),
            }
        } else {
            self.fits(act, to.stage)
        }
    }

    /// Goes on with a request after an act, and says what is to be done next.
    ///
    /// The relays are asked for responses before the request is made, and the stream is taken
    /// before it is published: a response that comes at once is not missed. What does not belong
    /// to the stage changes nothing.
    pub fn step(&self, x: &mut Exchange, happened: Happened) -> (r: Act)
        ensures
            self.goes(*old(x), happened, *final(x), r),
    {
        proof {
            reveal_strlit("");
            assert(""@ =~= Seq::<char>::empty());
        }
        match (x.stage, happened) {
            (Stage::Subscribing, Happened::Done) => {
                match self.request(x.method.as_str(), json::duplicate(&x.params)) {
                    Ok(out) => {
                        x.sent = Some(out);
                        x.stage = Stage::Listening;
                        Act::Listen
                    },
                    Err(e) => {
                        x.stage = Stage::Done;
                        Act::Finish(Err(e))
                    },
                }
            },
            (Stage::Subscribing, Happened::Failed(text)) => {
                x.stage = Stage::Done;
                Act::Finish(Err(Error::Relay(text)))
            },
            (Stage::Listening, Happened::Done) => {
                x.stage = Stage::Publishing;
                Act::Publish
            },
            (Stage::Publishing, Happened::Done) => {
                x.stage = Stage::Waiting;
                Act::Wait
            },
            (Stage::Publishing, Happened::Failed(text)) => {
                x.stage = Stage::Done;
                Act::Finish(Err(Error::Relay(text)))
            },
            (Stage::Waiting, Happened::Heard(heard)) => {
                let id: &str = match &x.sent {
                    Some(out) => out.id.as_str(),
                    None => "",
                };
                match self.hear(id, heard) {
                    Some(out) => {
                        x.stage = Stage::Done;
                        Act::Finish(out)
                    },
                    None => Act::Wait,
                }
            },
            _ => self.act(x),
        }
    }

    /// The delivery that decides a wait: the first for which it is over, if there is one.
    pub open spec fn deciding(&self, request: Seq<char>, heard: Seq<Heard>) -> Option<Heard>
        decreases heard.len(),
    {
        if heard.len() == 0 {
            None
        } else if self.is_over(request, heard[0]) {
            Some(heard[0])
        } else {
            self.deciding(request, heard.skip(1))
        }
    }

    /// Whether a request that waits goes through these states, and asks for these acts, as the
    /// waits bring these deliveries.
    pub open spec fn is_wait(&self, states: Seq<Exchange>, heard: Seq<Heard>, acts: Seq<Act>) -> bool {
        &&& states.len() == heard.len() + 1
        &&& acts.len() == heard.len()
        &&& states[0].stage == Stage::Waiting
        &&& forall|i: int|
            0 <= i < heard.len() ==> self.goes(
                states[i],
                Happened::Heard(heard[i]),
                states[i + 1],
                #[trigger] acts[i],
            )
    }

    /// Whether the outcome of a wait is handed over at one place, and is what a delivery means.
    pub open spec fn hands_over(&self, acts: Seq<Act>, at: int, heard: Heard) -> bool {
        &&& 0 <= at < acts.len()
        &&& acts[at] matches Act::Finish(out) && self.ends(heard, out)
        &&& forall|i: int| 0 <= i < at ==> #[trigger] acts[i] is Wait
        &&& forall|i: int| at < i < acts.len() ==> #[trigger] acts[i] is Rest
    }

    /// The first delivery for which a wait is over decides it: until then the request waits on,
    /// its outcome is what that delivery means, and whatever comes after changes nothing.
    pub proof fn law_first_answer_decides(
        &self,
        states: Seq<Exchange>,
        heard: Seq<Heard>,
        acts: Seq<Act>,
    )
        requires
            self.is_wait(states, heard, acts),
        ensures
            match self.deciding(states[0].request_id(), heard) {
                Some(h) => exists|at: int| #[trigger] self.hands_over(acts, at, h),
                None => states.last() == states[0] && forall|i: int|
                    0 <= i < acts.len() ==> #[trigger] acts[i] is Wait,
            },
        decreases heard.len(),
    {
        if heard.len() > 0 {
            let id = states[0].request_id();
            assert(self.goes(states[0], Happened::Heard(heard[0]), states[1], acts[0]));
            if self.is_over(id, heard[0]) {
                assert forall|i: int| 0 < i < acts.len() implies #[trigger] acts[i] is Rest by {
                    self.lemma_rests(states, heard, acts, i);
                }
                assert(self.hands_over(acts, 0, heard[0]));
            } else {
                assert(states[1] == states[0]);
                let (s, h, a) = (states.skip(1), heard.skip(1), acts.skip(1));
                assert forall|i: int| 0 <= i < h.len() implies self.goes(
                    s[i],
                    Happened::Heard(h[i]),
                    s[i + 1],
                    #[trigger] a[i],
                ) by {
                    assert(a[i] == acts[i + 1]);
                }
                self.law_first_answer_decides(s, h, a);
                match self.deciding(id, heard) {
                    Some(d) => {
                        let at = choose|at: int| #[trigger] self.hands_over(a, at, d);
                        assert(a[at] == acts[at + 1]);
                        assert forall|i: int| 0 <= i < at + 1 implies #[trigger] acts[i] is Wait by {
                            if i > 0 {
                                assert(a[i - 1] == acts[i]);
                            }
                        }
                        assert forall|i: int| at + 1 < i < acts.len() implies #[trigger] acts[i] is Rest by {
                            assert(a[i - 1] == acts[i]);
                        }
                        assert(self.hands_over(acts, at + 1, d));
                    },
                    None => {
                        assert forall|i: int| 0 <= i < acts.len() implies #[trigger] acts[i] is Wait by {
                            if i > 0 {
                                assert(a[i - 1] == acts[i]);
                            }
                        }
                    },
                }
            }
        }
    }

    proof fn lemma_rests(
        &self,
        states: Seq<Exchange>,
        heard: Seq<Heard>,
        acts: Seq<Act>,
        n: int,
    )
        requires
            self.is_wait(states, heard, acts),
            0 < n < acts.len(),
            self.is_over(states[0].request_id(), heard[0]),
        ensures
            states[n].stage == Stage::Done,
            acts[n] is Rest,
        decreases n,
    {
        assert(self.goes(states[0], Happened::Heard(heard[0]), states[1], acts[0]));
        if n > 1 {
            self.lemma_rests(states, heard, acts, n - 1);
            assert(self.goes(
                states[n - 1],
                Happened::Heard(heard[n - 1]),
                states[n - 1 + 1],
                acts[n - 1],
            ));
        }
        assert(self.goes(states[n], Happened::Heard(heard[n]), states[n + 1], acts[n]));
    }

    /// Deliveries for which a wait is not over may come in any number and at any place: what
    /// decides stays the same.
    pub proof fn law_other_deliveries_do_not_decide(
        &self,
        request: Seq<char>,
        before: Seq<Heard>,
        extra: Seq<Heard>,
        after: Seq<Heard>,
    )
        requires
            forall|i: int| 0 <= i < extra.len() ==> !self.is_over(request, #[trigger] extra[i]),
        ensures
            self.deciding(request, before + extra + after) == self.deciding(
                request,
                before + after,
            ),
        decreases before.len() + extra.len(),
    {
        let all = before + extra + after;
        let plain = before + after;
        if before.len() > 0 {
            assert(all.skip(1) =~= before.skip(1) + extra + after);
            assert(plain.skip(1) =~= before.skip(1) + after);
            assert(all[0] == before[0] && plain[0] == before[0]);
            self.law_other_deliveries_do_not_decide(request, before.skip(1), extra, after);
        } else if extra.len() > 0 {
            assert(all.skip(1) =~= before + extra.skip(1) + after);
            assert(all[0] == extra[0]);
            self.law_other_deliveries_do_not_decide(request, before, extra.skip(1), after);
        } else {
            assert(all =~= plain);
        }
    }

    /// Whether the words of a JSON error are fixed where a delivery means one: the answer does not
    /// parse, or its refusal misses a member.
    pub open spec fn fixes_words(&self, heard: Heard) -> bool {
        match heard {
            Heard::Event(e) => match opened(self.own_secret(), self.uri.wallet@, e.content@) {
                Ok(plain) => match json_parse(plain) {
                    Ok(v) => present(v, "error"@) matches Some(m) && missing_member(m) is Some,
                    Err(_) => true,
                },
                Err(_) => true,
            },
            _ => true,
        }
    }

    /// Whether two outcomes of a delivery are the same to a caller: the same result, or an error
    /// of the same sort and with the same words, as far as they are fixed.
    pub open spec fn alike(
        &self,
        heard: Heard,
        a: Result<Value, Error>,
        b: Result<Value, Error>,
    ) -> bool {
        match (a, b) {
            (Ok(x), Ok(y)) => x == y || (json_view(x) is Null && json_view(y) is Null),
            (Err(Error::Refused(x)), Err(Error::Refused(y))) => x.code.name() == y.code.name()
                && x.line() == y.line(),
            (Err(Error::TimedOut(x)), Err(Error::TimedOut(y))) => x == y,
            (Err(Error::Signer(x)), Err(Error::Signer(y))) => signer_error_text(x)
                == signer_error_text(y),
            (Err(Error::Json(x)), Err(Error::Json(y))) => self.fixes_words(heard)
                ==> json_error_text(x) == json_error_text(y),
            _ => false,
        }
    }

    /// What one delivery means is one outcome.
    pub proof fn law_one_delivery_one_outcome(
        &self,
        heard: Heard,
        a: Result<Value, Error>,
        b: Result<Value, Error>,
    )
        requires
            self.ends(heard, a),
            self.ends(heard, b),
        ensures
            self.alike(heard, a, b),
    {
        reveal_strlit("UNAUTHORIZED");
        reveal_strlit("RESTRICTED");
        reveal_strlit("NOT_IMPLEMENTED");
        assert("UNAUTHORIZED"@.len() == 12 && "RESTRICTED"@.len() == 10);
        assert("NOT_IMPLEMENTED"@.len() == 15);
    }

    /// Two waits for the answer to one request, of which one is brought deliveries that are no
    /// answer beside those of the other, come to the same outcome or wait on both.
    pub proof fn law_other_deliveries_do_not_matter(
        &self,
        states: Seq<Exchange>,
        acts: Seq<Act>,
        more_states: Seq<Exchange>,
        more_acts: Seq<Act>,
        before: Seq<Heard>,
        extra: Seq<Heard>,
        after: Seq<Heard>,
    )
        requires
            self.is_wait(states, before + after, acts),
            self.is_wait(more_states, before + extra + after, more_acts),
            states[0].request_id() == more_states[0].request_id(),
            forall|i: int|
                0 <= i < extra.len() ==> !self.is_over(
                    states[0].request_id(),
                    #[trigger] extra[i],
                ),
        ensures
            forall|i: int, j: int|
                0 <= i < acts.len() && 0 <= j < more_acts.len() ==> match (
                    #[trigger] acts[i],
                    #[trigger] more_acts[j],
                ) {
                    (Act::Finish(a), Act::Finish(b)) => self.alike(
                        self.deciding(states[0].request_id(), before + after)->0,
                        a,
                        b,
                    ),
                    _ => true,
                },
            (exists|i: int| 0 <= i < acts.len() && #[trigger] acts[i] is Finish) == (exists|
                j: int,
            | 0 <= j < more_acts.len() && #[trigger] more_acts[j] is Finish),
    {
        let id = states[0].request_id();
        self.law_other_deliveries_do_not_decide(id, before, extra, after);
        self.law_first_answer_decides(states, before + after, acts);
        self.law_first_answer_decides(more_states, before + extra + after, more_acts);
        match self.deciding(id, before + after) {
            Some(h) => {
                let at = choose|at: int| #[trigger] self.hands_over(acts, at, h);
                let more_at = choose|at: int| #[trigger] self.hands_over(more_acts, at, h);
                assert(acts[at] is Finish);
                assert(more_acts[more_at] is Finish);
                assert forall|i: int, j: int|
                    0 <= i < acts.len() && 0 <= j < more_acts.len() implies match (
                    #[trigger] acts[i],
                    #[trigger] more_acts[j],
                ) {
                    (Act::Finish(a), Act::Finish(b)) => self.alike(h, a, b),
                    _ => true,
                } by {
                    match (acts[i], more_acts[j]) {
                        (Act::Finish(a), Act::Finish(b)) => {
                            assert(i == at && j == more_at);
                            self.law_one_delivery_one_outcome(h, a, b);
                        },
                        _ => {},
                    }
                }
            },
            None => {},
        }
    }
}

/// One turn of a request: what came of an act, whether the request could be made, and whether the
/// wait is over.
pub struct Turn {
    /// What came of the act.
    pub happened: Happened,
    /// Whether the request could be made.
    pub made: bool,
    /// Whether the wait is over.
    pub over: bool,
}

/// The stage of a request after some turns.
pub open spec fn stage_at(turns: Seq<Turn>, n: nat) -> Stage
    decreases n,
{
    if n == 0 {
        Stage::Subscribing
    } else {
        let t = turns[n - 1];
        stage_after(stage_at(turns, (n - 1) as nat), t.happened, t.made, t.over)
    }
}

/// Whether an act was done in a stage at a turn.
pub open spec fn done_at(turns: Seq<Turn>, i: nat, stage: Stage) -> bool {
    stage_at(turns, i) == stage && turns[i as int].happened is Done
}

/// A request is published only after the relays were asked for responses and, after that, the
/// stream of what they deliver was taken: no response can come before somebody listens.
pub proof fn law_listens_before_publishing(turns: Seq<Turn>, n: nat)
    requires
        n <= turns.len(),
        stage_at(turns, n) == Stage::Publishing || stage_at(turns, n) == Stage::Waiting,
    ensures
        exists|i: nat, j: nat|
            i < j < n && #[trigger] done_at(turns, i, Stage::Subscribing) && #[trigger] done_at(
                turns,
                j,
                Stage::Listening,
            ),
    decreases n,
{
    let before = stage_at(turns, (n - 1) as nat);
    if before == Stage::Listening {
        let i = lemma_subscribed(turns, (n - 1) as nat);
        assert(done_at(turns, (n - 1) as nat, Stage::Listening));
    } else {
        law_listens_before_publishing(turns, (n - 1) as nat);
    }
}

proof fn lemma_subscribed(turns: Seq<Turn>, n: nat) -> (i: nat)
    requires
        n <= turns.len(),
        stage_at(turns, n) == Stage::Listening,
    ensures
        i < n,
        done_at(turns, i, Stage::Subscribing),
    decreases n,
{
    let before = stage_at(turns, (n - 1) as nat);
    if before == Stage::Subscribing {
        (n - 1) as nat
    } else {
        lemma_subscribed(turns, (n - 1) as nat)
    }
}

/// How far the opening of a wallet's notifications has come.
#[derive(Clone, Copy, Debug, PartialEq, Eq, Structural)]
pub enum OpenStage {
    /// The subscription is published.
    Publishing,
    /// The subscription is given time to take effect.
    Settling,
    /// The relays are asked for notifications to the client.
    Subscribing,
    /// The notifications can be read.
    Open,
    /// The opening failed.
    Failed,
}

/// What is to be done next to open a wallet's notifications.
pub enum OpenAct {
    /// Publish the subscription.
    Publish,
    /// Pause for this many milliseconds.
    Pause(u64),
    /// Ask the relays for these events.
    Subscribe(Filter),
    /// Take the stream of what the relays deliver, and read it with this.
    Read(Notifications),
    /// Hand the error to the caller.
    Fail(Error),
    /// Nothing: the opening is over.
    Rest,
}

/// The opening of a wallet's notifications.
pub struct Opening {
    /// How far it has come.
    pub stage: OpenStage,
    /// The subscription: what the client asks to be told.
    pub subscription: Outgoing,
}

/// What came of the last act of an opening.
pub enum Tried {
    /// It was done.
    Done,
    /// It failed; the text says why.
    Failed(String),
}

/// The stage of an opening after an act. A pause does not fail.
pub open spec fn open_after(stage: OpenStage, tried: Tried) -> OpenStage {
    match (stage, tried) {
        (OpenStage::Publishing, Tried::Done) => OpenStage::Settling,
        (OpenStage::Publishing, Tried::Failed(_)) => OpenStage::Failed,
        (OpenStage::Settling, _) => OpenStage::Subscribing,
        (OpenStage::Subscribing, Tried::Done) => OpenStage::Open,
        (OpenStage::Subscribing, Tried::Failed(_)) => OpenStage::Failed,
        _ => stage,
    }
}

/// The stage of an opening after some acts.
pub open spec fn open_at(tries: Seq<Tried>, n: nat) -> OpenStage
    decreases n,
{
    if n == 0 {
        OpenStage::Publishing
    } else {
        open_after(open_at(tries, (n - 1) as nat), tries[n - 1])
    }
}

/// Notifications can be read only after the subscription was published, then given time to take
/// effect, and then the relays were asked: delivery needs the subscription and the asking both.
pub proof fn law_subscribes_before_reading(tries: Seq<Tried>, n: nat)
    requires
        n <= tries.len(),
        open_at(tries, n) == OpenStage::Open,
    ensures
        n >= 3,
        open_at(tries, 0) == OpenStage::Publishing && tries[0] is Done,
        open_at(tries, 1) == OpenStage::Settling,
        open_at(tries, 2) == OpenStage::Subscribing && tries[2] is Done,
{
    reveal_with_fuel(open_at, 4);
    if n > 3 && open_at(tries, 3) == OpenStage::Failed {
        lemma_stays(tries, 3, n);
    }
    if n >= 1 && open_at(tries, 1) == OpenStage::Failed {
        lemma_stays(tries, 1, n);
    }
}

proof fn lemma_stays(tries: Seq<Tried>, m: nat, n: nat)
    requires
        m <= n <= tries.len(),
        open_at(tries, m) == OpenStage::Failed,
    ensures
        open_at(tries, n) == OpenStage::Failed,
    decreases n - m,
{
    if m < n {
        lemma_stays(tries, m, (n - 1) as nat);
    }
}

/// Reads the notifications of one wallet.
pub struct Notifications {
    /// The client's own key.
    pub secret: SecretKey,
    /// The wallet.
    pub wallet: PublicKey,
}

/// What a signal means to a reader of notifications.
pub enum Listened {
    /// There will be no more.
    End,
    /// Nothing; the next signal is to be awaited.
    Again,
    /// A notification.
    Got(WalletNotification),
}

/// What waiting for one type of notification brought.
pub enum Awaited {
    /// The time had run out, or ran out.
    TimeOut,
    /// The notifications ended.
    Ended,
    /// A notification.
    Got(WalletNotification),
}

/// What that means to the caller.
pub enum Verdict {
    /// Wait on.
    Again,
    /// Give up.
    GiveUp,
    /// This is the one.
    Got(WalletNotification),
}

/// Whether what is read out of a plain text is the notification it writes, or that it is none.
pub open spec fn tells(plain: Seq<char>, out: Listened) -> bool {
    match json_parse(plain) {
        Ok(v) => if WalletNotification::written(v) {
            out matches Listened::Got(n) && n.reads(v)
        } else {
            out is Again
        },
        Err(_) => out is Again,
    }
}

/// Reads a notification out of a plain text. One that cannot be read is passed over.
pub fn read_notification(plain: &str) -> (r: Listened)
    ensures
        tells(plain@, r),
{
    match json::parse(plain) {
        Ok(v) => match WalletNotification::read(&v) {
            Some(n) => Listened::Got(n),
            None => Listened::Again,
        },
        Err(_) => Listened::Again,
    }
}

/// Whether a caller that waits for one type of notification makes this of what a wait brought.
pub open spec fn judges(want: WalletNotificationType, awaited: Awaited, out: Verdict) -> bool {
    match awaited {
        Awaited::Got(n) if n.notification_type.is_type(&want) => out == Verdict::Got(n),
        Awaited::Got(_) => out is Again,
        _ => out is GiveUp,
    }
}

impl Notifications {
    /// Whether a reader of the wallet's notifications makes this of a signal.
    pub open spec fn brings(&self, signal: Signal, out: Listened) -> bool {
        match signal {
            Signal::Ended => out is End,
            Signal::Other => out is Again,
            Signal::Event(e) => match opened(
                secret_bytes(self.secret),
                self.wallet@,
                e.content@,
            ) {
                Ok(plain) if e.is_from(NOTIFICATION_KIND, self.wallet@) => tells(plain, out),
                _ => out is Again,
            },
        }
    }

    /// What a signal means: an event that is no notification of this wallet is passed over, and so
    /// is one that does not open or cannot be read. Only the end of the stream ends the reading.
    pub fn next(&self, signal: Signal) -> (r: Listened)
        ensures
            self.brings(signal, r),
            match signal {
                Signal::Ended => r is End,
                Signal::Other => r is Again,
                Signal::Event(e) => if e.is_from(NOTIFICATION_KIND, self.wallet@) {
                    match opened(secret_bytes(self.secret), self.wallet@, e.content@) {
                        Ok(plain) => tells(plain, r),
                        Err(_) => r is Again,
                    }
                } else {
                    r is Again
                },
            },
    {
        match signal {
            Signal::Ended => Listened::End,
            Signal::Other => Listened::Again,
            Signal::Event(e) => {
                if !e.came_from(NOTIFICATION_KIND, &self.wallet) {
                    return Listened::Again;
                }
                match keys::open(&self.secret, &self.wallet, e.content.as_str()) {
                    Ok(plain) => read_notification(plain.as_str()),
                    Err(_) => Listened::Again,
                }
            },
        }
    }

    /// Whether a caller that waits for one type of notification has it, waits on or gives up.
    pub fn wait_for(&self, want: &WalletNotificationType, awaited: Awaited) -> (r: Verdict)
        ensures
            judges(*want, awaited, r),
            match awaited {
                Awaited::Got(n) => if n.notification_type.is_type(want) {
                    r == Verdict::Got(n)
                } else {
                    r is Again
                },
                _ => r is GiveUp,
            },
    {
        match awaited {
            Awaited::Got(n) => if n.notification_type.same(want) {
                Verdict::Got(n)
            } else {
                Verdict::Again
            },
            Awaited::TimeOut => Verdict::GiveUp,
            Awaited::Ended => Verdict::GiveUp,
        }
    }
}

impl WalletConnect {
    /// The tag under which the client's subscription with the wallet is kept.
    pub open spec fn identifier(&self) -> Seq<Seq<char>> {
        seq!["d"@, hex_text(self.uri.wallet@)]
    }

    /// The text of the error that making a subscription gives, if it gives one.
    pub open spec fn subscription_error(&self, names: Seq<Seq<char>>) -> Option<Seq<char>> {
        seal_error(self.own_secret(), self.uri.wallet@, json_text(names_tree(names)))
    }

    /// Begins to open the wallet's notifications of some types, once the relays are reached.
    ///
    /// A wallet delivers what its grant permits and the client has asked for, so the asking is
    /// published first. Asking for nothing is how a client stops being told anything.
    pub fn notifications(&self, types: &Vec<WalletNotificationType>) -> (r: Result<Opening, Error>)
        ensures
            lists(names_tree(wallet_names(types@)), wallet_names(types@)),
            match r {
                Ok(o) => self.subscription_error(wallet_names(types@)) is None && o.stage
                    == OpenStage::Publishing && self.carries(
                    o.subscription,
                    SUBSCRIPTION_KIND,
                    seq![self.identifier(), self.address()],
                    json_text(names_tree(wallet_names(types@))),
                ),
                Err(e) => e matches Error::Signer(s) && self.subscription_error(
                    wallet_names(types@),
                ) == Some(signer_error_text(s)),
            },
    {
        let names: Vec<String> = type_names(types);
        let text: String = match names_text(&names) {
            Ok(text) => text,
            Err(e) => return Err(Error::from(e)),
        };
        let hex: String = keys::public_key_hex(&self.uri.wallet);
        let tags: Vec<Vec<String>> = vec![
            vec!["d".to_owned(), hex.clone()],
            vec!["p".to_owned(), hex],
        ];
        assert(texts(tags@[0]@) =~= self.identifier());
        assert(texts(tags@[1]@) =~= self.address());
        assert(tag_texts(tags@) =~= seq![self.identifier(), self.address()]);
        match self.post(SUBSCRIPTION_KIND, &tags, text.as_str()) {
            Ok(subscription) => Ok(Opening { stage: OpenStage::Publishing, subscription }),
            Err(e) => Err(e),
        }
    }

    /// Whether an act is the one that a stage of an opening asks for.
    pub open spec fn open_fits(&self, act: OpenAct, stage: OpenStage) -> bool {
        match stage {
            OpenStage::Publishing => act is Publish,
            OpenStage::Settling => act == OpenAct::Pause(SETTLE_MILLIS),
            OpenStage::Subscribing => act matches OpenAct::Subscribe(f) && f.kind
                == NOTIFICATION_KIND && f.to@ == self.own_key(),
            OpenStage::Open => act is Rest,
            OpenStage::Failed => act is Rest,
        }
    }

    /// What a stage of an opening asks for.
    pub fn open_act(&self, o: &Opening) -> (r: OpenAct)
        ensures
            self.open_fits(r, o.stage),
    {
        match o.stage {
            OpenStage::Publishing => OpenAct::Publish,
            OpenStage::Settling => OpenAct::Pause(SETTLE_MILLIS),
            OpenStage::Subscribing => OpenAct::Subscribe(
                Filter { kind: NOTIFICATION_KIND, to: self.public_key() },
            ),
            OpenStage::Open => OpenAct::Rest,
            OpenStage::Failed => OpenAct::Rest,
        }
    }

    /// Goes on with an opening after an act, and says what is to be done next.
    pub fn open_step(&self, o: &mut Opening, tried: Tried) -> (r: OpenAct)
        ensures
            final(o).subscription == old(o).subscription,
            final(o).stage == open_after(old(o).stage, tried),
            match final(o).stage {
                OpenStage::Open => if old(o).stage == OpenStage::Open {
                    r is Rest
                } else {
                    r matches OpenAct::Read(n) && n.wallet == self.uri.wallet && secret_bytes(
                        n.secret,
                    ) == self.own_secret()
                },
                OpenStage::Failed => if old(o).stage == OpenStage::Failed {
                    r is Rest
                } else {
                    tried matches Tried::Failed(text) && r == OpenAct::Fail(Error::Relay(text))
                },
                stage => self.open_fits(r, stage),
            },
    {
        match (o.stage, tried) {
            (OpenStage::Publishing, Tried::Done) => {
                o.stage = OpenStage::Settling;
                self.open_act(o)
            },
            (OpenStage::Settling, _) => {
                o.stage = OpenStage::Subscribing;
                self.open_act(o)
            },
            (OpenStage::Subscribing, Tried::Done) => {
                o.stage = OpenStage::Open;
                OpenAct::Read(
                    Notifications { secret: self.uri.secret.clone(), wallet: self.uri.wallet },
                )
            },
            (OpenStage::Publishing, Tried::Failed(text)) => {
                o.stage = OpenStage::Failed;
                OpenAct::Fail(Error::Relay(text))
            },
            (OpenStage::Subscribing, Tried::Failed(text)) => {
                o.stage = OpenStage::Failed;
                OpenAct::Fail(Error::Relay(text))
            },
            (OpenStage::Open, _) => self.open_act(o),
            (OpenStage::Failed, _) => self.open_act(o),
        }
    }
}

} // verus!
