//! The decisions of a command line for a wallet or a node: what its arguments ask for, which
//! credentials it takes, in what order it acts, and what it says.
use vstd::prelude::*;
use vstd::string::*;
use std::time::Duration;
use nostr::SecretKey;
use serde_json::Value;
use crate::json;
use crate::json::{
    json_object, json_parse, json_pretty, json_string, json_text, json_view, keyed, member, text_in,
    JsonView,
};
use crate::keys;
use crate::keys::{secret_bytes, secret_key_in};
use crate::nnc::client::NostrNodeControl;
use crate::nnc::uri::{node_uri, NodeControlUri, NodeControlUriView};
use crate::nnc::{node_names, type_names as node_type_names, NncError, Notification, NotificationType};
use crate::nwc::client::{wallet_uri, UriError, WalletConnect, WalletUri, WalletUriView};
use crate::nwc::{
    type_names as wallet_type_names, wallet_names, WalletNotification, WalletNotificationType,
};
use crate::text::{
    characters, concat, concat3, contains, holds_text, join_with, joined, quoted, same, text_debug,
    texts,
};
use crate::time::nanos;

verus! {

/// What a person is shown who asks how to use the command line.
pub const USAGE: &'static str = "usage:
  dln-ctrl nwc <method> [params-json] [-n] [--json]
  dln-ctrl nnc <method> [params-json] [-n] [--json]
  dln-ctrl <nwc|nnc> notify [types...]
  dln-ctrl <nwc|nnc> methods

examples:
  dln-ctrl nwc get_info
  dln-ctrl nwc make_invoice '{\"amount\":120000,\"description\":\"x\"}'
  dln-ctrl nwc make_hold_invoice '{\"amount\":250000,\"payment_hash\":\"ab..\"}' -n
  dln-ctrl nnc open_channel '{\"pubkey\":\"02ab..\",\"amount_sats\":2000000}' -n
  dln-ctrl nnc notify channel_opened

-n subscribes *before* sending, then streams what the call causes until
   interrupted. Notifications are ephemeral: subscribing afterwards can
   miss the answer with nothing to replay it.

environment:
  NWC_URI      nostr+walletconnect://…   (carries its own secret)
  NNC_URI      nostr+nodecontrol://…     (carries no secret)
  NNC_SECRET   the key you sign with, for nnc only

A URI is a credential. Prefer the environment to an argument, which is
visible in `ps` to every user on the machine.";

/// How to use the command line.
pub fn usage() -> (r: String)
    ensures
        r@ == USAGE@,
{
    USAGE.to_owned()
}

/// The line that a failure ends with.
pub fn die(message: &str) -> (r: String)
    ensures
        r@ == "dln-ctrl: "@ + message@,
{
    concat("dln-ctrl: ", message)
}

/// Where a text first stands in a list.
pub open spec fn place(list: Seq<Seq<char>>, name: Seq<char>) -> Option<int> {
    list.index_of_first(name)
}

/// Finds where a text first stands in a list.
fn position(list: &Vec<String>, name: &str) -> (r: Option<usize>)
    ensures
        match r {
            Some(i) => i < list@.len() && place(texts(list@), name@) == Some(i as int),
            None => place(texts(list@), name@) is None,
        },
{
    let ghost all = texts(list@);
    proof {
        all.index_of_first_ensures(name@);
    }
    let mut i: usize = 0;
    while i < list.len()
        invariant
            i <= list@.len(),
            all == texts(list@),
            forall|j: int| 0 <= j < i ==> all[j] != name@,
            match place(all, name@) {
                Some(k) => 0 <= k < all.len() && all[k] == name@ && (forall|j: int|
                    0 <= j < k < all.len() ==> all[j] != name@),
                None => !all.contains(name@),
            },
        decreases list.len() - i,
    {
        assert(all[i as int] == list@[i as int]@);
        if same(list[i].as_str(), name) {
            assert(all.contains(name@));
            return Some(i);
        }
        i += 1;
    }
    None
}

/// Arguments without the first that is a flag.
pub open spec fn without_flag(args: Seq<Seq<char>>, name: Seq<char>) -> Seq<Seq<char>> {
    match place(args, name) {
        Some(i) => args.remove(i),
        None => args,
    }
}

/// Takes a flag out of the arguments: its first place, and no other. Tells whether it was there.
pub fn take_flag(args: &mut Vec<String>, name: &str) -> (r: bool)
    ensures
        r == texts(old(args)@).contains(name@),
        texts(final(args)@) == without_flag(texts(old(args)@), name@),
{
    let ghost all = texts(args@);
    proof {
        all.index_of_first_ensures(name@);
    }
    match position(args, name) {
        Some(i) => {
            let ghost before = args@;
            args.remove(i);
            assert(texts(args@) =~= texts(before).remove(i as int));
            true
        },
        None => false,
    }
}

/// The argument that follows a name, where one does.
pub open spec fn value_of(args: Seq<Seq<char>>, name: Seq<char>) -> Option<Seq<char>> {
    match place(args, name) {
        Some(i) => if i + 1 < args.len() {
            Some(args[i + 1])
        } else {
            None
        },
        None => None,
    }
}

/// Arguments without the first place of a name, nor what follows it.
pub open spec fn without_value(args: Seq<Seq<char>>, name: Seq<char>) -> Seq<Seq<char>> {
    match place(args, name) {
        Some(i) => if i + 1 < args.len() {
            args.remove(i).remove(i)
        } else {
            args.remove(i)
        },
        None => args,
    }
}

/// Takes a name and the argument that follows it out of the arguments. A name that nothing
/// follows is taken out too, and has no value.
pub fn take_value(args: &mut Vec<String>, name: &str) -> (r: Option<String>)
    ensures
        match r {
            Some(s) => value_of(texts(old(args)@), name@) == Some(s@),
            None => value_of(texts(old(args)@), name@) is None,
        },
        texts(final(args)@) == without_value(texts(old(args)@), name@),
{
    match position(args, name) {
        Some(i) => {
            let ghost before = args@;
            proof {
                texts(before).index_of_first_ensures(name@);
            }
            args.remove(i);
            let ghost between = args@;
            assert(texts(between) =~= texts(before).remove(i as int));
            if i < args.len() {
                assert(between[i as int] == before[i + 1]);
                let value: String = args.remove(i);
                assert(texts(args@) =~= texts(between).remove(i as int));
                Some(value)
            } else {
                None
            }
        },
        None => None,
    }
}

/// What parameters stand in the rest of the arguments: the first, and an empty object where there
/// is none.
pub open spec fn params_in(rest: Seq<Seq<char>>) -> Result<Value, Seq<char>> {
    if rest.len() == 0 {
        Ok(json_object(Seq::empty()))
    } else {
        match json_parse(rest[0]) {
            Ok(v) => Ok(v),
            Err(e) => Err("params are not JSON: "@ + e + "\n  got: "@ + rest[0]),
        }
    }
}

/// Reads the parameters of a call.
///
/// A method without parameters is the common case, so absence means the empty object.
pub fn params(rest: &Vec<String>) -> (r: Result<Value, String>)
    ensures
        match r {
            Ok(v) => params_in(texts(rest@)) == Ok::<Value, Seq<char>>(v),
            Err(e) => params_in(texts(rest@)) == Err::<Value, Seq<char>>(e@),
        },
        rest@.len() == 0 ==> (r matches Ok(v) && json_view(v) == JsonView::Object(
            Map::empty(),
        )),
{
    if rest.len() == 0 {
        let members: Vec<(String, Value)> = Vec::new();
        assert(keyed(members@) =~= Seq::empty());
        return Ok(json::object(members));
    }
    assert(texts(rest@)[0] == rest@[0]@);
    match json::parse(rest[0].as_str()) {
        Ok(v) => Ok(v),
        Err(e) => Err(
            concat3(
                concat("params are not JSON: ", json::error_text(&e).as_str()).as_str(),
                "\n  got: ",
                rest[0].as_str(),
            ),
        ),
    }
}

/// Which of the two protocols a command speaks.
#[derive(Clone, Copy, Debug, PartialEq, Eq, Structural)]
pub enum Protocol {
    /// Wallet connect.
    Wallet,
    /// Node control.
    Node,
}

/// What the arguments ask for.
pub enum Command {
    /// To be shown how to use the command line.
    Usage,
    /// To be told of notifications of these types, or of all where none is named.
    Notify(Protocol, Vec<String>),
    /// To be told which methods are known.
    Methods(Protocol),
    /// To call a method with parameters.
    Call(Protocol, String, Value),
}

/// What a command holds.
pub enum CommandView {
    /// To be shown how to use the command line.
    Usage,
    /// To be told of notifications of these types.
    Notify(Protocol, Seq<Seq<char>>),
    /// To be told which methods are known.
    Methods(Protocol),
    /// To call a method with parameters.
    Call(Protocol, Seq<char>, Value),
}

impl View for Command {
    type V = CommandView;

    open spec fn view(&self) -> CommandView {
        match self {
            Command::Usage => CommandView::Usage,
            Command::Notify(p, types) => CommandView::Notify(*p, texts(types@)),
            Command::Methods(p) => CommandView::Methods(*p),
            Command::Call(p, method, params) => CommandView::Call(*p, method@, *params),
        }
    }
}

/// The protocol that a word names.
pub open spec fn protocol_in(word: Seq<char>) -> Option<Protocol> {
    if word == "nwc"@ {
        Some(Protocol::Wallet)
    } else if word == "nnc"@ {
        Some(Protocol::Node)
    } else {
        None
    }
}

/// The command that arguments without options ask for, or why they ask for none.
///
/// The name of a method is taken as it is typed, so that a method nobody has heard of can be
/// called.
pub open spec fn command_in(args: Seq<Seq<char>>) -> Result<CommandView, Seq<char>> {
    if args.len() == 0 || args[0] == "-h"@ || args[0] == "--help"@ {
        Ok(CommandView::Usage)
    } else if args.len() == 1 {
        Err(args[0] + ": a method is required\n\n"@ + USAGE@)
    } else {
        match protocol_in(args[0]) {
            None => Err(
                "unknown protocol "@ + text_debug(args[0]) + " — expected nwc or nnc\n\n"@ + USAGE@,
            ),
            Some(p) => if args[1] == "notify"@ {
                Ok(CommandView::Notify(p, args.skip(2)))
            } else if args[1] == "methods"@ {
                Ok(CommandView::Methods(p))
            } else {
                match params_in(args.skip(2)) {
                    Ok(v) => Ok(CommandView::Call(p, args[1], v)),
                    Err(e) => Err(e),
                }
            },
        }
    }
}

/// What the arguments ask for, with the options among them.
pub struct Order {
    /// The command.
    pub command: Command,
    /// Whether the answer is printed compactly.
    pub json: bool,
    /// Whether notifications are streamed after the call.
    pub notify: bool,
    /// The URI that was given as an argument.
    pub uri: Option<String>,
}

/// Arguments after the options were taken out, in the order in which they are looked for.
pub open spec fn without_options(args: Seq<Seq<char>>) -> Seq<Seq<char>> {
    without_value(
        without_flag(without_flag(without_flag(args, "--json"@), "-n"@), "--notify"@),
        "--uri"@,
    )
}

/// Whether arguments ask for notifications after a call.
pub open spec fn asks_notify(args: Seq<Seq<char>>) -> bool {
    let rest = without_flag(args, "--json"@);
    rest.contains("-n"@) || without_flag(rest, "-n"@).contains("--notify"@)
}

/// The URI that stands among arguments.
pub open spec fn uri_among(args: Seq<Seq<char>>) -> Option<Seq<char>> {
    value_of(
        without_flag(without_flag(without_flag(args, "--json"@), "-n"@), "--notify"@),
        "--uri"@,
    )
}

/// Reads the arguments of the command line.
pub fn run(args: Vec<String>) -> (r: Result<Order, String>)
    ensures
        match r {
            Ok(order) => {
                &&& command_in(without_options(texts(args@))) == Ok::<CommandView, Seq<char>>(
                    order.command@,
                )
                &&& order.json == texts(args@).contains("--json"@)
                &&& order.notify == asks_notify(texts(args@))
                &&& match order.uri {
                    Some(s) => uri_among(texts(args@)) == Some(s@),
                    None => uri_among(texts(args@)) is None,
                }
            },
            Err(e) => command_in(without_options(texts(args@))) == Err::<CommandView, Seq<char>>(
                e@,
            ),
        },
{
    let mut args: Vec<String> = args;
    let json: bool = take_flag(&mut args, "--json");
    let short: bool = take_flag(&mut args, "-n");
    let long: bool = take_flag(&mut args, "--notify");
    let notify: bool = short || long;
    let uri: Option<String> = take_value(&mut args, "--uri");
    match command(args) {
        Ok(command) => Ok(Order { command, json, notify, uri }),
        Err(e) => Err(e),
    }
}

/// Reads a command from arguments without options.
pub fn command(args: Vec<String>) -> (r: Result<Command, String>)
    ensures
        match r {
            Ok(c) => command_in(texts(args@)) == Ok::<CommandView, Seq<char>>(c@),
            Err(e) => command_in(texts(args@)) == Err::<CommandView, Seq<char>>(e@),
        },
        r matches Ok(Command::Notify(_, types)) ==> types@ == args@.skip(2),
        r matches Ok(Command::Call(_, method, _)) ==> args@.len() >= 2 && method == args@[1],
{
    let ghost all = texts(args@);
    if args.len() == 0 {
        return Ok(Command::Usage);
    }
    assert(all[0] == args@[0]@);
    if same(args[0].as_str(), "-h") || same(args[0].as_str(), "--help") {
        return Ok(Command::Usage);
    }
    let mut rest: Vec<String> = args;
    let word: String = rest.remove(0);
    if rest.len() == 0 {
        return Err(concat3(word.as_str(), ": a method is required\n\n", USAGE));
    }
    let method: String = rest.remove(0);
    assert(all[1] == method@);
    assert(texts(rest@) =~= all.skip(2));
    assert(rest@ =~= args@.skip(2));
    let protocol: Protocol = if same(word.as_str(), "nwc") {
        Protocol::Wallet
    } else if same(word.as_str(), "nnc") {
        Protocol::Node
    } else {
        let head: String = concat("unknown protocol ", quoted(word.as_str()).as_str());
        return Err(concat3(head.as_str(), " — expected nwc or nnc\n\n", USAGE));
    };
    if same(method.as_str(), "notify") {
        Ok(Command::Notify(protocol, rest))
    } else if same(method.as_str(), "methods") {
        Ok(Command::Methods(protocol))
    } else {
        match params(&rest) {
            Ok(v) => Ok(Command::Call(protocol, method, v)),
            Err(e) => Err(e),
        }
    }
}

proof fn lemma_place(a: Seq<Seq<char>>, name: Seq<char>, b: Seq<Seq<char>>)
    requires
        !a.contains(name),
    ensures
        place(a + seq![name] + b, name) == Some(a.len() as int),
        (a + seq![name] + b).contains(name),
{
    let all = a + seq![name] + b;
    all.index_of_first_ensures(name);
    assert(all[a.len() as int] == name);
    let k = place(all, name)->0;
    if k < a.len() {
        assert(all[k] == a[k]);
    }
}

/// A flag may stand anywhere among the arguments: what is left is what stood before it and behind
/// it, a second place of the flag included.
pub proof fn law_flag_stands_anywhere(a: Seq<Seq<char>>, name: Seq<char>, b: Seq<Seq<char>>)
    requires
        !a.contains(name),
    ensures
        (a + seq![name] + b).contains(name),
        without_flag(a + seq![name] + b, name) == a + b,
{
    lemma_place(a, name, b);
    assert((a + seq![name] + b).remove(a.len() as int) =~= a + b);
}

/// A flag that is not there takes nothing away.
pub proof fn law_absent_flag_takes_nothing(args: Seq<Seq<char>>, name: Seq<char>)
    requires
        !args.contains(name),
    ensures
        without_flag(args, name) == args,
        value_of(args, name) is None,
        without_value(args, name) == args,
{
    args.index_of_first_ensures(name);
}

/// A name and its value may stand anywhere among the arguments.
pub proof fn law_value_stands_anywhere(
    a: Seq<Seq<char>>,
    name: Seq<char>,
    value: Seq<char>,
    b: Seq<Seq<char>>,
)
    requires
        !a.contains(name),
    ensures
        value_of(a + seq![name, value] + b, name) == Some(value),
        without_value(a + seq![name, value] + b, name) == a + b,
{
    let all = a + seq![name, value] + b;
    assert(all =~= a + seq![name] + (seq![value] + b));
    lemma_place(a, name, seq![value] + b);
    let i = a.len() as int;
    assert(all.remove(i) =~= a + seq![value] + b);
    assert(all.remove(i).remove(i) =~= a + b);
}

/// A method goes out as it was typed, whether anybody has heard of it or not.
pub proof fn law_method_is_not_checked(
    word: Seq<char>,
    method: Seq<char>,
    rest: Seq<Seq<char>>,
)
    requires
        protocol_in(word) is Some,
        method != "notify"@,
        method != "methods"@,
    ensures
        command_in(seq![word, method] + rest) == match params_in(rest) {
            Ok(v) => Ok::<CommandView, Seq<char>>(
                CommandView::Call(protocol_in(word)->0, method, v),
            ),
            Err(e) => Err::<CommandView, Seq<char>>(e),
        },
{
    let all = seq![word, method] + rest;
    reveal_strlit("nwc");
    reveal_strlit("nnc");
    reveal_strlit("-h");
    reveal_strlit("--help");
    assert(word.len() == 3 && "-h"@.len() == 2 && "--help"@.len() == 6);
    assert(all[0] == word && all[1] == method);
    assert(all.skip(2) =~= rest);
}

/// How long a call waits, in seconds: long enough for a hold invoice to be settled by somebody
/// else, which is the slowest thing that any of them waits for.
pub const CALL_TIMEOUT_SECS: u64 = 300;

/// How long a wallet has to say what it is, in seconds, before its notifications are opened
/// without a word of warning.
pub const ASK_TIMEOUT_SECS: u64 = 30;

/// Whether a character is white space, as Unicode has it.
pub open spec fn is_white(c: char) -> bool {
    let n = c as u32;
    ||| 0x9 <= n <= 0xd
    ||| n == 0x20
    ||| n == 0x85
    ||| n == 0xa0
    ||| n == 0x1680
    ||| 0x2000 <= n <= 0x200a
    ||| n == 0x2028
    ||| n == 0x2029
    ||| n == 0x202f
    ||| n == 0x205f
    ||| n == 0x3000
}

/// Whether a text holds nothing but white space.
pub open spec fn blank(s: Seq<char>) -> bool {
    forall|i: int| 0 <= i < s.len() ==> is_white(#[trigger] s[i])
}

/// Tells whether a text holds nothing but white space.
fn is_blank(s: &str) -> (r: bool)
    ensures
        r == blank(s@),
{
    let chars: Vec<char> = characters(s);
    let mut i: usize = 0;
    while i < chars.len()
        invariant
            i <= chars@.len(),
            chars@ == s@,
            forall|j: int| 0 <= j < i ==> is_white(#[trigger] chars@[j]),
        decreases chars.len() - i,
    {
        let n: u32 = chars[i] as u32;
        let white: bool = (0x9 <= n && n <= 0xd) || n == 0x20 || n == 0x85 || n == 0xa0 || n
            == 0x1680 || (0x2000 <= n && n <= 0x200a) || n == 0x2028 || n == 0x2029 || n == 0x202f
            || n == 0x205f || n == 0x3000;
        if !white {
            assert(!is_white(s@[i as int]));
            return false;
        }
        i += 1;
    }
    true
}

/// The characters of a text that may be there.
pub open spec fn maybe(s: Option<String>) -> Option<Seq<char>> {
    match s {
        Some(s) => Some(s@),
        None => None,
    }
}

/// The credential: the argument where there is one, else what the environment holds. A blank one
/// counts as none, and is not replaced by the other.
pub open spec fn credential_in(arg: Option<Seq<char>>, env: Option<Seq<char>>) -> Option<
    Seq<char>,
> {
    let given = if arg is Some {
        arg
    } else {
        env
    };
    match given {
        Some(s) => if blank(s) {
            None
        } else {
            Some(s)
        },
        None => None,
    }
}

/// What is said where a credential is missing: the variable's name, and nothing of what was found.
pub open spec fn missing(var: Seq<char>) -> Seq<char> {
    "no credential: set $"@ + var
}

/// Takes a credential from an argument or from the environment variable `var`, whose value is
/// `env`.
pub fn credential(arg: Option<String>, env: Option<String>, var: &str) -> (r: Result<
    String,
    String,
>)
    ensures
        match r {
            Ok(s) => credential_in(maybe(arg), maybe(env)) == Some(s@),
            Err(e) => credential_in(maybe(arg), maybe(env)) is None && e@ == missing(var@),
        },
{
    let given: Option<String> = match arg {
        Some(s) => Some(s),
        None => env,
    };
    match given {
        Some(s) => if is_blank(s.as_str()) {
            Err(concat("no credential: set $", var))
        } else {
            Ok(s)
        },
        None => Err(concat("no credential: set $", var)),
    }
}

/// What is said of a text that is no wallet's URI. The text is not quoted: it is a secret.
pub const NO_WALLET_URI: &'static str = "NWC_URI is not a nostr+walletconnect:// URI";

/// What is said of a text that is no node service's URI.
pub const NO_NODE_URI: &'static str = "NNC_URI is not a nostr+nodecontrol:// URI";

/// What is said of a text that is no key.
pub const NO_KEY: &'static str = "NNC_SECRET is not a key";

/// The wallet that the credentials reach, or what is said where they reach none.
pub open spec fn wallet_for(arg: Option<Seq<char>>, env: Option<Seq<char>>) -> Result<
    WalletUriView,
    Seq<char>,
> {
    match credential_in(arg, env) {
        None => Err(missing("NWC_URI"@)),
        Some(raw) => match wallet_uri(raw) {
            Ok(uri) => Ok(uri),
            Err(_) => Err(NO_WALLET_URI@),
        },
    }
}

/// The client for a wallet. The URI is the whole credential.
pub fn wallet(arg: Option<String>, env: Option<String>) -> (r: Result<WalletConnect, String>)
    ensures
        match r {
            Ok(w) => {
                &&& wallet_for(maybe(arg), maybe(env)) == Ok::<WalletUriView, Seq<char>>(w.uri@)
                &&& match (arg, env) {
                    (Some(raw), _) => wallet_uri(raw@) == Ok::<WalletUriView, UriError>(w.uri@),
                    (None, Some(raw)) => wallet_uri(raw@) == Ok::<WalletUriView, UriError>(w.uri@),
                    (None, None) => false,
                }
                &&& nanos(w.timeout) == CALL_TIMEOUT_SECS * 1_000_000_000
                &&& !w.connected
            },
            Err(e) => wallet_for(maybe(arg), maybe(env)) == Err::<WalletUriView, Seq<char>>(e@),
        },
{
    match credential(arg, env, "NWC_URI") {
        Ok(raw) => match WalletUri::from_str(raw.as_str()) {
            Ok(uri) => Ok(
                WalletConnect::new(uri).with_timeout(Duration::from_secs(CALL_TIMEOUT_SECS)),
            ),
            Err(_) => Err(NO_WALLET_URI.to_owned()),
        },
        Err(e) => Err(e),
    }
}

/// The node service that the credentials reach and the bytes of the client's key, or what is said
/// where they reach none. The URI is looked at first.
pub open spec fn node_for(
    arg: Option<Seq<char>>,
    env: Option<Seq<char>>,
    secret: Option<Seq<char>>,
) -> Result<(NodeControlUriView, Seq<u8>), Seq<char>> {
    match credential_in(arg, env) {
        None => Err(missing("NNC_URI"@)),
        Some(raw) => match node_uri(raw) {
            Err(_) => Err(NO_NODE_URI@),
            Ok(uri) => match credential_in(None, secret) {
                None => Err(missing("NNC_SECRET"@)),
                Some(text) => match secret_key_in(text) {
                    None => Err(NO_KEY@),
                    Some(key) => Ok((uri, key)),
                },
            },
        },
    }
}

/// The client for a node service, and the key that it signs with. The URI says who and where, and
/// the key says who the client is, so two credentials are needed.
pub fn node(arg: Option<String>, env: Option<String>, secret: Option<String>) -> (r: Result<
    (NostrNodeControl, SecretKey),
    String,
>)
    ensures
        match r {
            Ok((n, key)) => {
                &&& node_for(maybe(arg), maybe(env), maybe(secret)) == Ok::<
                    (NodeControlUriView, Seq<u8>),
                    Seq<char>,
                >((n.uri@, secret_bytes(key)))
                &&& nanos(n.timeout) == CALL_TIMEOUT_SECS * 1_000_000_000
                &&& !n.connected
            },
            Err(e) => node_for(maybe(arg), maybe(env), maybe(secret)) == Err::<
                (NodeControlUriView, Seq<u8>),
                Seq<char>,
            >(e@),
        },
{
    let raw: String = match credential(arg, env, "NNC_URI") {
        Ok(raw) => raw,
        Err(e) => return Err(e),
    };
    let uri: NodeControlUri = match NodeControlUri::from_str(raw.as_str()) {
        Ok(uri) => uri,
        Err(_) => return Err(NO_NODE_URI.to_owned()),
    };
    let text: String = match credential(None, secret, "NNC_SECRET") {
        Ok(text) => text,
        Err(e) => return Err(e),
    };
    match keys::parse_secret_key(text.as_str()) {
        Ok(key) => {
            let n: NostrNodeControl = NostrNodeControl::new(uri).with_timeout(
                Duration::from_secs(CALL_TIMEOUT_SECS),
            );
            Ok((n, key))
        },
        Err(_) => Err(NO_KEY.to_owned()),
    }
}

/// Nothing of a credential is said back: whatever stands in one, what is said where it is refused
/// is one of a few fixed texts.
pub proof fn law_credentials_are_not_said_back(
    arg: Option<Seq<char>>,
    env: Option<Seq<char>>,
    secret: Option<Seq<char>>,
)
    ensures
        wallet_for(arg, env) matches Err(text) ==> text == missing("NWC_URI"@) || text
            == NO_WALLET_URI@,
        node_for(arg, env, secret) matches Err(text) ==> text == missing("NNC_URI"@) || text
            == NO_NODE_URI@ || text == missing("NNC_SECRET"@) || text == NO_KEY@,
{
}

/// An argument that is not blank goes before the environment, whatever that holds.
pub proof fn law_argument_before_environment(
    arg: Seq<char>,
    env: Option<Seq<char>>,
    other: Option<Seq<char>>,
)
    ensures
        credential_in(Some(arg), env) == credential_in(Some(arg), other),
        !blank(arg) ==> credential_in(Some(arg), env) == Some(arg),
{
}

/// The names to ask for: the ones given, and all that are known where none is.
pub open spec fn wanted(names: Seq<Seq<char>>, known: Seq<Seq<char>>) -> Seq<Seq<char>> {
    if names.len() == 0 {
        known
    } else {
        names
    }
}

/// The types of wallet notification to ask for: the ones named, in order and as they were named,
/// or all that are known where none is.
pub fn wanted_wallet_types(names: &Vec<String>) -> (r: Vec<WalletNotificationType>)
    ensures
        wallet_names(r@) == wanted(texts(names@), WalletNotificationType::known()),
        wallet_names(r@) == if names@.len() == 0 {
            WalletNotificationType::known()
        } else {
            texts(names@)
        },
        forall|i: int| 0 <= i < r@.len() ==> (#[trigger] r@[i]).reads(r@[i].name()),
{
    if names.len() == 0 {
        return WalletNotificationType::all();
    }
    let mut out: Vec<WalletNotificationType> = Vec::new();
    let mut i: usize = 0;
    while i < names.len()
        invariant
            i <= names@.len(),
            out@.len() == i,
            forall|j: int| 0 <= j < i ==> (#[trigger] out@[j]).reads(names@[j]@),
        decreases names.len() - i,
    {
        out.push(WalletNotificationType::named(names[i].as_str()));
        i += 1;
    }
    assert(wallet_names(out@) =~= texts(names@));
    out
}

/// The types of node notification to ask for: the ones named, in order and as they were named, or
/// all that are known where none is.
pub fn wanted_node_types(names: &Vec<String>) -> (r: Vec<NotificationType>)
    ensures
        node_names(r@) == wanted(texts(names@), NotificationType::known()),
        node_names(r@) == if names@.len() == 0 {
            NotificationType::known()
        } else {
            texts(names@)
        },
        forall|i: int| 0 <= i < r@.len() ==> (#[trigger] r@[i]).reads(r@[i].name()),
{
    if names.len() == 0 {
        return NotificationType::all();
    }
    let mut out: Vec<NotificationType> = Vec::new();
    let mut i: usize = 0;
    while i < names.len()
        invariant
            i <= names@.len(),
            out@.len() == i,
            forall|j: int| 0 <= j < i ==> (#[trigger] out@[j]).reads(names@[j]@),
        decreases names.len() - i,
    {
        out.push(NotificationType::named(names[i].as_str()));
        i += 1;
    }
    assert(node_names(out@) =~= texts(names@));
    out
}

/// Whether a method's parameters say if the node is to notify of its outcome.
pub open spec fn takes_notify(method: Seq<char>) -> bool {
    method == "open_channel"@ || method == "close_channel"@
}

/// Whether parameters are those of a call with the node told to notify of its outcome, for the
/// methods whose parameters say so. What they say already stands, and other parameters are left
/// alone.
pub open spec fn opted_in(method: Seq<char>, params: Value, out: Value) -> bool {
    match json_view(params) {
        JsonView::Object(m) => if takes_notify(method) && !m.contains_key("notify"@) {
            exists|yes: Value| #[trigger]
                json_view(yes) == JsonView::Bool(true) && json_view(out) == JsonView::Object(
                    m.insert("notify"@, yes),
                )
        } else {
            out == params
        },
        _ => out == params,
    }
}

/// Has the node notify of a call's outcome. A client that subscribed and forgot this would wait
/// for ever on a node that was not told to send.
pub fn opt_in(method: &str, params: Value) -> (r: Value)
    ensures
        opted_in(method@, params, r),
{
    if !same(method, "open_channel") && !same(method, "close_channel") {
        return params;
    }
    if !json::is_object(&params) || json::get(&params, "notify").is_some() {
        return params;
    }
    let mut params: Value = params;
    let yes: Value = json::boolean(true);
    json::insert(&mut params, "notify", yes);
    params
}

/// An answer as it is printed.
pub open spec fn printed(v: Value, json_out: bool) -> Seq<char> {
    if json_out {
        json_text(v)
    } else {
        json_pretty(v)
    }
}

/// The answer as it is printed: compact if asked for, else indented. Either is what the service
/// said and nothing else.
pub fn emit(v: &Value, json_out: bool) -> (r: String)
    ensures
        r@ == printed(*v, json_out),
        r@ == if json_out {
            json_text(*v)
        } else {
            json_pretty(*v)
        },
{
    let printed: Result<String, serde_json::Error> = if json_out {
        json::print(v)
    } else {
        json::print_pretty(v)
    };
    match printed {
        Ok(s) => s,
        Err(e) => concat("could not render the response: ", json::error_text(&e).as_str()),
    }
}

/// The line of a refusal, with a hint where the grant may be too narrow.
pub open spec fn coded_line(e: NncError) -> Seq<char> {
    let line = e.code.name() + ": "@ + e.message@;
    if holds_text(e.code.name(), "Restricted"@) {
        line + "  (the grant may not permit this method)"@
    } else {
        line
    }
}

/// The line of a refusal.
pub fn coded(e: &NncError) -> (r: String)
    ensures
        r@ == coded_line(*e),
{
    let name: String = e.code.label();
    let line: String = concat3(name.as_str(), ": ", e.message.as_str());
    if contains(name.as_str(), "Restricted") {
        concat(line.as_str(), "  (the grant may not permit this method)")
    } else {
        line
    }
}

/// What is said of a wallet call that failed.
pub open spec fn wallet_complaint(e: crate::nwc::client::Error) -> Seq<char> {
    match e {
        crate::nwc::client::Error::Refused(err) => coded_line(err),
        _ => e.words(),
    }
}

/// What is said of a node call that failed.
pub open spec fn node_complaint(e: crate::nnc::client::Error) -> Seq<char> {
    match e {
        crate::nnc::client::Error::Refused(err) => coded_line(err),
        _ => e.words(),
    }
}

/// Says why a wallet call failed.
pub fn refusal(e: &crate::nwc::client::Error) -> (r: String)
    ensures
        r@ == wallet_complaint(*e),
        r@ == match *e {
            crate::nwc::client::Error::Refused(err) => coded_line(err),
            _ => e.words(),
        },
{
    match e {
        crate::nwc::client::Error::Refused(err) => coded(err),
        _ => e.to_text(),
    }
}

/// What is said of a node call that failed.
pub fn nnc_refusal(e: &crate::nnc::client::Error) -> (r: String)
    ensures
        r@ == node_complaint(*e),
        r@ == match *e {
            crate::nnc::client::Error::Refused(err) => coded_line(err),
            _ => e.words(),
        },
{
    match e {
        crate::nnc::client::Error::Refused(err) => coded(err),
        _ => e.to_text(),
    }
}

/// Texts with a comma and a space between each and the next.
pub fn join(items: &Vec<String>) -> (r: String)
    ensures
        r@ == joined(texts(items@), ", "@),
{
    join_with(items, ", ")
}

/// The compact JSON of a notification: its type and what it tells, in this order.
pub open spec fn note_line(name: Seq<char>, told: Value) -> Seq<char> {
    "{\"notification_type\":"@ + json_text(json_string(name)) + ",\"notification\":"@
        + json_text(told) + "}"@
}

/// The line that is printed for a notification.
fn note(name: &str, told: &Value) -> (r: String)
    ensures
        r@ == note_line(name@, *told),
{
    let tag: Value = json::string(name);
    let (tag, told) = match (json::print(&tag), json::print(told)) {
        (Ok(tag), Ok(told)) => (tag, told),
        (Err(e), _) => return concat3("{\"error\":\"", json::error_text(&e).as_str(), "\"}"),
        (_, Err(e)) => return concat3("{\"error\":\"", json::error_text(&e).as_str(), "\"}"),
    };
    let head: String = concat3("{\"notification_type\":", tag.as_str(), ",\"notification\":");
    concat3(head.as_str(), told.as_str(), "}")
}

/// The line that is printed for a notification of a wallet.
pub fn wallet_note(n: &WalletNotification) -> (r: String)
    ensures
        r@ == note_line(n.notification_type.name(), n.notification),
{
    note(n.notification_type.as_str(), &n.notification)
}

/// The line that is printed for a notification of a node.
pub fn node_note(n: &Notification) -> (r: String)
    ensures
        r@ == note_line(n.notification_type.name(), n.notification),
{
    note(n.notification_type.as_str(), &n.notification)
}

/// The lines that list the methods a client knows: each name as it is, in order. A method that
/// is not among them can be called too.
pub fn methods(known: &Vec<String>) -> (r: Vec<String>)
    ensures
        texts(r@) == texts(known@),
{
    let mut out: Vec<String> = Vec::new();
    let mut i: usize = 0;
    while i < known.len()
        invariant
            i <= known@.len(),
            out@.len() == i,
            forall|j: int| 0 <= j < i ==> (#[trigger] out@[j])@ == known@[j]@,
        decreases known.len() - i,
    {
        out.push(known[i].clone());
        i += 1;
    }
    assert(texts(out@) =~= texts(known@));
    out
}

/// The method that asks a wallet what it is, and its parameters: none.
pub fn ask() -> (r: (String, Value))
    ensures
        r.0@ == "get_info"@,
        r.1 == json_object(Seq::empty()),
        json_view(r.1) == JsonView::Object(Map::empty()),
{
    let members: Vec<(String, Value)> = Vec::new();
    assert(keyed(members@) =~= Seq::empty());
    ("get_info".to_owned(), json::object(members))
}

/// The types of notification that a service says it sends, where it says so.
pub open spec fn advertised_in(info: Value) -> Option<Seq<Seq<char>>> {
    match member(info, "notifications"@) {
        Some(m) => match json_view(m) {
            JsonView::Array(items) => if forall|i: int|
                0 <= i < items.len() ==> text_in(#[trigger] items[i]) is Some {
                Some(items.map_values(|v: Value| text_in(v)->0))
            } else {
                None
            },
            _ => None,
        },
        None => None,
    }
}

/// Reads which types of notification a service says it sends.
pub fn advertised(info: &Value) -> (r: Option<Vec<String>>)
    ensures
        match r {
            Some(names) => advertised_in(*info) == Some(texts(names@)),
            None => advertised_in(*info) is None,
        },
{
    let m: &Value = match json::get(info, "notifications") {
        Some(m) => m,
        None => return None,
    };
    let list: &Vec<Value> = match json::items(m) {
        Some(list) => list,
        None => return None,
    };
    let mut out: Vec<String> = Vec::new();
    let mut i: usize = 0;
    while i < list.len()
        invariant
            i <= list@.len(),
            out@.len() == i,
            member(*info, "notifications"@) == Some(*m),
            json_view(*m) == JsonView::Array(list@),
            forall|j: int| 0 <= j < i ==> text_in(#[trigger] list@[j]) == Some(out@[j]@),
        decreases list.len() - i,
    {
        match json::string_of(json::duplicate(&list[i])) {
            Ok(s) => out.push(s),
            Err(_) => {
                assert(text_in(list@[i as int]) is None);
                return None;
            },
        }
        i += 1;
    }
    assert(texts(out@) =~= list@.map_values(|v: Value| text_in(v)->0));
    Some(out)
}

/// What is said of a type that a service does not say it sends.
pub open spec fn warning(name: Seq<char>, told: Seq<Seq<char>>) -> Seq<char> {
    "warning: this node does not advertise "@ + name + " — it advertises "@ + joined(told, ", "@)
}

/// A warning for each type wanted that is not among those a service says it sends.
pub open spec fn warnings(wanted: Seq<Seq<char>>, told: Seq<Seq<char>>) -> Seq<Seq<char>>
    decreases wanted.len(),
{
    if wanted.len() == 0 {
        Seq::empty()
    } else if told.contains(wanted.last()) {
        warnings(wanted.drop_last(), told)
    } else {
        warnings(wanted.drop_last(), told).push(warning(wanted.last(), told))
    }
}

/// Warns of each type wanted that is not among those a service says it sends.
pub fn warn(wanted: &Vec<String>, told: &Vec<String>) -> (r: Vec<String>)
    ensures
        texts(r@) == warnings(texts(wanted@), texts(told@)),
{
    let ghost all = texts(wanted@);
    let known: String = join(told);
    let mut out: Vec<String> = Vec::new();
    let mut i: usize = 0;
    assert(texts(out@) =~= Seq::empty());
    while i < wanted.len()
        invariant
            i <= wanted@.len(),
            all == texts(wanted@),
            known@ == joined(texts(told@), ", "@),
            texts(out@) == warnings(all.take(i as int), texts(told@)),
        decreases wanted.len() - i,
    {
        let name: &str = wanted[i].as_str();
        let ghost before = out@;
        proof {
            texts(told@).index_of_first_ensures(name@);
            assert(all.take(i + 1).drop_last() =~= all.take(i as int));
            assert(all.take(i + 1).last() == name@);
        }
        if position(told, name).is_none() {
            let head: String = concat("warning: this node does not advertise ", name);
            out.push(concat3(head.as_str(), " — it advertises ", known.as_str()));
            assert(texts(out@) =~= texts(before).push(warning(name@, texts(told@))));
        }
        i += 1;
    }
    assert(all.take(wanted@.len() as int) =~= all);
    out
}

/// How far a session has come.
#[derive(Clone, Copy, Debug, PartialEq, Eq, Structural)]
pub enum Stage {
    /// The service is asked what it is.
    Asking,
    /// Its notifications are subscribed to.
    Opening,
    /// The method is called.
    Calling,
    /// Notifications are printed.
    Reading,
    /// The session is over.
    Over,
}

/// What happened in a session.
pub enum Outcome {
    /// The service said what it is, or did not.
    Told(Option<Value>),
    /// The notifications were subscribed to, or not; the text says why.
    Opened(Result<(), String>),
    /// The method was called and answered, or not; the text says why.
    Called(Result<Value, String>),
    /// The notifications ended, or failed; the text says why.
    Ended(Result<(), String>),
}

/// What is to be done next in a session.
pub enum Task {
    /// Ask the service what it is.
    Ask,
    /// Subscribe to its notifications.
    Open,
    /// Call the method.
    Call,
    /// Print notifications as they come.
    Read,
    /// End with success.
    Succeed,
    /// End with a failure, and say why.
    Fail(String),
    /// Nothing: the session is over.
    Rest,
}

/// What is printed, said and done next, in this order.
pub struct Move {
    /// What is printed as output.
    pub output: Option<String>,
    /// What is said to the person, line by line.
    pub lines: Vec<String>,
    /// What is to be done.
    pub task: Task,
}

/// What a move holds.
pub struct MoveView {
    /// What is printed as output.
    pub output: Option<Seq<char>>,
    /// What is said to the person, line by line.
    pub lines: Seq<Seq<char>>,
    /// What is to be done.
    pub task: Task,
}

impl View for Move {
    type V = MoveView;

    open spec fn view(&self) -> MoveView {
        MoveView { output: maybe(self.output), lines: texts(self.lines@), task: self.task }
    }
}

/// One run of the command line against a service.
pub struct Session {
    /// How far it has come.
    pub stage: Stage,
    /// The protocol that it speaks.
    pub protocol: Protocol,
    /// The types of notification that it asks for, by name.
    pub types: Vec<String>,
    /// The method that it calls and the parameters, where it calls one.
    pub call: Option<(String, Value)>,
    /// Whether it prints notifications.
    pub streams: bool,
    /// Whether it prints the answer compactly.
    pub json: bool,
}

/// What is said once it is settled what is subscribed to.
pub open spec fn subscribed(types: Seq<Seq<char>>) -> Seq<char> {
    "subscribed to "@ + joined(types, ", "@)
}

/// A move without output.
pub open spec fn says(lines: Seq<Seq<char>>, task: Task) -> MoveView {
    MoveView { output: None, lines, task }
}

/// What a stage asks for when nothing of it has happened yet.
pub open spec fn task_of(stage: Stage) -> Task {
    match stage {
        Stage::Asking => Task::Ask,
        Stage::Opening => Task::Open,
        Stage::Calling => Task::Call,
        Stage::Reading => Task::Read,
        Stage::Over => Task::Rest,
    }
}

impl Session {
    /// The stage after something happened.
    pub open spec fn stage_after(&self, event: Outcome) -> Stage {
        match (self.stage, event) {
            (Stage::Asking, Outcome::Told(_)) => Stage::Opening,
            (Stage::Opening, Outcome::Opened(Ok(_))) => if self.call is Some {
                Stage::Calling
            } else {
                Stage::Reading
            },
            (Stage::Opening, Outcome::Opened(Err(_))) => Stage::Over,
            (Stage::Calling, Outcome::Called(Ok(_))) => if self.streams {
                Stage::Reading
            } else {
                Stage::Over
            },
            (Stage::Calling, Outcome::Called(Err(_))) => Stage::Over,
            (Stage::Reading, Outcome::Ended(_)) => Stage::Over,
            (stage, _) => stage,
        }
    }

    /// What is printed, said and done after something happened. What does not belong to the stage
    /// changes nothing.
    pub open spec fn move_after(&self, event: Outcome) -> MoveView {
        let none = Seq::<Seq<char>>::empty();
        match (self.stage, event) {
            (Stage::Asking, Outcome::Told(info)) => says(
                match info {
                    Some(v) => match advertised_in(v) {
                        Some(told) => warnings(texts(self.types@), told),
                        None => none,
                    },
                    None => none,
                },
                Task::Open,
            ),
            (Stage::Opening, Outcome::Opened(Ok(_))) => if self.call is Some {
                says(
                    match self.protocol {
                        Protocol::Wallet => none,
                        Protocol::Node => seq![subscribed(texts(self.types@))],
                    },
                    Task::Call,
                )
            } else {
                says(
                    seq![subscribed(texts(self.types@)), "waiting — ^C to stop"@],
                    Task::Read,
                )
            },
            (Stage::Calling, Outcome::Called(Ok(v))) => {
                let output = Some(
                    if self.json {
                        json_text(v)
                    } else {
                        json_pretty(v)
                    },
                );
                if self.streams {
                    MoveView {
                        output,
                        lines: seq!["waiting for notifications — ^C to stop"@],
                        task: Task::Read,
                    }
                } else {
                    MoveView { output, lines: none, task: Task::Succeed }
                }
            },
            (Stage::Reading, Outcome::Ended(Ok(_))) => says(none, Task::Succeed),
            (Stage::Opening, Outcome::Opened(Err(e))) => says(none, Task::Fail(e)),
            (Stage::Calling, Outcome::Called(Err(e))) => says(none, Task::Fail(e)),
            (Stage::Reading, Outcome::Ended(Err(e))) => says(none, Task::Fail(e)),
            (stage, _) => says(none, task_of(stage)),
        }
    }

    /// Goes on after something happened.
    pub fn step(&mut self, event: Outcome) -> (r: Move)
        ensures
            *final(self) == (Session { stage: old(self).stage_after(event), ..*old(self) }),
            r@ == old(self).move_after(event),
            old(self).stage == Stage::Calling ==> (event matches Outcome::Called(Ok(v)) ==> (
            r.output matches Some(text) && text@ == if old(self).json {
                json_text(v)
            } else {
                json_pretty(v)
            })),
            event matches Outcome::Called(Err(why)) ==> (old(self).stage == Stage::Calling
                ==> r.task == Task::Fail(why) && r.output is None),
    {
        match (self.stage, event) {
            (Stage::Asking, Outcome::Told(info)) => {
                self.stage = Stage::Opening;
                let told: Option<Vec<String>> = match &info {
                    Some(v) => advertised(v),
                    None => None,
                };
                let lines: Vec<String> = match &told {
                    Some(told) => warn(&self.types, told),
                    None => Vec::new(),
                };
                assert(told is None ==> texts(lines@) =~= Seq::empty());
                Move { output: None, lines, task: Task::Open }
            },
            (Stage::Opening, Outcome::Opened(Ok(_))) => {
                let line: String = concat("subscribed to ", join(&self.types).as_str());
                if self.call.is_some() {
                    self.stage = Stage::Calling;
                    match self.protocol {
                        Protocol::Wallet => quiet(Task::Call),
                        Protocol::Node => {
                            let lines: Vec<String> = vec![line];
                            assert(texts(lines@) =~= seq![line@]);
                            Move { output: None, lines, task: Task::Call }
                        },
                    }
                } else {
                    self.stage = Stage::Reading;
                    let lines: Vec<String> = vec![line, "waiting — ^C to stop".to_owned()];
                    assert(texts(lines@) =~= seq![line@, "waiting — ^C to stop"@]);
                    Move { output: None, lines, task: Task::Read }
                }
            },
            (Stage::Opening, Outcome::Opened(Err(e))) => {
                self.stage = Stage::Over;
                quiet(Task::Fail(e))
            },
            (Stage::Calling, Outcome::Called(Ok(v))) => {
                let output: Option<String> = Some(emit(&v, self.json));
                if self.streams {
                    self.stage = Stage::Reading;
                    let lines: Vec<String> = vec![
                        "waiting for notifications — ^C to stop".to_owned(),
                    ];
                    assert(texts(lines@) =~= seq!["waiting for notifications — ^C to stop"@]);
                    Move { output, lines, task: Task::Read }
                } else {
                    self.stage = Stage::Over;
                    let lines: Vec<String> = Vec::new();
                    assert(texts(lines@) =~= Seq::empty());
                    Move { output, lines, task: Task::Succeed }
                }
            },
            (Stage::Calling, Outcome::Called(Err(e))) => {
                self.stage = Stage::Over;
                quiet(Task::Fail(e))
            },
            (Stage::Reading, Outcome::Ended(Ok(_))) => {
                self.stage = Stage::Over;
                quiet(Task::Succeed)
            },
            (Stage::Reading, Outcome::Ended(Err(e))) => {
                self.stage = Stage::Over;
                quiet(Task::Fail(e))
            },
            (Stage::Asking, _) => quiet(Task::Ask),
            (Stage::Opening, _) => quiet(Task::Open),
            (Stage::Calling, _) => quiet(Task::Call),
            (Stage::Reading, _) => quiet(Task::Read),
            (Stage::Over, _) => quiet(Task::Rest),
        }
    }
}

/// A move without output and without a word.
fn quiet(task: Task) -> (r: Move)
    ensures
        r@ == says(Seq::empty(), task),
{
    let lines: Vec<String> = Vec::new();
    assert(texts(lines@) =~= Seq::empty());
    Move { output: None, lines, task }
}

/// Whether a session begins a call, and with this move.
pub open spec fn begins_call(
    protocol: Protocol,
    method: String,
    params: Value,
    json: bool,
    notify: bool,
    s: Session,
    first: MoveView,
) -> bool {
    &&& s.protocol == protocol
    &&& s.json == json
    &&& s.streams == notify
    &&& s.call matches Some((m, p)) && m == method && if notify && protocol == Protocol::Node {
        opted_in(method@, params, p)
    } else {
        p == params
    }
    &&& texts(s.types@) == match protocol {
        Protocol::Wallet => WalletNotificationType::known(),
        Protocol::Node => NotificationType::known(),
    }
    &&& s.stage == if notify {
        Stage::Opening
    } else {
        Stage::Calling
    }
    &&& first == says(
        if notify && protocol == Protocol::Wallet {
            seq![subscribed(texts(s.types@))]
        } else {
            Seq::empty()
        },
        task_of(s.stage),
    )
}

/// Whether a session begins to print notifications of some names, and with this move.
pub open spec fn begins_notify(
    protocol: Protocol,
    names: Seq<Seq<char>>,
    s: Session,
    first: MoveView,
) -> bool {
    &&& s.protocol == protocol
    &&& s.call is None
    &&& s.streams
    &&& texts(s.types@) == wanted(
        names,
        match protocol {
            Protocol::Wallet => WalletNotificationType::known(),
            Protocol::Node => NotificationType::known(),
        },
    )
    &&& s.stage == match protocol {
        Protocol::Wallet => Stage::Asking,
        Protocol::Node => Stage::Opening,
    }
    &&& first == says(Seq::empty(), task_of(s.stage))
}

/// Begins a session that calls a method of a wallet, and says what is to be done first.
///
/// With `notify`, the notifications are subscribed to before the call: one that comes before the
/// stream exists is gone.
pub fn nwc_call(method: String, params: Value, json: bool, notify: bool) -> (r: (Session, Move))
    ensures
        begins_call(Protocol::Wallet, method, params, json, notify, r.0, r.1@),
        r.0.protocol == Protocol::Wallet,
        texts(r.0.types@) == WalletNotificationType::known(),
        r.0.call == Some((method, params)),
        r.0.streams == notify,
        r.0.json == json,
        r.0.stage == if notify {
            Stage::Opening
        } else {
            Stage::Calling
        },
        r.1@ == if notify {
            says(seq![subscribed(WalletNotificationType::known())], Task::Open)
        } else {
            says(Seq::empty(), Task::Call)
        },
{
    let types: Vec<String> = wallet_type_names(&WalletNotificationType::all());
    let line: String = concat("subscribed to ", join(&types).as_str());
    let call: Option<(String, Value)> = Some((method, params));
    let protocol: Protocol = Protocol::Wallet;
    if notify {
        let lines: Vec<String> = vec![line];
        assert(texts(lines@) =~= seq![line@]);
        (
            Session { stage: Stage::Opening, protocol, types, call, streams: true, json },
            Move { output: None, lines, task: Task::Open },
        )
    } else {
        (
            Session { stage: Stage::Calling, protocol, types, call, streams: false, json },
            quiet(Task::Call),
        )
    }
}

/// Begins a session that calls a method of a node, and says what is to be done first.
///
/// With `notify`, the notifications are subscribed to before the call, and the node is told to
/// notify of its outcome.
pub fn nnc_call(method: String, params: Value, json: bool, notify: bool) -> (r: (Session, Move))
    ensures
        begins_call(Protocol::Node, method, params, json, notify, r.0, r.1@),
        r.0.protocol == Protocol::Node,
        texts(r.0.types@) == NotificationType::known(),
        match r.0.call {
            Some((m, p)) => m == method && if notify {
                opted_in(method@, params, p)
            } else {
                p == params
            },
            None => false,
        },
        r.0.streams == notify,
        r.0.json == json,
        r.0.stage == if notify {
            Stage::Opening
        } else {
            Stage::Calling
        },
        r.1@ == says(
            Seq::empty(),
            if notify {
                Task::Open
            } else {
                Task::Call
            },
        ),
{
    let types: Vec<String> = node_type_names(&NotificationType::all());
    let protocol: Protocol = Protocol::Node;
    if notify {
        let params: Value = opt_in(method.as_str(), params);
        let call: Option<(String, Value)> = Some((method, params));
        (
            Session { stage: Stage::Opening, protocol, types, call, streams: true, json },
            quiet(Task::Open),
        )
    } else {
        let call: Option<(String, Value)> = Some((method, params));
        (
            Session { stage: Stage::Calling, protocol, types, call, streams: false, json },
            quiet(Task::Call),
        )
    }
}

/// Begins a session that prints the notifications of a wallet: the types named, or all that are
/// known where none is. The wallet is asked first which of them it sends.
pub fn nwc_notify(names: &Vec<String>) -> (r: (Session, Move))
    ensures
        begins_notify(Protocol::Wallet, texts(names@), r.0, r.1@),
        r.0.protocol == Protocol::Wallet,
        texts(r.0.types@) == if names@.len() == 0 {
            WalletNotificationType::known()
        } else {
            texts(names@)
        },
        r.0.call is None,
        r.0.streams,
        !r.0.json,
        r.0.stage == Stage::Asking,
        r.1@ == says(Seq::empty(), Task::Ask),
{
    let types: Vec<String> = wallet_type_names(&wanted_wallet_types(names));
    (
        Session {
            stage: Stage::Asking,
            protocol: Protocol::Wallet,
            types,
            call: None,
            streams: true,
            json: false,
        },
        quiet(Task::Ask),
    )
}

/// Begins a session that prints the notifications of a node: the types named, or all that are
/// known where none is.
pub fn nnc_notify(names: &Vec<String>) -> (r: (Session, Move))
    ensures
        begins_notify(Protocol::Node, texts(names@), r.0, r.1@),
        r.0.protocol == Protocol::Node,
        texts(r.0.types@) == if names@.len() == 0 {
            NotificationType::known()
        } else {
            texts(names@)
        },
        r.0.call is None,
        r.0.streams,
        !r.0.json,
        r.0.stage == Stage::Opening,
        r.1@ == says(Seq::empty(), Task::Open),
{
    let types: Vec<String> = node_type_names(&wanted_node_types(names));
    (
        Session {
            stage: Stage::Opening,
            protocol: Protocol::Node,
            types,
            call: None,
            streams: true,
            json: false,
        },
        quiet(Task::Open),
    )
}

/// Whether sessions are the states that one goes through as events happen.
pub open spec fn is_run(states: Seq<Session>, events: Seq<Outcome>) -> bool {
    &&& states.len() == events.len() + 1
    &&& forall|i: int|
        0 <= i < events.len() ==> #[trigger] states[i + 1] == (Session {
            stage: states[i].stage_after(events[i]),
            ..states[i]
        })
}

/// A session that subscribes and calls has subscribed before it calls: no notification that the
/// call causes can come before somebody listens.
pub proof fn law_subscribes_before_calling(states: Seq<Session>, events: Seq<Outcome>, n: int)
    requires
        is_run(states, events),
        states[0].stage == Stage::Opening,
        0 <= n < states.len(),
        states[n].stage == Stage::Calling,
    ensures
        exists|i: int|
            0 <= i < n && #[trigger] states[i].stage == Stage::Opening && (events[i] matches
                Outcome::Opened(r) && r is Ok),
    decreases n,
{
    let before = states[n - 1];
    assert(states[n - 1 + 1] == (Session { stage: before.stage_after(events[n - 1]), ..before }));
    if before.stage == Stage::Calling {
        law_subscribes_before_calling(states, events, n - 1);
    }
}

/// Nothing is printed as an answer but the answer itself, and only after the call: a session has
/// output only where its method was called and answered.
pub proof fn law_output_is_the_answer(s: Session, event: Outcome)
    ensures
        s.move_after(event).output matches Some(text) ==> s.stage == Stage::Calling && (
        event matches Outcome::Called(Ok(v)) && text == if s.json {
            json_text(v)
        } else {
            json_pretty(v)
        }),
{
}

} // verus!
