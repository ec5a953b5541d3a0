//! What the command line does with its arguments, its credentials and what a service says.
use vstd::prelude::*;
use vstd::string::*;
use serde_json::Value;
use crate::ctrl::{
    advertised_in, asks_notify, begins_call, begins_notify, blank, coded_line, command_in, credential_in, is_run,
    is_white, law_subscribes_before_calling, maybe, missing, node_complaint, node_for, note_line,
    opted_in, params_in, place, printed, uri_among, wallet_complaint, wallet_for, wanted, warnings,
    without_flag, without_options, Command, CommandView, Move, MoveView, Outcome, Protocol, Session,
    Stage, Task, USAGE,
};
use crate::json::{
    json_object, json_parse, json_pretty, json_string, json_text, json_view, member, text_in,
    JsonView,
};
use crate::keys::{public_key_in, secret_key_in};
use crate::nnc::uri::{node_uri, NodeControlUriView};
use crate::nnc::NncError;
use crate::nwc::client::{law_wallet_uri_reads_back, wallet_uri, WalletUriView};
use crate::text::{holds_text, joined, text_debug, texts};
use crate::uri::{all_stand_for, stands_for, written_uri};

verus! {

/// Absent parameters are the empty object; the first argument is the parameters where it is JSON,
/// and is quoted back with the reason where it is not; further arguments do not matter.
pub proof fn law_params(first: Seq<char>, rest: Seq<Seq<char>>)
    ensures
        params_in(Seq::empty()) == Ok::<Value, Seq<char>>(json_object(Seq::empty())),
        json_parse(first) matches Ok(v) ==> params_in(seq![first] + rest) == Ok::<
            Value,
            Seq<char>,
        >(v),
        json_parse(first) matches Err(why) ==> params_in(seq![first] + rest) == Err::<
            Value,
            Seq<char>,
        >("params are not JSON: "@ + why + "\n  got: "@ + first),
{
    assert((seq![first] + rest)[0] == first);
}

/// The words that name a protocol are `nwc` and `nnc`.
pub open spec fn names_protocol(word: Seq<char>, p: Protocol) -> bool {
    match p {
        Protocol::Wallet => word == "nwc"@,
        Protocol::Node => word == "nnc"@,
    }
}

proof fn lemma_protocol_words(word: Seq<char>, p: Protocol)
    requires
        names_protocol(word, p),
    ensures
        word != "-h"@,
        word != "--help"@,
        crate::ctrl::protocol_in(word) == Some(p),
{
    reveal_strlit("nwc");
    reveal_strlit("nnc");
    reveal_strlit("-h");
    reveal_strlit("--help");
    assert("nwc"@[1] == 'w' && "nnc"@[1] == 'n');
    assert(word.len() == 3 && "-h"@.len() == 2 && "--help"@.len() == 6);
}

/// Notifications are asked for by the names given, all of them, in order and as they were typed.
pub proof fn law_notify_takes_the_names(word: Seq<char>, p: Protocol, names: Seq<Seq<char>>)
    requires
        names_protocol(word, p),
    ensures
        command_in(seq![word, "notify"@] + names) == Ok::<CommandView, Seq<char>>(
            CommandView::Notify(p, names),
        ),
{
    lemma_protocol_words(word, p);
    let all = seq![word, "notify"@] + names;
    assert(all[0] == word && all[1] == "notify"@);
    assert(all.skip(2) =~= names);
}

/// The list of methods is asked for by its word, whatever follows.
pub proof fn law_methods_are_listed(word: Seq<char>, p: Protocol, rest: Seq<Seq<char>>)
    requires
        names_protocol(word, p),
    ensures
        command_in(seq![word, "methods"@] + rest) == Ok::<CommandView, Seq<char>>(
            CommandView::Methods(p),
        ),
{
    lemma_protocol_words(word, p);
    reveal_strlit("methods");
    reveal_strlit("notify");
    assert("methods"@.len() == 7 && "notify"@.len() == 6);
    let all = seq![word, "methods"@] + rest;
    assert(all[0] == word && all[1] == "methods"@);
}

/// Any other word is a method, called by the protocol named, as it was typed and with the
/// parameters that follow.
pub proof fn law_call_is_as_typed(
    word: Seq<char>,
    p: Protocol,
    method: Seq<char>,
    rest: Seq<Seq<char>>,
)
    requires
        names_protocol(word, p),
        method != "notify"@,
        method != "methods"@,
    ensures
        rest.len() == 0 ==> command_in(seq![word, method] + rest) == Ok::<CommandView, Seq<char>>(
            CommandView::Call(p, method, json_object(Seq::empty())),
        ),
        rest.len() > 0 ==> (json_parse(rest[0]) matches Ok(v) ==> command_in(
            seq![word, method] + rest,
        ) == Ok::<CommandView, Seq<char>>(CommandView::Call(p, method, v))),
        rest.len() > 0 ==> (json_parse(rest[0]) matches Err(why) ==> command_in(
            seq![word, method] + rest,
        ) == Err::<CommandView, Seq<char>>(
            "params are not JSON: "@ + why + "\n  got: "@ + rest[0],
        )),
{
    lemma_protocol_words(word, p);
    let all = seq![word, method] + rest;
    assert(all[0] == word && all[1] == method);
    assert(all.skip(2) =~= rest);
}

/// Usage is shown where nothing is asked or help is; one word alone lacks a method; and a word that
/// names no protocol is quoted.
pub proof fn law_other_arguments(word: Seq<char>, second: Seq<char>, rest: Seq<Seq<char>>)
    ensures
        command_in(Seq::empty()) == Ok::<CommandView, Seq<char>>(CommandView::Usage),
        command_in(seq!["-h"@] + rest) == Ok::<CommandView, Seq<char>>(CommandView::Usage),
        command_in(seq!["--help"@] + rest) == Ok::<CommandView, Seq<char>>(CommandView::Usage),
        word != "-h"@ && word != "--help"@ ==> command_in(seq![word]) == Err::<
            CommandView,
            Seq<char>,
        >(word + ": a method is required\n\n"@ + USAGE@),
        word != "-h"@ && word != "--help"@ && word != "nwc"@ && word != "nnc"@ ==> command_in(
            seq![word, second] + rest,
        ) == Err::<CommandView, Seq<char>>(
            "unknown protocol "@ + text_debug(word) + " — expected nwc or nnc\n\n"@ + USAGE@,
        ),
{
    assert((seq!["-h"@] + rest)[0] == "-h"@);
    assert((seq!["--help"@] + rest)[0] == "--help"@);
    assert((seq![word, second] + rest)[0] == word);
}

/// Taking a flag out leaves any other argument between what stood before it and behind it.
proof fn lemma_flag_beside(
    a: Seq<Seq<char>>,
    x: Seq<char>,
    b: Seq<Seq<char>>,
    name: Seq<char>,
) -> (r: (Seq<Seq<char>>, Seq<Seq<char>>))
    requires
        x != name,
    ensures
        without_flag(a + seq![x] + b, name) == r.0 + seq![x] + r.1,
        without_flag(a + b, name) == r.0 + r.1,
        (a + seq![x] + b).contains(name) == (a + b).contains(name),
        forall|y: Seq<char>| #[trigger] r.0.contains(y) ==> a.contains(y),
        forall|y: Seq<char>| #[trigger] r.1.contains(y) ==> b.contains(y),
{
    let all = a + seq![x] + b;
    let plain = a + b;
    all.index_of_first_ensures(name);
    plain.index_of_first_ensures(name);
    a.index_of_first_ensures(name);
    b.index_of_first_ensures(name);
    if a.contains(name) {
        let i = place(a, name)->0;
        assert(all[i] == name && plain[i] == name);
        let k = place(all, name)->0;
        let l = place(plain, name)->0;
        assert(k == i) by {
            if k < i {
                assert(all[k] == a[k]);
            }
        }
        assert(l == i) by {
            if l < i {
                assert(plain[l] == a[l]);
            }
        }
        assert(all.remove(i) =~= a.remove(i) + seq![x] + b);
        assert(plain.remove(i) =~= a.remove(i) + b);
        assert forall|y: Seq<char>| #[trigger] a.remove(i).contains(y) implies a.contains(y) by {
            let j = choose|j: int| 0 <= j < a.remove(i).len() && a.remove(i)[j] == y;
            assert(a[if j < i { j } else { j + 1 }] == y);
        }
        (a.remove(i), b)
    } else if b.contains(name) {
        let i = place(b, name)->0;
        let n = a.len() as int;
        assert(all[n + 1 + i] == name && plain[n + i] == name);
        let k = place(all, name)->0;
        let l = place(plain, name)->0;
        assert(k == n + 1 + i) by {
            if k < n {
                assert(all[k] == a[k]);
            } else if k == n {
                assert(all[k] == x);
            } else if k < n + 1 + i {
                assert(all[k] == b[k - n - 1]);
            }
        }
        assert(l == n + i) by {
            if l < n {
                assert(plain[l] == a[l]);
            } else if l < n + i {
                assert(plain[l] == b[l - n]);
            }
        }
        assert(all.remove(k) =~= a + seq![x] + b.remove(i));
        assert(plain.remove(l) =~= a + b.remove(i));
        assert forall|y: Seq<char>| #[trigger] b.remove(i).contains(y) implies b.contains(y) by {
            let j = choose|j: int| 0 <= j < b.remove(i).len() && b.remove(i)[j] == y;
            assert(b[if j < i { j } else { j + 1 }] == y);
        }
        (a, b.remove(i))
    } else {
        if all.contains(name) {
            let k = place(all, name)->0;
            if k < a.len() {
                assert(a[k] == name);
            } else if k > a.len() {
                assert(b[k - a.len() - 1] == name);
            }
            assert(false);
        }
        if plain.contains(name) {
            let l = place(plain, name)->0;
            if l < a.len() {
                assert(a[l] == name);
            } else {
                assert(b[l - a.len()] == name);
            }
            assert(false);
        }
        (a, b)
    }
}

proof fn lemma_option_words()
    ensures
        "--json"@ != "-n"@,
        "--json"@ != "--notify"@,
        "--json"@ != "--uri"@,
        "-n"@ != "--notify"@,
        "-n"@ != "--uri"@,
        "--notify"@ != "--uri"@,
{
    reveal_strlit("--json");
    reveal_strlit("-n");
    reveal_strlit("--notify");
    reveal_strlit("--uri");
    assert("--json"@.len() == 6 && "-n"@.len() == 2);
    assert("--notify"@.len() == 8 && "--uri"@.len() == 5);
}

/// `--json` may stand anywhere and changes nothing but itself: the command, the URI and whether
/// notifications are asked for are those of the arguments without it.
pub proof fn law_json_option(a: Seq<Seq<char>>, b: Seq<Seq<char>>)
    requires
        !(a + b).contains("--json"@),
    ensures
        (a + seq!["--json"@] + b).contains("--json"@),
        without_options(a + seq!["--json"@] + b) == without_options(a + b),
        asks_notify(a + seq!["--json"@] + b) == asks_notify(a + b),
        uri_among(a + seq!["--json"@] + b) == uri_among(a + b),
{
    assert(!a.contains("--json"@)) by {
        if a.contains("--json"@) {
            let i = choose|i: int| 0 <= i < a.len() && a[i] == "--json"@;
            assert((a + b)[i] == "--json"@);
        }
    }
    crate::ctrl::law_flag_stands_anywhere(a, "--json"@, b);
    crate::ctrl::law_absent_flag_takes_nothing(a + b, "--json"@);
}

/// `-n` or `--notify` may stand anywhere, asks for notifications, and changes nothing else; without
/// either of them they are not asked for.
pub proof fn law_notify_option(a: Seq<Seq<char>>, flag: Seq<char>, b: Seq<Seq<char>>)
    requires
        flag == "-n"@ || flag == "--notify"@,
        !a.contains("-n"@) && !a.contains("--notify"@),
        !b.contains("-n"@) && !b.contains("--notify"@),
    ensures
        asks_notify(a + seq![flag] + b),
        !asks_notify(a + b),
        without_options(a + seq![flag] + b) == without_options(a + b),
        uri_among(a + seq![flag] + b) == uri_among(a + b),
{
    lemma_option_words();
    let (p, q) = lemma_flag_beside(a, flag, b, "--json"@);
    let rest = p + seq![flag] + q;
    lemma_in_neither(p, q, "-n"@);
    lemma_in_neither(p, q, "--notify"@);
    crate::ctrl::law_absent_flag_takes_nothing(p + q, "-n"@);
    crate::ctrl::law_absent_flag_takes_nothing(p + q, "--notify"@);
    if flag == "-n"@ {
        crate::ctrl::law_flag_stands_anywhere(p, "-n"@, q);
    } else {
        assert(!rest.contains("-n"@)) by {
            if rest.contains("-n"@) {
                let i = choose|i: int| 0 <= i < rest.len() && rest[i] == "-n"@;
                if i < p.len() {
                    assert(p[i] == "-n"@);
                    assert(p.contains("-n"@));
                } else if i > p.len() {
                    assert(q[i - p.len() - 1] == "-n"@);
                    assert(q.contains("-n"@));
                } else {
                    assert(rest[i] == flag);
                }
            }
        }
        crate::ctrl::law_absent_flag_takes_nothing(rest, "-n"@);
        crate::ctrl::law_flag_stands_anywhere(p, "--notify"@, q);
    }
}

proof fn lemma_in_neither(a: Seq<Seq<char>>, b: Seq<Seq<char>>, name: Seq<char>)
    requires
        !a.contains(name),
        !b.contains(name),
    ensures
        !(a + b).contains(name),
{
    if (a + b).contains(name) {
        let i = choose|i: int| 0 <= i < (a + b).len() && (a + b)[i] == name;
        if i < a.len() {
            assert(a[i] == name);
        } else {
            assert(b[i - a.len()] == name);
        }
    }
}

/// Arguments without options are left as they are, and a URI that follows `--uri` among them is
/// taken out with its name.
pub proof fn law_uri_option(a: Seq<Seq<char>>, uri: Seq<char>, b: Seq<Seq<char>>)
    requires
        forall|s: Seq<char>| #[trigger]
            (a + seq![uri] + b).contains(s) ==> s != "--json"@ && s != "-n"@ && s != "--notify"@
                && s != "--uri"@,
    ensures
        without_options(a + b) == a + b,
        uri_among(a + b) is None,
        !asks_notify(a + b),
        without_options(a + seq!["--uri"@, uri] + b) == a + b,
        uri_among(a + seq!["--uri"@, uri] + b) == Some(uri),
        !asks_notify(a + seq!["--uri"@, uri] + b),
{
    lemma_option_words();
    let names = a + seq![uri] + b;
    assert(names[a.len() as int] == uri);
    assert(names.contains(uri));
    assert forall|s: Seq<char>| #[trigger] a.contains(s) implies names.contains(s) by {
        let i = choose|i: int| 0 <= i < a.len() && a[i] == s;
        assert(names[i] == s);
    }
    assert forall|s: Seq<char>| #[trigger] b.contains(s) implies names.contains(s) by {
        let i = choose|i: int| 0 <= i < b.len() && b[i] == s;
        assert(names[a.len() + 1 + i] == s);
    }
    let all = a + seq!["--uri"@, uri] + b;
    lemma_plain(a, b, all, uri, "--json"@);
    lemma_plain(a, b, all, uri, "-n"@);
    lemma_plain(a, b, all, uri, "--notify"@);
    assert(!a.contains("--uri"@) && !b.contains("--uri"@));
    lemma_in_neither(a, b, "--uri"@);
    crate::ctrl::law_absent_flag_takes_nothing(a + b, "--uri"@);
    crate::ctrl::law_value_stands_anywhere(a, "--uri"@, uri, b);
}

proof fn lemma_plain(
    a: Seq<Seq<char>>,
    b: Seq<Seq<char>>,
    all: Seq<Seq<char>>,
    uri: Seq<char>,
    name: Seq<char>,
)
    requires
        all == a + seq!["--uri"@, uri] + b,
        name != "--uri"@,
        name != uri,
        !a.contains(name),
        !b.contains(name),
    ensures
        !(a + b).contains(name),
        !all.contains(name),
        without_flag(a + b, name) == a + b,
        without_flag(all, name) == all,
{
    lemma_in_neither(a, b, name);
    if all.contains(name) {
        let i = choose|i: int| 0 <= i < all.len() && all[i] == name;
        if i < a.len() {
            assert(a[i] == name);
        } else if i >= a.len() + 2 {
            assert(b[i - a.len() - 2] == name);
        }
        assert(false);
    }
    crate::ctrl::law_absent_flag_takes_nothing(a + b, name);
    crate::ctrl::law_absent_flag_takes_nothing(all, name);
}

/// A text is blank exactly if each of its parts is, and the empty one is.
pub proof fn law_blank_by_parts(a: Seq<char>, b: Seq<char>)
    ensures
        blank(Seq::empty()),
        blank(a + b) == (blank(a) && blank(b)),
        a.len() == 1 ==> blank(a) == is_white(a[0]),
{
    if blank(a + b) {
        assert forall|i: int| 0 <= i < a.len() implies is_white(#[trigger] a[i]) by {
            assert((a + b)[i] == a[i]);
        }
        assert forall|i: int| 0 <= i < b.len() implies is_white(#[trigger] b[i]) by {
            assert((a + b)[a.len() + i] == b[i]);
        }
    }
    if blank(a) && blank(b) {
        assert forall|i: int| 0 <= i < (a + b).len() implies is_white(#[trigger] (a + b)[i]) by {
            if i < a.len() {
                assert((a + b)[i] == a[i]);
            } else {
                assert((a + b)[i] == b[i - a.len()]);
            }
        }
    }
}

/// The credential is the argument where there is one, else what the environment holds, whole, and
/// none where that is missing or blank.
pub proof fn law_credential_is_taken_whole(arg: Option<Seq<char>>, env: Option<Seq<char>>)
    ensures
        arg matches Some(s) ==> credential_in(arg, env) == if blank(s) {
            None
        } else {
            Some(s)
        },
        arg is None ==> (env matches Some(s) ==> credential_in(arg, env) == if blank(s) {
            None
        } else {
            Some(s)
        }),
        arg is None && env is None ==> credential_in(arg, env) is None,
{
}

/// A missing credential is said by the name of its variable; a text that may be there is seen as it
/// is.
pub proof fn law_missing_credential(var: Seq<char>, s: String)
    ensures
        missing(var) == "no credential: set $"@ + var,
        maybe(Some(s)) == Some(s@),
        maybe(None) == None::<Seq<char>>,
{
}

/// Where a credential is taken, the wallet is exactly the one that its text reads as: its key, all
/// its relays in order, and its secret. Where it is not, or reads as none, there is no wallet.
pub proof fn law_wallet_is_the_one_named(
    arg: Option<Seq<char>>,
    env: Option<Seq<char>>,
    raw: Seq<char>,
)
    ensures
        !blank(raw) && (arg == Some(raw) || arg is None && env == Some(raw)) ==> match wallet_uri(
            raw,
        ) {
            Ok(uri) => wallet_for(arg, env) == Ok::<WalletUriView, Seq<char>>(uri),
            Err(_) => wallet_for(arg, env) == Err::<WalletUriView, Seq<char>>(
                "NWC_URI is not a nostr+walletconnect:// URI"@,
            ),
        },
        (arg is None && env is None) || (blank(raw) && (arg == Some(raw) || arg is None && env
            == Some(raw))) ==> wallet_for(arg, env) == Err::<WalletUriView, Seq<char>>(
            "no credential: set $"@ + "NWC_URI"@,
        ),
{
}

/// A wallet's URI that was written with a key, any relays and a secret gives a wallet with that
/// key, all of those relays in order and that secret, whichever characters were escaped.
pub proof fn law_every_relay_is_kept(
    key: Seq<char>,
    written: Seq<Seq<char>>,
    written_secret: Seq<char>,
    relays: Seq<Seq<char>>,
    secret: Seq<char>,
    wallet: Seq<u8>,
    own: Seq<u8>,
)
    requires
        !key.contains('?'),
        relays.len() > 0,
        all_stand_for(written, relays),
        stands_for(written_secret, secret),
    ensures
        ({
            let raw = written_uri("nostr+walletconnect://"@, key, written, written_secret);
            public_key_in(key) == Some(wallet) && secret_key_in(secret) == Some(own) ==> wallet_for(
                None,
                Some(raw),
            ) == Ok::<WalletUriView, Seq<char>>(
                WalletUriView { wallet, relays, secret: own },
            ) && wallet_for(Some(raw), None) == wallet_for(None, Some(raw))
        }),
{
    let raw = written_uri("nostr+walletconnect://"@, key, written, written_secret);
    law_wallet_uri_reads_back(key, written, written_secret, relays, secret);
    reveal_strlit("nostr+walletconnect://");
    assert(raw[0] == 'n');
    assert(!is_white('n'));
    assert(!blank(raw));
}

/// Where both credentials are taken, the node is exactly the one that its URI reads as, and the key
/// is the one that the secret stands for; the URI is looked at first.
pub proof fn law_node_is_the_one_named(
    arg: Option<Seq<char>>,
    env: Option<Seq<char>>,
    raw: Seq<char>,
    secret: Seq<char>,
)
    requires
        !blank(raw),
        arg == Some(raw) || arg is None && env == Some(raw),
    ensures
        node_uri(raw) is Err ==> node_for(arg, env, Some(secret)) == Err::<
            (NodeControlUriView, Seq<u8>),
            Seq<char>,
        >("NNC_URI is not a nostr+nodecontrol:// URI"@),
        node_uri(raw) matches Ok(uri) ==> {
            &&& node_for(arg, env, None) == Err::<(NodeControlUriView, Seq<u8>), Seq<char>>(
                "no credential: set $"@ + "NNC_SECRET"@,
            )
            &&& blank(secret) ==> node_for(arg, env, Some(secret)) == node_for(arg, env, None)
            &&& !blank(secret) ==> match secret_key_in(secret) {
                Some(key) => node_for(arg, env, Some(secret)) == Ok::<
                    (NodeControlUriView, Seq<u8>),
                    Seq<char>,
                >((uri, key)),
                None => node_for(arg, env, Some(secret)) == Err::<
                    (NodeControlUriView, Seq<u8>),
                    Seq<char>,
                >("NNC_SECRET is not a key"@),
            }
        },
{
}

/// Without a URI there is no node, whatever the secret is.
pub proof fn law_no_node_without_a_uri(env: Seq<char>, secret: Option<Seq<char>>)
    ensures
        node_for(None, None, secret) == Err::<(NodeControlUriView, Seq<u8>), Seq<char>>(
            "no credential: set $"@ + "NNC_URI"@,
        ),
        blank(env) ==> node_for(None, Some(env), secret) == node_for(None, None, secret),
        blank(env) ==> node_for(Some(env), None, secret) == node_for(None, None, secret),
{
}

/// The parameters of a call that opens or closes a channel say `notify` once they were opted in:
/// true where they said nothing, and else what they said; every other member, and the parameters of
/// any other call, stay as they are.
pub proof fn law_opting_in(method: Seq<char>, params: Value, out: Value, key: Seq<char>)
    requires
        opted_in(method, params, out),
    ensures
        method != "open_channel"@ && method != "close_channel"@ ==> out == params,
        !(json_view(params) is Object) ==> out == params,
        member(params, "notify"@) is Some ==> out == params,
        key != "notify"@ ==> member(out, key) == member(params, key),
        (method == "open_channel"@ || method == "close_channel"@) && json_view(params) is Object ==> (
        member(out, "notify"@) matches Some(said) && (member(params, "notify"@) is None
            ==> json_view(said) == JsonView::Bool(true))),
{
}

/// A refusal is said as its code and its message; where the grant is too narrow, and only there,
/// that is said too.
pub proof fn law_coded_refusal(e: NncError)
    ensures
        e.code is Restricted ==> coded_line(e) == "Restricted"@ + ": "@ + e.message@
            + "  (the grant may not permit this method)"@,
        e.code is Unauthorized ==> coded_line(e) == "Unauthorized"@ + ": "@ + e.message@,
        e.code is NotImplemented ==> coded_line(e) == "NotImplemented"@ + ": "@ + e.message@,
        e.code matches crate::nnc::ErrorCode::Unknown(s) ==> ({
            let name = "Unknown("@ + text_debug(s@) + ")"@;
            coded_line(e) == if holds_text(name, "Restricted"@) {
                name + ": "@ + e.message@ + "  (the grant may not permit this method)"@
            } else {
                name + ": "@ + e.message@
            }
        }),
{
    lemma_which_names_hold_restricted();
}

proof fn lemma_other_start(hay: Seq<char>, needle: Seq<char>)
    requires
        needle.len() > 0,
        forall|i: int|
            0 <= i && i + needle.len() <= hay.len() ==> #[trigger] hay[i] != needle[0],
    ensures
        !holds_text(hay, needle),
{
    assert forall|i: int| 0 <= i && i + needle.len() <= hay.len() implies #[trigger] hay.subrange(
        i,
        i + needle.len(),
    ) != needle by {
        assert(hay.subrange(i, i + needle.len())[0] == hay[i]);
    }
}

proof fn lemma_which_names_hold_restricted()
    ensures
        holds_text("Restricted"@, "Restricted"@),
        !holds_text("Unauthorized"@, "Restricted"@),
        !holds_text("NotImplemented"@, "Restricted"@),
{
    let r = "Restricted"@;
    assert(r.subrange(0int, 0int + r.len()) =~= r);
    reveal_strlit("Restricted");
    reveal_strlit("Unauthorized");
    reveal_strlit("NotImplemented");
    let u = "Unauthorized"@;
    assert(r.len() == 10 && r[0] == 'R');
    assert(u.len() == 12 && u[0] == 'U' && u[1] == 'n' && u[2] == 'a');
    lemma_other_start(u, r);
    let n = "NotImplemented"@;
    assert(n.len() == 14 && n[0] == 'N' && n[1] == 'o' && n[2] == 't' && n[3] == 'I' && n[4]
        == 'm');
    lemma_other_start(n, r);
}

/// A notification is printed as an object of its type and what it tells, both as they are.
pub proof fn law_note(name: Seq<char>, told: Value)
    ensures
        note_line(name, told) == "{\"notification_type\":"@ + json_text(json_string(name))
            + ",\"notification\":"@ + json_text(told) + "}"@,
{
}

/// A service says which types it sends by a list of texts, and is taken at its word; anything else
/// says nothing.
pub proof fn law_advertised(info: Value, names: Seq<Seq<char>>)
    ensures
        advertised_in(info) == Some(names) ==> (member(info, "notifications"@) matches Some(m) && (
        json_view(m) matches JsonView::Array(items) && items.len() == names.len() && forall|i: int|
            0 <= i < items.len() ==> text_in(#[trigger] items[i]) == Some(names[i]))),
        (member(info, "notifications"@) matches Some(m) && (json_view(m) matches JsonView::Array(
            items,
        ) && items.len() == names.len() && forall|i: int|
            0 <= i < items.len() ==> text_in(#[trigger] items[i]) == Some(names[i])))
            ==> advertised_in(info) == Some(names),
{
    match member(info, "notifications"@) {
        Some(m) => match json_view(m) {
            JsonView::Array(items) => {
                let read = items.map_values(|v: Value| text_in(v)->0);
                if items.len() == names.len() && forall|i: int|
                    0 <= i < items.len() ==> text_in(#[trigger] items[i]) == Some(names[i]) {
                    assert(read =~= names);
                }
            },
            _ => {},
        },
        None => {},
    }
}

/// A type is warned of exactly if it is wanted and not among those that a service sends, in the
/// order in which the types are wanted.
pub proof fn law_warnings(a: Seq<Seq<char>>, b: Seq<Seq<char>>, name: Seq<char>, told: Seq<Seq<char>>)
    ensures
        warnings(Seq::empty(), told) == Seq::<Seq<char>>::empty(),
        warnings(a + b, told) == warnings(a, told) + warnings(b, told),
        told.contains(name) ==> warnings(seq![name], told) == Seq::<Seq<char>>::empty(),
        !told.contains(name) ==> warnings(seq![name], told) == seq![
            "warning: this node does not advertise "@ + name + " — it advertises "@ + joined(
                told,
                ", "@,
            ),
        ],
    decreases b.len(),
{
    let one = seq![name];
    assert(one.drop_last() =~= Seq::empty());
    assert(one.last() == name);
    reveal_with_fuel(warnings, 2);
    if b.len() == 0 {
        assert(a + b =~= a);
        assert(warnings(a, told) + warnings(b, told) =~= warnings(a, told));
    } else {
        assert((a + b).drop_last() =~= a + b.drop_last());
        assert((a + b).last() == b.last());
        law_warnings(a, b.drop_last(), name, told);
        assert(warnings(a + b, told) =~= warnings(a, told) + warnings(b, told));
    }
}

/// In a session that calls, of either protocol, an answer is always printed: compactly if that was
/// asked for, else indented. Then notifications are read where they were asked for, and else the
/// session succeeds.
pub proof fn law_answer_is_printed(s: Session, v: Value)
    requires
        s.stage == Stage::Calling,
    ensures
        s.json ==> s.move_after(Outcome::Called(Ok(v))).output == Some(json_text(v)),
        !s.json ==> s.move_after(Outcome::Called(Ok(v))).output == Some(json_pretty(v)),
        s.streams ==> s.move_after(Outcome::Called(Ok(v))).task is Read && s.stage_after(
            Outcome::Called(Ok(v)),
        ) == Stage::Reading && s.move_after(Outcome::Called(Ok(v))).lines == seq![
            "waiting for notifications — ^C to stop"@,
        ],
        !s.streams ==> s.move_after(Outcome::Called(Ok(v))).task is Succeed && s.stage_after(
            Outcome::Called(Ok(v)),
        ) == Stage::Over && s.move_after(Outcome::Called(Ok(v))).lines.len() == 0,
{
}

/// Whatever fails in a session ends it with the reason and with nothing printed.
pub proof fn law_failure_ends_a_session(s: Session, why: String)
    ensures
        forall|event: Outcome|
            s.stage == Stage::Opening && event == Outcome::Opened(Err(why)) || s.stage
                == Stage::Calling && event == Outcome::Called(Err(why)) || s.stage == Stage::Reading
                && event == Outcome::Ended(Err(why)) ==> (#[trigger] s.move_after(event)).task
                == Task::Fail(why) && s.move_after(event).output is None && s.move_after(
                event,
            ).lines.len() == 0 && s.stage_after(event) == Stage::Over,
{
}

/// Once subscribed, a session that has a method calls it and another reads; a person is told what
/// was subscribed to, but for a wallet's call, of which that was said before.
pub proof fn law_subscribed_session_goes_on(s: Session)
    requires
        s.stage == Stage::Opening,
    ensures
        ({
            let event = Outcome::Opened(Ok(()));
            let said = "subscribed to "@ + joined(texts(s.types@), ", "@);
            let turn = s.move_after(event);
            &&& turn.output is None
            &&& s.call is Some ==> turn.task is Call && s.stage_after(event) == Stage::Calling
            &&& s.call is Some && s.protocol == Protocol::Node ==> turn.lines == seq![said]
            &&& s.call is Some && s.protocol == Protocol::Wallet ==> turn.lines.len() == 0
            &&& s.call is None ==> turn.task is Read && s.stage_after(event) == Stage::Reading
                && turn.lines == seq![said, "waiting — ^C to stop"@]
        }),
{
}

/// A wallet that was asked what it is is subscribed to next, whatever it said, with a warning for
/// each type that is wanted and that it says it does not send.
pub proof fn law_asking_only_warns(s: Session, info: Option<Value>)
    requires
        s.stage == Stage::Asking,
    ensures
        s.stage_after(Outcome::Told(info)) == Stage::Opening,
        s.move_after(Outcome::Told(info)).task is Open,
        s.move_after(Outcome::Told(info)).output is None,
        info is None ==> s.move_after(Outcome::Told(info)).lines.len() == 0,
        info matches Some(v) ==> match advertised_in(v) {
            Some(told) => s.move_after(Outcome::Told(info)).lines == warnings(texts(s.types@), told),
            None => s.move_after(Outcome::Told(info)).lines.len() == 0,
        },
{
}

/// A session whose notifications end has succeeded, and one that is over does nothing more.
pub proof fn law_session_ends(s: Session, event: Outcome)
    ensures
        s.stage == Stage::Reading ==> s.move_after(Outcome::Ended(Ok(()))).task is Succeed
            && s.stage_after(Outcome::Ended(Ok(()))) == Stage::Over && s.move_after(
            Outcome::Ended(Ok(())),
        ).output is None,
        s.stage == Stage::Over ==> s.move_after(event).task is Rest && s.stage_after(event)
            == Stage::Over && s.move_after(event).output is None,
{
}

/// What does not belong to a stage leaves a session in it, prints and says nothing, and asks for
/// the same task again.
pub proof fn law_strays_change_nothing(s: Session, event: Outcome)
    requires
        match s.stage {
            Stage::Asking => !(event is Told),
            Stage::Opening => !(event is Opened),
            Stage::Calling => !(event is Called),
            Stage::Reading => !(event is Ended),
            Stage::Over => true,
        },
    ensures
        s.stage_after(event) == s.stage,
        s.move_after(event).output is None,
        s.move_after(event).lines.len() == 0,
        match s.stage {
            Stage::Asking => s.move_after(event).task is Ask,
            Stage::Opening => s.move_after(event).task is Open,
            Stage::Calling => s.move_after(event).task is Call,
            Stage::Reading => s.move_after(event).task is Read,
            Stage::Over => s.move_after(event).task is Rest,
        },
{
}

/// What a move and a command are seen as is all that they hold.
pub proof fn law_views_leave_nothing_out(m: Move, c: Command)
    ensures
        m.output matches Some(s) ==> m@.output == Some(s@),
        m.output is None ==> m@.output is None,
        m@.lines.len() == m.lines@.len(),
        forall|i: int| 0 <= i < m.lines@.len() ==> #[trigger] m@.lines[i] == m.lines@[i]@,
        m@.task == m.task,
        c is Usage ==> c@ is Usage,
        c matches Command::Methods(p) ==> c@ == CommandView::Methods(p),
        c matches Command::Call(p, method, params) ==> c@ == CommandView::Call(p, method@, params),
        c matches Command::Notify(p, types) ==> (c@ matches CommandView::Notify(q, names) && q == p
            && names.len() == types@.len() && forall|i: int|
            0 <= i < names.len() ==> #[trigger] names[i] == types@[i]@),
        maybe(m.output) is Some == m.output is Some,
{
}

/// A call that is begun is the one asked for, with its parameters as they were but for the opting in
/// of a node; with notifications it subscribes to all known types first, and without them it calls
/// at once.
pub proof fn law_call_is_begun(
    protocol: Protocol,
    method: String,
    params: Value,
    json: bool,
    notify: bool,
    s: Session,
    first: MoveView,
)
    requires
        begins_call(protocol, method, params, json, notify, s, first),
    ensures
        s.protocol == protocol,
        s.json == json,
        s.streams == notify,
        first.output is None,
        s.call matches Some((m, p)) && m == method && (!notify || protocol == Protocol::Wallet
            ==> p == params),
        notify && protocol == Protocol::Node ==> (s.call matches Some((_, p)) && opted_in(
            method@,
            params,
            p,
        )),
        notify ==> first.task is Open && s.stage == Stage::Opening,
        !notify ==> first.task is Call && s.stage == Stage::Calling && first.lines.len() == 0,
        protocol == Protocol::Wallet ==> texts(s.types@) == seq![
            "payment_received"@,
            "payment_sent"@,
            "hold_invoice_accepted"@,
        ],
        protocol == Protocol::Node ==> texts(s.types@) == seq!["channel_opened"@, "channel_closed"@],
        notify && protocol == Protocol::Wallet ==> first.lines == seq![
            "subscribed to "@ + joined(texts(s.types@), ", "@),
        ],
        notify && protocol == Protocol::Node ==> first.lines.len() == 0,
{
}

/// A call with notifications, run from its beginning, is made only after they were subscribed to.
pub proof fn law_begun_call_subscribes_first(
    protocol: Protocol,
    method: String,
    params: Value,
    json: bool,
    first: MoveView,
    states: Seq<Session>,
    events: Seq<Outcome>,
    n: int,
)
    requires
        is_run(states, events),
        begins_call(protocol, method, params, json, true, states[0], first),
        0 <= n < states.len(),
        states[n].stage == Stage::Calling,
    ensures
        exists|i: int|
            0 <= i < n && #[trigger] states[i].stage == Stage::Opening && (events[i] matches
                Outcome::Opened(r) && r is Ok),
{
    law_subscribes_before_calling(states, events, n);
}

/// The names asked for are the ones given, whichever they are, and all that are known where none is
/// given.
pub proof fn law_wanted_names(names: Seq<Seq<char>>, known: Seq<Seq<char>>)
    ensures
        names.len() > 0 ==> wanted(names, known) == names,
        wanted(Seq::empty(), known) == known,
{
}

/// A call that failed is said by its coded refusal where the service refused, and else by the words
/// of its error; an answer is printed compactly exactly if that was asked for.
pub proof fn law_complaints(
    a: crate::nwc::client::Error,
    b: crate::nnc::client::Error,
    v: Value,
)
    ensures
        a matches crate::nwc::client::Error::Refused(e) ==> wallet_complaint(a) == coded_line(e),
        !(a is Refused) ==> wallet_complaint(a) == a.words(),
        b matches crate::nnc::client::Error::Refused(e) ==> node_complaint(b) == coded_line(e),
        !(b is Refused) ==> node_complaint(b) == b.words(),
        printed(v, true) == json_text(v),
        printed(v, false) == json_pretty(v),
{
}

/// Notifications that are asked for by name are subscribed to by exactly these names, and without a
/// name by all that are known; no method is called, and a wallet alone is asked first what it is.
pub proof fn law_notifications_are_begun(
    protocol: Protocol,
    names: Seq<Seq<char>>,
    s: Session,
    first: MoveView,
)
    requires
        begins_notify(protocol, names, s, first),
    ensures
        s.protocol == protocol,
        s.call is None,
        s.streams,
        first.output is None,
        first.lines.len() == 0,
        names.len() > 0 ==> texts(s.types@) == names,
        names.len() == 0 && protocol == Protocol::Wallet ==> texts(s.types@) == seq![
            "payment_received"@,
            "payment_sent"@,
            "hold_invoice_accepted"@,
        ],
        names.len() == 0 && protocol == Protocol::Node ==> texts(s.types@) == seq![
            "channel_opened"@,
            "channel_closed"@,
        ],
        protocol == Protocol::Wallet ==> first.task is Ask && s.stage == Stage::Asking,
        protocol == Protocol::Node ==> first.task is Open && s.stage == Stage::Opening,
{
}

} // verus!
