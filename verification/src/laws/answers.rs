//! What an answer means: a refusal, a result, or malformed JSON.
use vstd::prelude::*;
use vstd::string::*;
use serde_json::Value;
use crate::json::{json_error_text, json_parse, json_view, member, text_in};
use crate::nnc;
use crate::nnc::{ErrorCode, NncError, Notification, NotificationType, Response};
use crate::nwc;
use crate::nwc::{WalletNotification, WalletNotificationType};

verus! {

/// A code stands for what the service wrote: the three known ones for their names, and any other
/// for itself.
pub proof fn law_code_is_the_one_written(code: ErrorCode, s: Seq<char>)
    requires
        code.reads(s),
    ensures
        s == "UNAUTHORIZED"@ ==> code is Unauthorized,
        s == "RESTRICTED"@ ==> code is Restricted,
        s == "NOT_IMPLEMENTED"@ ==> code is NotImplemented,
        s != "UNAUTHORIZED"@ && s != "RESTRICTED"@ && s != "NOT_IMPLEMENTED"@ ==> (code matches
            ErrorCode::Unknown(t) && t@ == s),
        code.wire() == s,
{
    reveal_strlit("UNAUTHORIZED");
    reveal_strlit("RESTRICTED");
    reveal_strlit("NOT_IMPLEMENTED");
    assert("UNAUTHORIZED"@.len() == 12 && "RESTRICTED"@.len() == 10);
    assert("NOT_IMPLEMENTED"@.len() == 15);
}

/// Two codes that are written alike are read alike, and two that are written differently never
/// are.
pub proof fn law_codes_are_told_apart(a: ErrorCode, s: Seq<char>, b: ErrorCode, t: Seq<char>)
    requires
        a.reads(s),
        b.reads(t),
    ensures
        (a.wire() == b.wire()) == (s == t),
        s == t ==> a.name() == b.name(),
{
    law_code_is_the_one_written(a, s);
    law_code_is_the_one_written(b, t);
}

/// A refusal says its code, a colon and its message, and holds nothing else.
pub proof fn law_refusal_line(e: NncError)
    ensures
        e.line() == e.code.wire() + ": "@ + e.message@,
        e.code is Unauthorized ==> e.code.wire() == "UNAUTHORIZED"@ && e.code.name()
            == "Unauthorized"@,
        e.code is Restricted ==> e.code.wire() == "RESTRICTED"@ && e.code.name() == "Restricted"@,
        e.code is NotImplemented ==> e.code.wire() == "NOT_IMPLEMENTED"@ && e.code.name()
            == "NotImplemented"@,
{
}

/// An answer of a wallet whose error is there, is not null and holds a code and a message is a
/// refusal with that code and that message, whatever else the answer holds.
pub proof fn law_wallet_error_is_a_refusal(
    plain: Seq<char>,
    v: Value,
    error: Value,
    code: Value,
    message: Value,
    out: Result<Value, nwc::client::Error>,
)
    requires
        json_parse(plain) == Ok::<Value, Seq<char>>(v),
        member(v, "error"@) == Some(error),
        !(json_view(error) is Null),
        member(error, "code"@) == Some(code),
        text_in(code) is Some,
        member(error, "message"@) == Some(message),
        text_in(message) is Some,
        nwc::client::says(plain, out),
    ensures
        out matches Err(nwc::client::Error::Refused(e)) && Some(e.code.wire()) == text_in(code)
            && Some(e.message@) == text_in(message),
{
}

/// An answer of a wallet without an error, or with a null one, gives its result as it is, and null
/// where there is none, whatever else the answer holds.
pub proof fn law_wallet_result_is_given(
    plain: Seq<char>,
    v: Value,
    out: Result<Value, nwc::client::Error>,
)
    requires
        json_parse(plain) == Ok::<Value, Seq<char>>(v),
        member(v, "error"@) matches Some(error) ==> json_view(error) is Null,
        nwc::client::says(plain, out),
    ensures
        member(v, "result"@) matches Some(result) ==> out == Ok::<Value, nwc::client::Error>(
            result,
        ),
        member(v, "result"@) is None ==> (out matches Ok(result) && json_view(result) is Null),
{
}

/// An answer of a wallet that is no JSON, or whose error is there but holds no code or no message,
/// is malformed, and never a success nor a refusal.
pub proof fn law_wallet_malformed_answer(
    plain: Seq<char>,
    out: Result<Value, nwc::client::Error>,
)
    requires
        nwc::client::says(plain, out),
    ensures
        json_parse(plain) matches Err(text) ==> (out matches Err(nwc::client::Error::Json(e))
            && json_error_text(e) == text),
        json_parse(plain) matches Ok(v) ==> (member(v, "error"@) matches Some(error) ==> (!(
        json_view(error) is Null) && (member(error, "code"@) is None || member(error, "message"@)
            is None || text_in(member(error, "code"@)->0) is None || text_in(
            member(error, "message"@)->0,
        ) is None) ==> out matches Err(nwc::client::Error::Json(_)))),
{
}

/// An answer of a node whose error is there, is not null and holds a code and a message is read as
/// a refusal with that code and that message, whatever else the answer holds.
pub proof fn law_node_error_is_a_refusal(
    plain: Seq<char>,
    v: Value,
    error: Value,
    code: Value,
    message: Value,
    out: Result<Response, nnc::client::Error>,
)
    requires
        json_parse(plain) == Ok::<Value, Seq<char>>(v),
        member(v, "error"@) == Some(error),
        !(json_view(error) is Null),
        member(error, "code"@) == Some(code),
        text_in(code) is Some,
        member(error, "message"@) == Some(message),
        text_in(message) is Some,
        nnc::client::answers(plain, out),
    ensures
        out matches Ok(response) && (response.error matches Some(e) && Some(e.code.wire())
            == text_in(code) && Some(e.message@) == text_in(message)),
{
}

/// An answer of a node without an error, or with a null one, is read with its result as it is, and
/// without one where it is absent or null, whatever else the answer holds.
pub proof fn law_node_result_is_given(
    plain: Seq<char>,
    v: Value,
    out: Result<Response, nnc::client::Error>,
)
    requires
        json_parse(plain) == Ok::<Value, Seq<char>>(v),
        json_view(v) is Object,
        member(v, "error"@) matches Some(error) ==> json_view(error) is Null,
        nnc::client::answers(plain, out),
    ensures
        out matches Ok(response) && response.error is None && (member(v, "result"@) matches Some(
            result,
        ) ==> response.result == if json_view(result) is Null {
            None
        } else {
            Some(result)
        }) && (member(v, "result"@) is None ==> response.result is None),
{
}

/// An answer of a node that is no JSON, is no object, or whose error is there but holds no code or
/// no message, is malformed.
pub proof fn law_node_malformed_answer(
    plain: Seq<char>,
    out: Result<Response, nnc::client::Error>,
)
    requires
        nnc::client::answers(plain, out),
    ensures
        json_parse(plain) matches Err(text) ==> (out matches Err(nnc::client::Error::Json(e))
            && json_error_text(e) == text),
        json_parse(plain) matches Ok(v) ==> (!(json_view(v) is Object) ==> out matches Err(
            nnc::client::Error::Json(_),
        )),
        json_parse(plain) matches Ok(v) ==> (member(v, "error"@) matches Some(error) ==> (!(
        json_view(error) is Null) && (member(error, "code"@) is None || member(error, "message"@)
            is None || text_in(member(error, "code"@)->0) is None || text_in(
            member(error, "message"@)->0,
        ) is None) ==> out matches Err(nnc::client::Error::Json(_)))),
{
}

/// Whatever an answer of a node is, its refusal and its result do not depend on members of other
/// names: two answers with the same error and the same result are read alike.
pub proof fn law_other_members_do_not_matter(
    a: Seq<char>,
    v: Value,
    x: Result<Response, nnc::client::Error>,
    b: Seq<char>,
    w: Value,
    y: Result<Response, nnc::client::Error>,
)
    requires
        json_parse(a) == Ok::<Value, Seq<char>>(v),
        json_parse(b) == Ok::<Value, Seq<char>>(w),
        json_view(v) is Object,
        json_view(w) is Object,
        member(v, "error"@) == member(w, "error"@),
        member(v, "result"@) == member(w, "result"@),
        nnc::client::answers(a, x),
        nnc::client::answers(b, y),
    ensures
        x is Ok == y is Ok,
        x matches Ok(p) ==> (y matches Ok(q) && p.result == q.result && (p.error is Some)
            == (q.error is Some)),
        x matches Ok(p) ==> (y matches Ok(q) && (p.error matches Some(e) ==> (q.error matches Some(
            f,
        ) && e.code.wire() == f.code.wire() && e.message@ == f.message@))),
{
}

/// A type of wallet notification stands for the name it was read from: the three known ones for
/// theirs, and any other for itself.
pub proof fn law_wallet_type_is_the_one_named(t: WalletNotificationType, s: Seq<char>)
    requires
        t.reads(s),
    ensures
        s == "payment_received"@ ==> t is PaymentReceived,
        s == "payment_sent"@ ==> t is PaymentSent,
        s == "hold_invoice_accepted"@ ==> t is HoldInvoiceAccepted,
        s != "payment_received"@ && s != "payment_sent"@ && s != "hold_invoice_accepted"@ ==> (
        t matches WalletNotificationType::Unknown(u) && u@ == s),
        t.name() == s,
{
    reveal_strlit("payment_received");
    reveal_strlit("payment_sent");
    reveal_strlit("hold_invoice_accepted");
    assert("payment_received"@.len() == 16 && "payment_sent"@.len() == 12);
    assert("hold_invoice_accepted"@.len() == 21);
}

/// Two types of wallet notification are the same exactly where their names were.
pub proof fn law_wallet_types_are_told_apart(
    a: WalletNotificationType,
    s: Seq<char>,
    b: WalletNotificationType,
    t: Seq<char>,
)
    requires
        a.reads(s),
        b.reads(t),
    ensures
        a.is_type(&b) == (s == t),
{
    law_wallet_type_is_the_one_named(a, s);
    law_wallet_type_is_the_one_named(b, t);
}

/// A type of node notification stands for the name it was read from.
pub proof fn law_node_type_is_the_one_named(t: NotificationType, s: Seq<char>)
    requires
        t.reads(s),
    ensures
        s == "channel_opened"@ ==> t is ChannelOpened,
        s == "channel_closed"@ ==> t is ChannelClosed,
        s != "channel_opened"@ && s != "channel_closed"@ ==> (t matches NotificationType::Unknown(u)
            && u@ == s),
        t.name() == s,
{
    reveal_strlit("channel_opened");
    reveal_strlit("channel_closed");
    assert("channel_opened"@[8] == 'o' && "channel_closed"@[8] == 'c');
}

/// The types that are known are these, each once.
pub proof fn law_known_types()
    ensures
        WalletNotificationType::known() == seq![
            "payment_received"@,
            "payment_sent"@,
            "hold_invoice_accepted"@,
        ],
        NotificationType::known() == seq!["channel_opened"@, "channel_closed"@],
{
}

/// The names of types are the name of each, in order.
pub proof fn law_names_of_types(
    wallet: Seq<WalletNotificationType>,
    node: Seq<NotificationType>,
    i: int,
)
    ensures
        nwc::wallet_names(wallet).len() == wallet.len(),
        0 <= i < wallet.len() ==> nwc::wallet_names(wallet)[i] == wallet[i].name(),
        nnc::node_names(node).len() == node.len(),
        0 <= i < node.len() ==> nnc::node_names(node)[i] == node[i].name(),
{
}

/// A plain text that names a type and tells something is that notification of a wallet, whatever
/// else it holds; any other is passed over.
pub proof fn law_wallet_notification_is_told(plain: Seq<char>, out: nwc::client::Listened)
    requires
        nwc::client::tells(plain, out),
    ensures
        !(out is End),
        json_parse(plain) is Err ==> out is Again,
        json_parse(plain) matches Ok(v) ==> match (
            member(v, "notification_type"@),
            member(v, "notification"@),
        ) {
            (Some(name), Some(told)) => match text_in(name) {
                Some(s) => out matches nwc::client::Listened::Got(n) && n.notification_type.reads(s)
                    && n.notification == told,
                None => out is Again,
            },
            _ => out is Again,
        },
{
}

/// A plain text that names a type and tells something is that notification of a node, whatever
/// else it holds; any other is none.
pub proof fn law_node_notification_is_told(plain: Seq<char>, out: Option<Notification>)
    requires
        nnc::client::tells(plain, out),
    ensures
        json_parse(plain) is Err ==> out is None,
        json_parse(plain) matches Ok(v) ==> match (
            member(v, "notification_type"@),
            member(v, "notification"@),
        ) {
            (Some(name), Some(told)) => match text_in(name) {
                Some(s) => out matches Some(n) && n.notification_type.reads(s) && n.notification
                    == told,
                None => out is None,
            },
            _ => out is None,
        },
{
}

/// A tree is read as a notification of a wallet exactly where it names a type and tells something.
pub proof fn law_wallet_notification_is_read(n: WalletNotification, v: Value)
    ensures
        n.reads(v) ==> WalletNotification::written(v),
        WalletNotification::written(v) == (match member(v, "notification_type"@) {
            Some(name) => text_in(name) is Some,
            None => false,
        } && member(v, "notification"@) is Some),
{
}

/// An error that is an object without a code, or with a code and without a message, is said to miss
/// that member, by a wallet and by a node alike.
pub proof fn law_missing_member_is_named(
    plain: Seq<char>,
    v: Value,
    error: Value,
    a: Result<Value, nwc::client::Error>,
    b: Result<Response, nnc::client::Error>,
)
    requires
        json_parse(plain) == Ok::<Value, Seq<char>>(v),
        member(v, "error"@) == Some(error),
        json_view(error) is Object,
        nwc::client::says(plain, a),
        nnc::client::answers(plain, b),
    ensures
        member(error, "code"@) is None ==> {
            &&& a matches Err(nwc::client::Error::Json(e)) && json_error_text(e)
                == "missing field `code`"@
            &&& b matches Err(nnc::client::Error::Json(e)) && json_error_text(e)
                == "missing field `code`"@
        },
        member(error, "code"@) matches Some(code) ==> (text_in(code) is Some && member(
            error,
            "message"@,
        ) is None ==> {
            &&& a matches Err(nwc::client::Error::Json(e)) && json_error_text(e)
                == "missing field `message`"@
            &&& b matches Err(nnc::client::Error::Json(e)) && json_error_text(e)
                == "missing field `message`"@
        }),
{
}

/// A wallet's refusal and a node's are read from the same errors: what one refuses with, so does
/// the other.
pub proof fn law_both_refuse_alike(
    plain: Seq<char>,
    a: Result<Value, nwc::client::Error>,
    b: Result<Response, nnc::client::Error>,
)
    requires
        nwc::client::says(plain, a),
        nnc::client::answers(plain, b),
    ensures
        a matches Err(nwc::client::Error::Refused(e)) ==> (b matches Ok(r) ==> (r.error matches
            Some(f) && e.code.wire() == f.code.wire() && e.message@ == f.message@)),
        b matches Ok(r) ==> (r.error matches Some(f) ==> (a matches Err(
            nwc::client::Error::Refused(e),
        ) && e.code.wire() == f.code.wire() && e.message@ == f.message@)),
        b matches Ok(r) ==> (r.error is None ==> (a matches Ok(v) && (r.result matches Some(w)
            ==> v == w) && (r.result is None ==> json_view(v) is Null))),
{
}

} // verus!
