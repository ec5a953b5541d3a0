//! Node control: the errors, answers and notifications of a node service.
use vstd::prelude::*;
use vstd::string::*;
use serde_json::Value;
use crate::json;
use crate::json::{json_error_text, json_view, member, text_in};
use crate::text::{concat3, quoted, same, text_debug, texts};

pub mod client;
pub mod uri;

verus! {

/// Why a service refused a request.
#[derive(Clone, Debug)]
pub enum ErrorCode {
    /// No grant names the client.
    Unauthorized,
    /// The grant does not permit the method.
    Restricted,
    /// The service does not serve the method.
    NotImplemented,
    /// A code that is not known here, as the service wrote it.
    Unknown(String),
}

impl ErrorCode {
    /// The code as a service writes it.
    pub open spec fn wire(&self) -> Seq<char> {
        match self {
            ErrorCode::Unauthorized => "UNAUTHORIZED"@,
            ErrorCode::Restricted => "RESTRICTED"@,
            ErrorCode::NotImplemented => "NOT_IMPLEMENTED"@,
            ErrorCode::Unknown(s) => s@,
        }
    }

    /// The code as a person reads it.
    pub open spec fn name(&self) -> Seq<char> {
        match self {
            ErrorCode::Unauthorized => "Unauthorized"@,
            ErrorCode::Restricted => "Restricted"@,
            ErrorCode::NotImplemented => "NotImplemented"@,
            ErrorCode::Unknown(s) => "Unknown("@ + text_debug(s@) + ")"@,
        }
    }

    /// Whether a code is the one that a written code stands for.
    pub open spec fn reads(&self, s: Seq<char>) -> bool {
        &&& self.wire() == s
        &&& (*self is Unknown) == (s != "UNAUTHORIZED"@ && s != "RESTRICTED"@ && s
            != "NOT_IMPLEMENTED"@)
    }

    /// Reads a code as a service writes it.
    pub fn read(s: &str) -> (r: ErrorCode)
        ensures
            r.reads(s@),
    {
        if same(s, "UNAUTHORIZED") {
            ErrorCode::Unauthorized
        } else if same(s, "RESTRICTED") {
            ErrorCode::Restricted
        } else if same(s, "NOT_IMPLEMENTED") {
            ErrorCode::NotImplemented
        } else {
            ErrorCode::Unknown(s.to_owned())
        }
    }

    /// The code as a service writes it.
    pub fn as_str(&self) -> (r: &str)
        ensures
            r@ == self.wire(),
    {
        match self {
            ErrorCode::Unauthorized => "UNAUTHORIZED",
            ErrorCode::Restricted => "RESTRICTED",
            ErrorCode::NotImplemented => "NOT_IMPLEMENTED",
            ErrorCode::Unknown(s) => s.as_str(),
        }
    }

    /// The code as a person reads it.
    pub fn label(&self) -> (r: String)
        ensures
            r@ == self.name(),
    {
        match self {
            ErrorCode::Unauthorized => "Unauthorized".to_owned(),
            ErrorCode::Restricted => "Restricted".to_owned(),
            ErrorCode::NotImplemented => "NotImplemented".to_owned(),
            ErrorCode::Unknown(s) => concat3("Unknown(", quoted(s.as_str()).as_str(), ")"),
        }
    }
}

/// A refusal: a code and what the service says of it.
#[derive(Clone, Debug)]
pub struct NncError {
    /// The code.
    pub code: ErrorCode,
    /// What the service says.
    pub message: String,
}

impl NncError {
    /// The refusal as one line.
    pub open spec fn line(&self) -> Seq<char> {
        self.code.wire() + ": "@ + self.message@
    }

    /// The refusal as one line.
    pub fn to_text(&self) -> (r: String)
        ensures
            r@ == self.line(),
    {
        concat3(self.code.as_str(), ": ", self.message.as_str())
    }

    /// Whether a refusal is the one that a JSON tree writes.
    pub open spec fn reads(&self, v: Value) -> bool {
        match error_texts(v) {
            Some((code, message)) => self.code.reads(code) && self.message@ == message,
            None => false,
        }
    }

    /// Reads a refusal from a JSON tree: an object with a code and a message, both strings.
    pub fn read(v: &Value) -> (r: Result<NncError, serde_json::Error>)
        ensures
            match r {
                Ok(e) => e.reads(*v),
                Err(e) => error_texts(*v) is None && names_flaw(*v, e),
            },
    {
        proof {
            reveal_strlit("missing field `");
            reveal_strlit("code");
            reveal_strlit("message");
            reveal_strlit("`");
            reveal_strlit("missing field `code`");
            reveal_strlit("missing field `message`");
            assert("missing field `"@ + "code"@ + "`"@ =~= "missing field `code`"@);
            assert("missing field `"@ + "message"@ + "`"@ =~= "missing field `message`"@);
        }
        let v: Value = match json::object_of(json::duplicate(v)) {
            Ok(o) => o,
            Err(e) => return Err(e),
        };
        let code: String = match read_text(&v, "code") {
            Ok(s) => s,
            Err(e) => return Err(e),
        };
        let message: String = match read_text(&v, "message") {
            Ok(s) => s,
            Err(e) => return Err(e),
        };
        Ok(NncError { code: ErrorCode::read(code.as_str()), message })
    }
}

/// The text of a member that is a string.
pub open spec fn member_text(v: Value, key: Seq<char>) -> Option<Seq<char>> {
    match member(v, key) {
        Some(m) => text_in(m),
        None => None,
    }
}

/// The code and the message of a refusal that a JSON tree writes.
pub open spec fn error_texts(v: Value) -> Option<(Seq<char>, Seq<char>)> {
    match (member_text(v, "code"@), member_text(v, "message"@)) {
        (Some(code), Some(message)) => Some((code, message)),
        _ => None,
    }
}

/// What is said of an object that writes no refusal because a member is missing, the code first.
pub open spec fn missing_member(v: Value) -> Option<Seq<char>> {
    if !(json_view(v) is Object) {
        None
    } else if member(v, "code"@) is None {
        Some("missing field `code`"@)
    } else if member_text(v, "code"@) is Some && member(v, "message"@) is None {
        Some("missing field `message`"@)
    } else {
        None
    }
}

/// Whether an error names the member that a refusal misses, where it misses one. What is said of
/// a tree of another form is left to `serde_json`.
pub open spec fn names_flaw(v: Value, e: serde_json::Error) -> bool {
    missing_member(v) matches Some(text) ==> json_error_text(e) == text
}

/// Reads the text of a member that has to be a string.
pub(crate) fn read_text(v: &Value, key: &'static str) -> (r: Result<String, serde_json::Error>)
    ensures
        match r {
            Ok(s) => member_text(*v, key@) == Some(s@),
            Err(e) => member_text(*v, key@) is None && (member(*v, key@) is None
                ==> json_error_text(e) == "missing field `"@ + key@ + "`"@),
        },
{
    match json::get(v, key) {
        Some(m) => json::string_of(json::duplicate(m)),
        None => Err(json::missing_field(key)),
    }
}

/// A member that is there and is not null.
pub open spec fn present(v: Value, key: Seq<char>) -> Option<Value> {
    match member(v, key) {
        Some(m) => if json_view(m) is Null {
            None
        } else {
            Some(m)
        },
        None => None,
    }
}

/// Finds a member that is there and is not null.
pub(crate) fn find_present<'a>(v: &'a Value, key: &str) -> (r: Option<&'a Value>)
    ensures
        match r {
            Some(m) => present(*v, key@) == Some(*m),
            None => present(*v, key@) is None,
        },
{
    match json::get(v, key) {
        Some(m) => if json::is_null(m) {
            None
        } else {
            Some(m)
        },
        None => None,
    }
}

/// Why a result is not of the type that its method promises.
#[derive(Clone, Debug)]
pub struct ResultError {
    /// What was wrong with it.
    pub text: String,
}

/// The answer of a node service.
pub struct Response {
    /// The refusal, if the service refused.
    pub error: Option<NncError>,
    /// The result, if there is one.
    pub result: Option<Value>,
}

impl Response {
    /// Whether a response is the one that a JSON tree writes.
    pub open spec fn reads(&self, v: Value) -> bool {
        &&& json_view(v) is Object
        &&& match (self.error, present(v, "error"@)) {
            (Some(e), Some(m)) => e.reads(m),
            (None, None) => true,
            _ => false,
        }
        &&& self.result == present(v, "result"@)
    }

    /// Whether a JSON tree writes a response.
    pub open spec fn written(v: Value) -> bool {
        json_view(v) is Object && match present(v, "error"@) {
            Some(m) => error_texts(m) is Some,
            None => true,
        }
    }

    /// Whether an error names the member that the refusal of a response misses, where it misses
    /// one.
    pub open spec fn names_flaw(v: Value, e: serde_json::Error) -> bool {
        present(v, "error"@) matches Some(m) ==> names_flaw(m, e)
    }

    /// Reads a response from a JSON tree. A null member counts as absent.
    pub fn read(v: Value) -> (r: Result<Response, serde_json::Error>)
        ensures
            match r {
                Ok(response) => response.reads(v),
                Err(e) => !Response::written(v) && Response::names_flaw(v, e),
            },
    {
        let v: Value = match json::object_of(v) {
            Ok(o) => o,
            Err(e) => return Err(e),
        };
        let error: Option<NncError> = match find_present(&v, "error") {
            Some(m) => match NncError::read(m) {
                Ok(e) => Some(e),
                Err(e) => return Err(e),
            },
            None => None,
        };
        let result: Option<Value> = match find_present(&v, "result") {
            Some(m) => Some(json::duplicate(m)),
            None => None,
        };
        Ok(Response { error, result })
    }
}

/// What a node tells a controller of, unasked.
#[derive(Clone, Debug)]
pub enum NotificationType {
    /// A channel was opened.
    ChannelOpened,
    /// A channel was closed.
    ChannelClosed,
    /// A type that is not known here, as it was named.
    Unknown(String),
}

impl NotificationType {
    /// The name of the type.
    pub open spec fn name(&self) -> Seq<char> {
        match self {
            NotificationType::ChannelOpened => "channel_opened"@,
            NotificationType::ChannelClosed => "channel_closed"@,
            NotificationType::Unknown(s) => s@,
        }
    }

    /// Whether a type is the one that a name stands for.
    pub open spec fn reads(&self, s: Seq<char>) -> bool {
        &&& self.name() == s
        &&& (*self is Unknown) == (s != "channel_opened"@ && s != "channel_closed"@)
    }

    /// The types that are known, by name.
    pub open spec fn known() -> Seq<Seq<char>> {
        seq!["channel_opened"@, "channel_closed"@]
    }

    /// The type of a name. A name that is not known stays as it is.
    pub fn named(s: &str) -> (r: NotificationType)
        ensures
            r.reads(s@),
    {
        if same(s, "channel_opened") {
            NotificationType::ChannelOpened
        } else if same(s, "channel_closed") {
            NotificationType::ChannelClosed
        } else {
            NotificationType::Unknown(s.to_owned())
        }
    }

    /// The types that are known.
    pub fn all() -> (r: Vec<NotificationType>)
        ensures
            node_names(r@) == NotificationType::known(),
            forall|i: int| 0 <= i < r@.len() ==> (#[trigger] r@[i]).reads(r@[i].name()),
    {
        let out: Vec<NotificationType> = vec![
            NotificationType::named("channel_opened"),
            NotificationType::named("channel_closed"),
        ];
        assert(node_names(out@) =~= NotificationType::known());
        out
    }

    /// The name of the type.
    pub fn as_str(&self) -> (r: &str)
        ensures
            r@ == self.name(),
    {
        match self {
            NotificationType::ChannelOpened => "channel_opened",
            NotificationType::ChannelClosed => "channel_closed",
            NotificationType::Unknown(s) => s.as_str(),
        }
    }
}

/// The names of types.
pub open spec fn node_names(types: Seq<NotificationType>) -> Seq<Seq<char>> {
    types.map_values(|t: NotificationType| t.name())
}

/// The names of types, each as it goes out.
pub fn type_names(types: &Vec<NotificationType>) -> (r: Vec<String>)
    ensures
        texts(r@) == node_names(types@),
{
    let mut out: Vec<String> = Vec::new();
    let mut i: usize = 0;
    while i < types.len()
        invariant
            i <= types@.len(),
            out@.len() == i,
            forall|j: int| 0 <= j < i ==> (#[trigger] out@[j])@ == types@[j].name(),
        decreases types.len() - i,
    {
        out.push(types[i].as_str().to_owned());
        i += 1;
    }
    assert(texts(out@) =~= node_names(types@));
    out
}

/// A notification of a node.
pub struct Notification {
    /// Its type.
    pub notification_type: NotificationType,
    /// What it tells.
    pub notification: Value,
}

impl Notification {
    /// Whether a notification is the one that a JSON tree writes.
    pub open spec fn reads(&self, v: Value) -> bool {
        match (member_text(v, "notification_type"@), member(v, "notification"@)) {
            (Some(name), Some(told)) => self.notification_type.reads(name) && self.notification
                == told,
            _ => false,
        }
    }

    /// Whether a JSON tree writes a notification: it names a type and tells something.
    pub open spec fn written(v: Value) -> bool {
        member_text(v, "notification_type"@) is Some && member(v, "notification"@) is Some
    }

    /// Reads a notification from a JSON tree, where it writes one.
    pub fn read(v: &Value) -> (r: Option<Notification>)
        ensures
            match r {
                Some(n) => n.reads(*v),
                None => !Notification::written(*v),
            },
    {
        match (read_text(v, "notification_type"), json::get(v, "notification")) {
            (Ok(name), Some(told)) => Some(
                Notification {
                    notification_type: NotificationType::named(name.as_str()),
                    notification: json::duplicate(told),
                },
            ),
            _ => None,
        }
    }
}

} // verus!
