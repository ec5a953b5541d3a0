//! Wallet connect: the notifications of a wallet service.
use vstd::prelude::*;
use vstd::string::*;
use serde_json::Value;
use crate::json;
use crate::json::member;
use crate::nnc::{member_text, read_text};
use crate::text::{same, texts};

pub mod client;

verus! {

/// What a wallet tells a client of, unasked.
#[derive(Clone, Debug)]
pub enum WalletNotificationType {
    /// A payment came in.
    PaymentReceived,
    /// A payment went out.
    PaymentSent,
    /// A payer has locked a payment in.
    HoldInvoiceAccepted,
    /// A type that is not known here, as it was named.
    Unknown(String),
}

impl WalletNotificationType {
    /// The name of the type.
    pub open spec fn name(&self) -> Seq<char> {
        match self {
            WalletNotificationType::PaymentReceived => "payment_received"@,
            WalletNotificationType::PaymentSent => "payment_sent"@,
            WalletNotificationType::HoldInvoiceAccepted => "hold_invoice_accepted"@,
            WalletNotificationType::Unknown(s) => s@,
        }
    }

    /// Whether a type is the one that a name stands for.
    pub open spec fn reads(&self, s: Seq<char>) -> bool {
        &&& self.name() == s
        &&& (*self is Unknown) == (s != "payment_received"@ && s != "payment_sent"@ && s
            != "hold_invoice_accepted"@)
    }

    /// Whether two types are the same type.
    pub open spec fn is_type(&self, other: &WalletNotificationType) -> bool {
        (*self is Unknown) == (*other is Unknown) && self.name() == other.name()
    }

    /// The types that are known, by name.
    pub open spec fn known() -> Seq<Seq<char>> {
        seq!["payment_received"@, "payment_sent"@, "hold_invoice_accepted"@]
    }

    /// The type of a name. A name that is not known stays as it is.
    pub fn named(s: &str) -> (r: WalletNotificationType)
        ensures
            r.reads(s@),
    {
        if same(s, "payment_received") {
            WalletNotificationType::PaymentReceived
        } else if same(s, "payment_sent") {
            WalletNotificationType::PaymentSent
        } else if same(s, "hold_invoice_accepted") {
            WalletNotificationType::HoldInvoiceAccepted
        } else {
            WalletNotificationType::Unknown(s.to_owned())
        }
    }

    /// The types that are known.
    pub fn all() -> (r: Vec<WalletNotificationType>)
        ensures
            wallet_names(r@) == WalletNotificationType::known(),
            forall|i: int| 0 <= i < r@.len() ==> (#[trigger] r@[i]).reads(r@[i].name()),
    {
        let out: Vec<WalletNotificationType> = vec![
            WalletNotificationType::named("payment_received"),
            WalletNotificationType::named("payment_sent"),
            WalletNotificationType::named("hold_invoice_accepted"),
        ];
        assert(wallet_names(out@) =~= WalletNotificationType::known());
        out
    }

    /// The name of the type.
    pub fn as_str(&self) -> (r: &str)
        ensures
            r@ == self.name(),
    {
        match self {
            WalletNotificationType::PaymentReceived => "payment_received",
            WalletNotificationType::PaymentSent => "payment_sent",
            WalletNotificationType::HoldInvoiceAccepted => "hold_invoice_accepted",
            WalletNotificationType::Unknown(s) => s.as_str(),
        }
    }

    /// Tells whether the type is not known here.
    fn is_unknown(&self) -> (r: bool)
        ensures
            r == (*self is Unknown),
    {
        matches!(self, WalletNotificationType::Unknown(_))
    }

    /// Tells whether two types are the same type.
    pub fn same(&self, other: &WalletNotificationType) -> (r: bool)
        ensures
            r == self.is_type(other),
    {
        self.is_unknown() == other.is_unknown() && same(self.as_str(), other.as_str())
    }
}

/// The names of types.
pub open spec fn wallet_names(types: Seq<WalletNotificationType>) -> Seq<Seq<char>> {
    types.map_values(|t: WalletNotificationType| t.name())
}

/// A notification of a wallet.
pub struct WalletNotification {
    /// Its type.
    pub notification_type: WalletNotificationType,
    /// What it tells.
    pub notification: Value,
}

impl WalletNotification {
    /// Whether a notification is the one that a JSON tree writes.
    pub open spec fn reads(&self, v: Value) -> bool {
        match (member_text(v, "notification_type"@), member(v, "notification"@)) {
            (Some(name), Some(told)) => self.notification_type.reads(name) && self.notification
                == told,
            _ => false,
        }
    }

    /// Whether a JSON tree writes a notification: it names a type and tells something.
    pub open spec fn written(v: Value) -> bool {
        member_text(v, "notification_type"@) is Some && member(v, "notification"@) is Some
    }

    /// Reads a notification from a JSON tree, where it writes one.
    pub fn read(v: &Value) -> (r: Option<WalletNotification>)
        ensures
            match r {
                Some(n) => n.reads(*v),
                None => !WalletNotification::written(*v),
            },
    {
        match (read_text(v, "notification_type"), json::get(v, "notification")) {
            (Ok(name), Some(told)) => Some(
                WalletNotification {
                    notification_type: WalletNotificationType::named(name.as_str()),
                    notification: json::duplicate(told),
                },
            ),
            _ => None,
        }
    }
}

/// The names of types, each as it goes out.
pub fn type_names(types: &Vec<WalletNotificationType>) -> (r: Vec<String>)
    ensures
        texts(r@) == wallet_names(types@),
{
    let mut out: Vec<String> = Vec::new();
    let mut i: usize = 0;
    while i < types.len()
        invariant
            i <= types@.len(),
            out@.len() == i,
            forall|j: int| 0 <= j < i ==> (#[trigger] out@[j])@ == types@[j].name(),
        decreases types.len() - i,
    {
        out.push(types[i].as_str().to_owned());
        i += 1;
    }
    assert(texts(out@) =~= wallet_names(types@));
    out
}

} // verus!
