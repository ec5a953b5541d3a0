//! The client side of two protocols that reach a Lightning node over Nostr: wallet connect, whose
//! URI is a credential, and node control, where the client signs with its own key.
use vstd::prelude::*;

pub mod ctrl;
pub mod event;
pub mod json;
pub mod keys;
pub mod laws;
pub mod link;
pub mod nnc;
pub mod nwc;
pub mod request;
pub mod text;
pub mod time;
pub mod uri;

verus! {

/// Kind of a subscription.
pub const SUBSCRIPTION_KIND: u16 = 30199;

} // verus!
