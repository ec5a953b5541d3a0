//! Where a node service is. Such a URI says who and where, and is no credential.
use vstd::prelude::*;
use vstd::string::*;
use crate::keys;
use crate::keys::{public_key_in, PublicKey};
use crate::text::texts;
use crate::uri::{split_uri, uri_parts};

verus! {

/// The scheme of a node service's URI.
pub const SCHEME: &'static str = "nostr+nodecontrol://";

/// Where a node service is.
#[derive(Clone, Debug)]
pub struct NodeControlUri {
    /// The node service's public key.
    pub service: PublicKey,
    /// Where it listens.
    pub relays: Vec<String>,
}

/// What a node service's URI holds.
pub struct NodeControlUriView {
    /// The bytes of the node service's public key.
    pub service: Seq<u8>,
    /// The relays, in order.
    pub relays: Seq<Seq<char>>,
}

impl View for NodeControlUri {
    type V = NodeControlUriView;

    open spec fn view(&self) -> NodeControlUriView {
        NodeControlUriView { service: self.service@, relays: texts(self.relays@) }
    }
}

/// Why a text is not a node service's URI.
#[derive(Clone, Copy, Debug, PartialEq, Eq, Structural)]
pub enum UriError {
    /// It is not of the `nostr+nodecontrol` scheme.
    Scheme,
    /// The service's public key is missing or malformed.
    Service,
    /// It names no relay.
    NoRelay,
}

/// What a URI is, given the key that its text stands for: the first thing missing is the error.
pub open spec fn assembled(service: Option<Seq<u8>>, relays: Seq<Seq<char>>) -> Result<
    NodeControlUriView,
    UriError,
> {
    match service {
        None => Err(UriError::Service),
        Some(service) => if relays.len() == 0 {
            Err(UriError::NoRelay)
        } else {
            Ok(NodeControlUriView { service, relays })
        },
    }
}

/// What a text is as a node service's URI.
pub open spec fn node_uri(s: Seq<char>) -> Result<NodeControlUriView, UriError> {
    match uri_parts(s, SCHEME@) {
        None => Err(UriError::Scheme),
        Some(parts) => assembled(public_key_in(parts.key), parts.relays),
    }
}

impl NodeControlUri {
    /// Puts a URI together from the key that its text gave, if it gave any.
    pub fn assemble(service: Option<PublicKey>, relays: Vec<String>) -> (r: Result<
        NodeControlUri,
        UriError,
    >)
        ensures
            ({
                let expected = assembled(
                    match service {
                        Some(k) => Some(k@),
                        None => None,
                    },
                    texts(relays@),
                );
                match r {
                    Ok(uri) => expected == Ok::<NodeControlUriView, UriError>(uri@),
                    Err(e) => expected == Err::<NodeControlUriView, UriError>(e),
                }
            }),
    {
        match service {
            None => Err(UriError::Service),
            Some(service) => if relays.len() == 0 {
                Err(UriError::NoRelay)
            } else {
                Ok(NodeControlUri { service, relays })
            },
        }
    }

    /// Reads `nostr+nodecontrol://<service-pubkey>?relay=<url>`.
    pub fn from_str(s: &str) -> (r: Result<NodeControlUri, UriError>)
        ensures
            match r {
                Ok(uri) => node_uri(s@) == Ok::<NodeControlUriView, UriError>(uri@),
                Err(e) => node_uri(s@) == Err::<NodeControlUriView, UriError>(e),
            },
    {
        match split_uri(s, SCHEME) {
            None => Err(UriError::Scheme),
            Some(parts) => {
                let service: Option<PublicKey> = keys::parse_public_key(parts.key.as_str()).ok();
                NodeControlUri::assemble(service, parts.relays)
            },
        }
    }
}

/// A node's URI is read by its parts: the first thing missing is the error, and where nothing is,
/// the node is the one whose key it names, with all the relays that it names.
pub proof fn law_node_uri_by_parts(s: Seq<char>)
    ensures
        match uri_parts(s, "nostr+nodecontrol://"@) {
            None => node_uri(s) == Err::<NodeControlUriView, UriError>(UriError::Scheme),
            Some(p) => match public_key_in(p.key) {
                None => node_uri(s) == Err::<NodeControlUriView, UriError>(UriError::Service),
                Some(service) => if p.relays.len() == 0 {
                    node_uri(s) == Err::<NodeControlUriView, UriError>(UriError::NoRelay)
                } else {
                    node_uri(s) == Ok::<NodeControlUriView, UriError>(
                        NodeControlUriView { service, relays: p.relays },
                    )
                },
            },
        },
{
}

/// What a node's URI is seen as is all that it holds.
pub proof fn law_node_uri_is_seen_whole(uri: NodeControlUri)
    ensures
        uri@.service == uri.service@,
        uri@.relays.len() == uri.relays@.len(),
        forall|i: int| 0 <= i < uri.relays@.len() ==> #[trigger] uri@.relays[i] == uri.relays@[i]@,
{
}

} // verus!
