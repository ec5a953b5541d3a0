# nostr-ln

The client side of two protocols that reach a Lightning node over Nostr: wallet connect (NWC),
whose connection URI is a credential, and node control (NNC), where the client signs with its
own key. The library decides; it is written in Verus, and what each function returns or changes
is stated in its contract and proved. `app/` is the command line `dln-ctrl`, which runs those
decisions against relays, a signer and a terminal.

| module | holds |
|---|---|
| `uri` | the query of a connection URI: fields, percent escapes, what reads back of what was written |
| `nwc`, `nwc::client` | wallet URIs, requests and their answers, notifications of a wallet |
| `nnc`, `nnc::uri`, `nnc::client` | refusals and responses, node URIs, requests, notifications of a node |
| `request` | the JSON that a request or a subscription puts on the wire |
| `event`, `link` | what a relay delivers, and in which order relays are reached |
| `ctrl` | arguments, credentials, sessions and words of the command line |
| `time` | waits with one deadline |
| `json`, `keys`, `text` | the boundary to `serde_json`, `nostr` and `std`, and text on the character level |

A request, the opening of notifications and a run of the command line are state machines: each
step takes what happened and says what is to be done next. Their laws are public proof
functions whose names begin with `law_`. Among them: the relays are asked and the stream is
taken before a request is published; the first answer to a request decides it, whatever else is
delivered; a session that subscribes does so before it calls; nothing of a credential is said
back; a URI that was written reads back.

What is believed without proof stands in the functions marked `external_body` and in the
`assume_specification` items, each with a comment that names the outside function.
