//! Keys, sealed text and signed events, as the `nostr` crate makes them.
use vstd::prelude::*;
use vstd::string::*;
use nostr::key::Error as KeyError;
use nostr::nips::nip44;
use nostr::signer::SignerError;
use nostr::{Event, EventBuilder, Keys, Kind, SecretKey, Tag};

verus! {

/// A secret key. Nothing inside it is known here but what [`secret_bytes`] names.
#[verifier::external_type_specification]
#[verifier::external_body]
pub struct ExSecretKey(nostr::SecretKey);

/// Why a text is no key.
#[verifier::external_type_specification]
#[verifier::external_body]
pub struct ExKeyError(KeyError);

/// What a signer failed on.
#[verifier::external_type_specification]
#[verifier::external_body]
pub struct ExSignerError(nostr::signer::SignerError);

/// A signed event. Nothing inside it is known here but what [`event_view`] names.
#[verifier::external_type_specification]
#[verifier::external_body]
pub struct ExEvent(nostr::Event);

/// A public key: the 32 bytes of its x coordinate.
#[derive(Clone, Copy, Debug)]
pub struct PublicKey {
    /// The bytes.
    pub bytes: [u8; 32],
}

impl View for PublicKey {
    type V = Seq<u8>;

    open spec fn view(&self) -> Seq<u8> {
        self.bytes@
    }
}

impl PublicKey {
    /// Whether two keys are the same key.
    pub fn same(&self, other: &PublicKey) -> (r: bool)
        ensures
            r == (self@ == other@),
    {
        let mut i: usize = 0;
        while i < 32
            invariant
                i <= 32,
                forall|j: int| 0 <= j < i ==> self@[j] == other@[j],
            decreases 32 - i,
        {
            if self.bytes[i] != other.bytes[i] {
                return false;
            }
            i += 1;
        }
        assert(self@ =~= other@);
        true
    }
}

/// The character that writes a number below 16 in hexadecimal.
pub open spec fn hex_digit(n: u8) -> char {
    if n < 10 {
        (0x30 + n) as char
    } else {
        (0x61 + (n - 10)) as char
    }
}

/// Bytes in lower case hexadecimal, the high half of each first.
pub open spec fn hex_text(bytes: Seq<u8>) -> Seq<char> {
    Seq::new(
        2 * bytes.len(),
        |i: int|
            if i % 2 == 0 {
                hex_digit(bytes[i / 2] / 16)
            } else {
                hex_digit(bytes[i / 2] % 16)
            },
    )
}

/// The bytes of a secret key.
pub uninterp spec fn secret_bytes(k: SecretKey) -> Seq<u8>;

/// `Clone` of a secret key keeps its bytes.
pub assume_specification[ <nostr::SecretKey as Clone>::clone ](k: &nostr::SecretKey) -> (r:
    nostr::SecretKey)
    ensures
        secret_bytes(r) == secret_bytes(*k),
;

/// The bytes of the public key that a text gives in hexadecimal, in bech32 or as a `nostr:` URI.
pub uninterp spec fn public_key_in(s: Seq<char>) -> Option<Seq<u8>>;

/// The bytes of the secret key that a text gives in hexadecimal or in bech32.
pub uninterp spec fn secret_key_in(s: Seq<char>) -> Option<Seq<u8>>;

/// The bytes of the public key that belongs to a secret key.
pub uninterp spec fn public_key_for(secret: Seq<u8>) -> Seq<u8>;

/// The text that an error of a signer displays.
pub uninterp spec fn signer_error_text(e: SignerError) -> Seq<char>;

/// The text of the error that sealing a text gives, if it gives one.
pub uninterp spec fn seal_error(secret: Seq<u8>, other: Seq<u8>, text: Seq<char>) -> Option<
    Seq<char>,
>;

/// What a sealed text opens to, or the text of the error.
pub uninterp spec fn opened(secret: Seq<u8>, other: Seq<u8>, sealed: Seq<char>) -> Result<
    Seq<char>,
    Seq<char>,
>;

/// What an event holds.
pub struct EventView {
    /// Its id, in hexadecimal.
    pub id: Seq<char>,
    /// Its kind.
    pub kind: u16,
    /// The public key of its author.
    pub author: Seq<u8>,
    /// Its tags.
    pub tags: Seq<Seq<Seq<char>>>,
    /// Its content.
    pub content: Seq<char>,
    /// Whether it carries a signature of its id that is valid for its author.
    pub signed: bool,
}

/// What a signed event holds.
pub uninterp spec fn event_view(e: Event) -> EventView;

/// The characters of tags.
pub open spec fn tag_texts(tags: Seq<Vec<String>>) -> Seq<Seq<Seq<char>>> {
    tags.map_values(|t: Vec<String>| crate::text::texts(t@))
}

/// Whether a tag names a public key as one that the event is for.
pub open spec fn names_key(tag: Seq<Seq<char>>, key: Seq<u8>) -> bool {
    tag.len() >= 2 && tag[0] == "p"@ && tag[1] == hex_text(key)
}

/// Tags without those that name the author.
pub open spec fn kept_tags(tags: Seq<Seq<Seq<char>>>, author: Seq<u8>) -> Seq<Seq<Seq<char>>> {
    tags.filter(|t: Seq<Seq<char>>| !names_key(t, author))
}

/// `nostr::PublicKey::parse`, which takes hexadecimal, bech32 or a `nostr:` URI.
#[verifier::external_body]
pub(crate) fn parse_public_key(s: &str) -> (r: Result<PublicKey, KeyError>)
    ensures
        match r {
            Ok(k) => public_key_in(s@) == Some(k@),
            Err(_) => public_key_in(s@) is None,
        },
{
    Ok(PublicKey { bytes: nostr::PublicKey::parse(s)?.to_bytes() })
}

/// `nostr::PublicKey::to_hex`: the bytes in lower case hexadecimal.
#[verifier::external_body]
pub(crate) fn public_key_hex(k: &PublicKey) -> (r: String)
    ensures
        r@ == hex_text(k@),
{
    nostr::PublicKey::from_byte_array(k.bytes).to_hex()
}

/// `nostr::SecretKey::parse`, which takes hexadecimal or bech32.
#[verifier::external_body]
pub(crate) fn parse_secret_key(s: &str) -> (r: Result<SecretKey, KeyError>)
    ensures
        match r {
            Ok(k) => secret_key_in(s@) == Some(secret_bytes(k)),
            Err(_) => secret_key_in(s@) is None,
        },
{
    SecretKey::parse(s)
}

/// `nostr::Keys::new` and its public key, which depends on the secret key alone.
#[verifier::external_body]
pub(crate) fn public_key_of(secret: &SecretKey) -> (r: PublicKey)
    ensures
        r@ == public_key_for(secret_bytes(*secret)),
{
    PublicKey { bytes: Keys::new(secret.clone()).public_key().to_bytes() }
}

/// `Display` of an error of a signer.
#[verifier::external_body]
pub(crate) fn signer_text(e: &SignerError) -> (r: String)
    ensures
        r@ == signer_error_text(*e),
{
    e.to_string()
}

/// `nostr::nips::nip44::encrypt`. The sealed text holds a random nonce, so it is not fixed; it
/// opens to the text again, and whether sealing fails depends on the arguments alone.
#[verifier::external_body]
pub(crate) fn seal(secret: &SecretKey, other: &PublicKey, text: &str) -> (r: Result<
    String,
    SignerError,
>)
    ensures
        match r {
            Ok(sealed) => seal_error(secret_bytes(*secret), other@, text@) is None && opened(
                secret_bytes(*secret),
                other@,
                sealed@,
            ) == Ok::<Seq<char>, Seq<char>>(text@),
            Err(e) => seal_error(secret_bytes(*secret), other@, text@) == Some(
                signer_error_text(e),
            ),
        },
{
    let key = nostr::PublicKey::from_byte_array(other.bytes);
    nip44::encrypt(secret, &key, text, nip44::Version::default()).map_err(SignerError::backend)
}

/// `nostr::nips::nip44::decrypt`: the result depends on the arguments alone.
#[verifier::external_body]
pub(crate) fn open(secret: &SecretKey, other: &PublicKey, sealed: &str) -> (r: Result<
    String,
    SignerError,
>)
    ensures
        match r {
            Ok(text) => opened(secret_bytes(*secret), other@, sealed@) == Ok::<
                Seq<char>,
                Seq<char>,
            >(text@),
            Err(e) => opened(secret_bytes(*secret), other@, sealed@) == Err::<
                Seq<char>,
                Seq<char>,
            >(signer_error_text(e)),
        },
{
    let key = nostr::PublicKey::from_byte_array(other.bytes);
    nip44::decrypt(secret, &key, sealed).map_err(SignerError::backend)
}

/// `nostr::EventBuilder::sign_with_keys`, which does not fail on tags that are not empty. The
/// event carries the kind, the content and the tags given, but for `p` tags that name its author,
/// and is signed by the key given, whose public key is its author. Its id depends on the clock,
/// and nothing is said of it.
#[verifier::external_body]
pub(crate) fn sign(secret: &SecretKey, kind: u16, content: &str, tags: &Vec<Vec<String>>) -> (r:
    Result<Event, String>)
    requires
        forall|i: int| 0 <= i < tags@.len() ==> (#[trigger] tags@[i])@.len() > 0,
    ensures
        match r {
            Ok(e) => event_view(e).signed && event_view(e).kind == kind && event_view(e).content == content@ && event_view(
                e,
            ).author == public_key_for(secret_bytes(*secret)) && event_view(e).tags == kept_tags(
                tag_texts(tags@),
                public_key_for(secret_bytes(*secret)),
            ),
            Err(_) => false,
        },
{
    let tags = tags.iter().map(|t| Tag::parse(t.clone()).unwrap());
    let builder = EventBuilder::new(Kind::Custom(kind), content).tags(tags);
    builder.sign_with_keys(&Keys::new(secret.clone())).map_err(|e| e.to_string())
}

/// The id of a signed event, by `nostr::EventId::to_hex`.
#[verifier::external_body]
pub(crate) fn event_id(e: &Event) -> (r: String)
    ensures
        r@ == event_view(*e).id,
{
    e.id.to_hex()
}

} // verus!
