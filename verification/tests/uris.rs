//! Connection URIs: what they hold and why a text is none.
use nostr_ln::nnc::uri::{NodeControlUri, UriError as NodeUriError};
use nostr_ln::nwc::client::{UriError, WalletConnect, WalletUri};
use nostr_ln::uri::{percent_decode, split_uri};

const SECRET: &str = "0000000000000000000000000000000000000000000000000000000000000001";
const WALLET: &str = "79be667ef9dcbbac55a06295ce870b07029bfcdb2dce28d959f2815b16f81798";

fn hex(bytes: &[u8]) -> String {
    bytes.iter().map(|b| format!("{b:02x}")).collect()
}

fn uri(text: &str) -> Result<WalletUri, UriError> {
    WalletUri::from_str(text)
}

#[test]
fn escapes_are_resolved() {
    assert_eq!(percent_decode("wss%3A%2F%2Frelay.example"), "wss://relay.example");
    assert_eq!(percent_decode("a%20b"), "a b");
    assert_eq!(percent_decode("%41%42"), "AB");
    assert_eq!(percent_decode("%2f"), "/");
}

#[test]
fn plain_text_is_kept() {
    assert_eq!(percent_decode("wss://relay.example:7777/a?b"), "wss://relay.example:7777/a?b");
    assert_eq!(percent_decode(""), "");
}

#[test]
fn a_percent_sign_that_starts_no_escape_stands_for_itself() {
    assert_eq!(percent_decode("100%"), "100%");
    assert_eq!(percent_decode("%4"), "%4");
    assert_eq!(percent_decode("%zz"), "%zz");
    assert_eq!(percent_decode("%-1"), "%-1");
    assert_eq!(percent_decode("%%41"), "%A");
}

#[test]
fn a_plus_sign_and_a_digit_are_an_escape() {
    assert_eq!(percent_decode("%+9x"), "\tx");
}

#[test]
fn bytes_above_127_become_the_character_of_their_number() {
    assert_eq!(percent_decode("%C3%A9"), "\u{c3}\u{a9}");
    assert_eq!(percent_decode("\u{e9}"), "\u{c3}\u{a9}");
    assert_eq!(percent_decode("%\u{e9}1"), "%\u{c3}\u{a9}1");
}

#[test]
fn escaping_every_byte_is_undone() {
    let escaped: String = "wss://r&=%".bytes().map(|b| format!("%{b:02X}")).collect();
    assert_eq!(percent_decode(&escaped), "wss://r&=%");
}

#[test]
fn any_mixture_of_escapes_is_undone() {
    let text = "wss://r.example/?a=1&b=50%";
    for step in 1..6usize {
        let mixed: String = text
            .bytes()
            .enumerate()
            .map(|(i, b)| match b {
                b'%' => "%25".to_string(),
                _ if i % step == 0 && i % 2 == 0 => format!("%{b:02x}"),
                _ if i % step == 0 => format!("%{b:02X}"),
                _ => (b as char).to_string(),
            })
            .collect();
        assert_eq!(percent_decode(&mixed), text);
    }
}

#[test]
fn escaped_relays_and_secrets_read_back() {
    let secret: String = SECRET.bytes().map(|b| format!("%{b:02x}")).collect();
    let text = format!(
        "nostr+walletconnect://{WALLET}?relay=wss://a/%3Fx%3D1%26y=%C3%A9&secret={secret}"
    );
    let uri = uri(&text).unwrap();
    assert_eq!(uri.relays, vec!["wss://a/?x=1&y=\u{c3}\u{a9}".to_string()]);
    assert_eq!(uri.secret.to_secret_hex(), SECRET);
}

#[test]
fn a_wallet_uri_holds_a_key_relays_and_a_secret() {
    let text = format!(
        "nostr+walletconnect://{WALLET}?relay=wss%3A%2F%2Fa.example&relay=wss://b.example&secret={SECRET}"
    );
    let uri = uri(&text).unwrap();
    assert_eq!(hex(&uri.wallet.bytes), WALLET);
    assert_eq!(uri.relays, vec!["wss://a.example".to_string(), "wss://b.example".to_string()]);
    assert_eq!(uri.secret.to_secret_hex(), SECRET);
}

#[test]
fn the_clients_key_comes_from_the_secret() {
    let text = format!("nostr+walletconnect://{WALLET}?relay=wss://a&secret={SECRET}");
    let w = WalletConnect::new(uri(&text).unwrap());
    assert_eq!(hex(&w.public_key().bytes), WALLET);
    assert_eq!(hex(&w.wallet().bytes), WALLET);
}

#[test]
fn another_scheme_is_refused() {
    let text = format!("nostr+nodecontrol://{WALLET}?relay=wss://a&secret={SECRET}");
    assert_eq!(uri(&text).unwrap_err(), UriError::Scheme);
    assert_eq!(uri("").unwrap_err(), UriError::Scheme);
    assert_eq!(UriError::Scheme.to_text(), "not a nostr+walletconnect:// uri");
}

#[test]
fn a_malformed_key_is_refused_first() {
    assert_eq!(uri("nostr+walletconnect://abc").unwrap_err(), UriError::Wallet);
    assert_eq!(uri("nostr+walletconnect://").unwrap_err(), UriError::Wallet);
    assert_eq!(UriError::Wallet.to_text(), "the wallet pubkey is missing or malformed");
}

#[test]
fn a_uri_without_a_relay_is_refused() {
    let bare = format!("nostr+walletconnect://{WALLET}");
    assert_eq!(uri(&bare).unwrap_err(), UriError::NoRelay);
    let only_secret = format!("nostr+walletconnect://{WALLET}?secret={SECRET}");
    assert_eq!(uri(&only_secret).unwrap_err(), UriError::NoRelay);
    assert_eq!(UriError::NoRelay.to_text(), "a uri must name at least one relay");
}

#[test]
fn a_missing_or_malformed_secret_is_refused() {
    let none = format!("nostr+walletconnect://{WALLET}?relay=wss://a");
    assert_eq!(uri(&none).unwrap_err(), UriError::Secret);
    let short = format!("nostr+walletconnect://{WALLET}?relay=wss://a&secret=12");
    assert_eq!(uri(&short).unwrap_err(), UriError::Secret);
    assert_eq!(UriError::Secret.to_text(), "the secret is missing or malformed");
}

#[test]
fn the_last_secret_counts() {
    let good = format!("nostr+walletconnect://{WALLET}?relay=wss://a&secret=12&secret={SECRET}");
    assert_eq!(uri(&good).unwrap().secret.to_secret_hex(), SECRET);
    let bad = format!("nostr+walletconnect://{WALLET}?relay=wss://a&secret={SECRET}&secret=12");
    assert_eq!(uri(&bad).unwrap_err(), UriError::Secret);
}

#[test]
fn other_fields_are_ignored() {
    let text = format!(
        "nostr+walletconnect://{WALLET}?&lud16=a@b&relay=wss://a&&flag&secret={SECRET}&x=1"
    );
    let uri = uri(&text).unwrap();
    assert_eq!(uri.relays, vec!["wss://a".to_string()]);
    assert_eq!(uri.secret.to_secret_hex(), SECRET);
}

#[test]
fn a_value_may_hold_an_equals_sign_and_a_question_mark() {
    let parts = split_uri("s://key?relay=wss://a?x=1&secret=", "s://").unwrap();
    assert_eq!(parts.key, "key");
    assert_eq!(parts.relays, vec!["wss://a?x=1".to_string()]);
    assert_eq!(parts.secret, Some(String::new()));
}

#[test]
fn a_written_uri_reads_back() {
    let relays = ["wss://one.example", "wss://two.example/path", "ws://localhost:8080"];
    let query: String = relays.iter().map(|r| format!("relay={r}&")).collect();
    let text = format!("s://{WALLET}?{query}secret={SECRET}");
    let parts = split_uri(&text, "s://").unwrap();
    assert_eq!(parts.key, WALLET);
    assert_eq!(parts.relays, relays.map(str::to_string).to_vec());
    assert_eq!(parts.secret, Some(SECRET.to_string()));
    assert!(split_uri(&text, "t://").is_none());
}

#[test]
fn keys_may_be_written_in_bech32() {
    let keys = nostr::Keys::parse(SECRET).unwrap();
    let npub = nostr::nips::nip19::ToBech32::to_bech32(&keys.public_key()).unwrap();
    let nsec = nostr::nips::nip19::ToBech32::to_bech32(keys.secret_key()).unwrap();
    let uri = uri(&format!("nostr+walletconnect://{npub}?relay=wss://a&secret={nsec}")).unwrap();
    assert_eq!(hex(&uri.wallet.bytes), WALLET);
    assert_eq!(uri.secret.to_secret_hex(), SECRET);
}

#[test]
fn a_node_uri_holds_a_key_and_relays() {
    let text = format!("nostr+nodecontrol://{WALLET}?relay=wss%3A%2F%2Fa&relay=wss://b");
    let uri = NodeControlUri::from_str(&text).unwrap();
    assert_eq!(hex(&uri.service.bytes), WALLET);
    assert_eq!(uri.relays, vec!["wss://a".to_string(), "wss://b".to_string()]);
}

#[test]
fn a_text_that_is_no_node_uri_is_refused() {
    let wallet = format!("nostr+walletconnect://{WALLET}?relay=wss://a");
    assert_eq!(NodeControlUri::from_str(&wallet).unwrap_err(), NodeUriError::Scheme);
    let key = "nostr+nodecontrol://xyz?relay=wss://a";
    assert_eq!(NodeControlUri::from_str(key).unwrap_err(), NodeUriError::Service);
    let bare = format!("nostr+nodecontrol://{WALLET}");
    assert_eq!(NodeControlUri::from_str(&bare).unwrap_err(), NodeUriError::NoRelay);
}
