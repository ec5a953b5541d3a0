//! The connection URIs: a scheme, a public key and a query of relays and, in NWC, a secret.
use vstd::prelude::*;
use vstd::string::*;
use vstd::utf8::*;
use crate::text::{characters, cut, find, same, spell, texts};

verus! {

/// The value of a hexadecimal digit, in either case.
pub open spec fn hex_value(b: u8) -> Option<u8> {
    if 0x30 <= b <= 0x39 {
        Some((b - 0x30) as u8)
    } else if 0x41 <= b <= 0x46 {
        Some((b - 0x41 + 10) as u8)
    } else if 0x61 <= b <= 0x66 {
        Some((b - 0x61 + 10) as u8)
    } else {
        None
    }
}

/// The number that two bytes write in hexadecimal: two digits, or a plus sign and one digit.
pub open spec fn hex_pair(high: u8, low: u8) -> Option<u8> {
    match (hex_value(high), hex_value(low)) {
        (Some(h), Some(l)) => Some((h * 16 + l) as u8),
        (None, Some(l)) => if high == 0x2b {
            Some(l)
        } else {
            None
        },
        _ => None,
    }
}

/// The byte that an escape at the start of `bytes` stands for, if one stands there.
pub open spec fn escape(bytes: Seq<u8>) -> Option<u8> {
    if bytes.len() > 2 && bytes[0] == 0x25 {
        hex_pair(bytes[1], bytes[2])
    } else {
        None
    }
}

/// Bytes with their escapes resolved, each byte read as the character of that number.
///
/// A percent sign that starts no escape stands for itself.
pub open spec fn percent_decoded(bytes: Seq<u8>) -> Seq<char>
    decreases bytes.len(),
{
    if bytes.len() == 0 {
        Seq::empty()
    } else {
        match escape(bytes) {
            Some(b) => seq![b as char] + percent_decoded(bytes.skip(3)),
            None => seq![bytes[0] as char] + percent_decoded(bytes.skip(1)),
        }
    }
}

/// The value of a hexadecimal digit, in either case.
fn digit(b: u8) -> (r: Option<u8>)
    ensures
        r == hex_value(b),
        r matches Some(v) ==> v < 16,
{
    if 0x30 <= b && b <= 0x39 {
        Some(b - 0x30)
    } else if 0x41 <= b && b <= 0x46 {
        Some(b - 0x41 + 10)
    } else if 0x61 <= b && b <= 0x66 {
        Some(b - 0x61 + 10)
    } else {
        None
    }
}

/// The number that two bytes write in hexadecimal.
fn pair(high: u8, low: u8) -> (r: Option<u8>)
    ensures
        r == hex_pair(high, low),
{
    match (digit(high), digit(low)) {
        (Some(h), Some(l)) => Some(h * 16 + l),
        (None, Some(l)) => if high == 0x2b {
            Some(l)
        } else {
            None
        },
        _ => None,
    }
}

/// Resolves the percent escapes of a query value.
///
/// The value is taken byte by byte, so an escape of a byte above 127 gives the one character of
/// that number.
pub fn percent_decode(s: &str) -> (r: String)
    ensures
        r@ == percent_decoded(encode_utf8(s@)),
{
    let b: &[u8] = s.as_bytes();
    let ghost all = b@;
    let mut out: String = String::new();
    let mut i: usize = 0;
    assert(all.skip(0) =~= all);
    while i < b.len()
        invariant
            i <= b@.len(),
            all == b@,
            all == encode_utf8(s@),
            out@ + percent_decoded(all.skip(i as int)) == percent_decoded(all),
        decreases b.len() - i,
    {
        let ghost before = out@;
        let ghost rest = all.skip(i as int);
        if b[i] == 0x25 && b.len() - i > 2 {
            if let Some(c) = pair(b[i + 1], b[i + 2]) {
                out.push(c as char);
                proof {
                    assert(escape(rest) == Some(c));
                    assert(rest.skip(3) =~= all.skip(i + 3));
                    assert(out@ + percent_decoded(all.skip(i + 3)) =~= before + percent_decoded(
                        rest,
                    ));
                }
                i += 3;
                continue ;
            }
        }
        out.push(b[i] as char);
        proof {
            assert(escape(rest) is None);
            assert(rest.skip(1) =~= all.skip(i + 1));
            assert(out@ + percent_decoded(all.skip(i + 1)) =~= before + percent_decoded(rest));
        }
        i += 1;
    }
    assert(percent_decoded(all.skip(i as int)) =~= Seq::empty());
    out
}

/// The key and the decoded value of one piece of a query, where it holds an equals sign.
pub open spec fn field(piece: Seq<char>) -> Option<(Seq<char>, Seq<char>)> {
    match cut(piece, '=') {
        Some((key, value)) => Some((key, percent_decoded(encode_utf8(value)))),
        None => None,
    }
}

/// The fields of a query, in order. A piece without an equals sign is no field.
pub open spec fn fields(query: Seq<char>) -> Seq<(Seq<char>, Seq<char>)>
    decreases query.len(),
    via fields_shrink
{
    match cut(query, '&') {
        Some((piece, rest)) => one_field(piece) + fields(rest),
        None => one_field(query),
    }
}

/// A piece of a query as a list of no field or one.
pub open spec fn one_field(piece: Seq<char>) -> Seq<(Seq<char>, Seq<char>)> {
    match field(piece) {
        Some(f) => seq![f],
        None => Seq::empty(),
    }
}

#[via_fn]
proof fn fields_shrink(query: Seq<char>) {
    query.index_of_first_ensures('&');
}

/// Whether a field is of a key.
pub open spec fn of_key(key: Seq<char>) -> spec_fn((Seq<char>, Seq<char>)) -> bool {
    |f: (Seq<char>, Seq<char>)| f.0 == key
}

/// The values that a key has among some fields, in order.
pub open spec fn values(list: Seq<(Seq<char>, Seq<char>)>, key: Seq<char>) -> Seq<Seq<char>> {
    list.filter(of_key(key)).map_values(|f: (Seq<char>, Seq<char>)| f.1)
}

/// What a connection URI holds, as text.
#[verifier::ext_equal]
pub struct PartsView {
    /// The text of the public key.
    pub key: Seq<char>,
    /// The relays, in order.
    pub relays: Seq<Seq<char>>,
    /// The last secret, if there is one.
    pub secret: Option<Seq<char>>,
}

/// The query part of a URI behind its scheme, and the public key before it.
pub open spec fn key_and_query(rest: Seq<char>) -> (Seq<char>, Seq<char>) {
    match cut(rest, '?') {
        Some(both) => both,
        None => (rest, Seq::empty()),
    }
}

/// What a URI of a scheme holds, or nothing where it is of another scheme.
pub open spec fn uri_parts(s: Seq<char>, scheme: Seq<char>) -> Option<PartsView> {
    if scheme.is_prefix_of(s) {
        let (key, query) = key_and_query(s.skip(scheme.len() as int));
        let secrets = values(fields(query), "secret"@);
        Some(
            PartsView {
                key,
                relays: values(fields(query), "relay"@),
                secret: if secrets.len() == 0 {
                    None
                } else {
                    Some(secrets.last())
                },
            },
        )
    } else {
        None
    }
}

/// The parts of a connection URI, as text.
pub struct UriParts {
    /// The text of the public key.
    pub key: String,
    /// The relays, in order.
    pub relays: Vec<String>,
    /// The last secret, if there is one.
    pub secret: Option<String>,
}

impl View for UriParts {
    type V = PartsView;

    open spec fn view(&self) -> PartsView {
        PartsView {
            key: self.key@,
            relays: texts(self.relays@),
            secret: match self.secret {
                Some(s) => Some(s@),
                None => None,
            },
        }
    }
}

/// The characters of fields.
pub open spec fn field_texts(list: Seq<(String, String)>) -> Seq<(Seq<char>, Seq<char>)> {
    list.map_values(|f: (String, String)| (f.0@, f.1@))
}

/// Reads one piece of a query that stands between two places.
fn read_field(chars: &Vec<char>, from: usize, to: usize) -> (r: Option<(String, String)>)
    requires
        from <= to <= chars@.len(),
    ensures
        match r {
            Some(f) => field(chars@.subrange(from as int, to as int)) == Some((f.0@, f.1@)),
            None => field(chars@.subrange(from as int, to as int)) is None,
        },
{
    let piece: Vec<char> = characters(spell(chars, from, to).as_str());
    assert(piece@.skip(0) =~= piece@);
    match find(&piece, 0, '=') {
        Some(i) => {
            let key: String = spell(&piece, 0, i);
            let value: String = percent_decode(spell(&piece, i + 1, piece.len()).as_str());
            Some((key, value))
        },
        None => None,
    }
}

/// Reads the fields of a query.
pub fn read_fields(query: &str) -> (r: Vec<(String, String)>)
    ensures
        field_texts(r@) == fields(query@),
{
    let chars: Vec<char> = characters(query);
    let mut out: Vec<(String, String)> = Vec::new();
    let mut at: usize = 0;
    let mut more: bool = true;
    let size: usize = chars.len();
    assert(chars@.skip(0) =~= query@);
    assert(field_texts(out@) + fields(query@) =~= fields(query@));
    while more
        invariant
            at <= size,
            size == chars@.len(),
            more ==> field_texts(out@) + fields(chars@.skip(at as int)) == fields(query@),
            !more ==> field_texts(out@) == fields(query@),
        decreases chars@.len() - at, (if more { 1int } else { 0int }),
    {
        let ghost before = field_texts(out@);
        let ghost rest = chars@.skip(at as int);
        let end: Option<usize> = find(&chars, at, '&');
        let to: usize = match end {
            Some(i) => i,
            None => size,
        };
        let ghost piece = chars@.subrange(at as int, to as int);
        let got: Option<(String, String)> = read_field(&chars, at, to);
        if let Some(f) = got {
            out.push(f);
        }
        assert(field_texts(out@) =~= before + one_field(piece));
        match end {
            Some(i) => {
                proof {
                    assert(chars@.subrange(i + 1, chars@.len() as int) =~= chars@.skip(i + 1));
                    assert(field_texts(out@) + fields(chars@.skip(i + 1)) =~= before + fields(
                        rest,
                    ));
                }
                at = i + 1;
            },
            None => {
                proof {
                    assert(piece =~= rest);
                    assert(field_texts(out@) =~= before + fields(rest));
                }
                more = false;
            },
        }
    }
    out
}

/// One more field adds its value to those of its key, and nothing to those of another.
proof fn lemma_values_push(
    list: Seq<(Seq<char>, Seq<char>)>,
    f: (Seq<char>, Seq<char>),
    key: Seq<char>,
)
    ensures
        values(list.push(f), key) == if f.0 == key {
            values(list, key).push(f.1)
        } else {
            values(list, key)
        },
{
    reveal(Seq::filter);
    let wanted = of_key(key);
    assert(list.push(f).drop_last() =~= list);
    assert(list.push(f).filter(wanted) == if f.0 == key {
        list.filter(wanted).push(f)
    } else {
        list.filter(wanted)
    });
    assert(values(list.push(f), key) =~= if f.0 == key {
        values(list, key).push(f.1)
    } else {
        values(list, key)
    });
}

/// Picks the values of a key out of some fields.
pub fn pick(list: &Vec<(String, String)>, key: &str) -> (r: Vec<String>)
    ensures
        texts(r@) == values(field_texts(list@), key@),
{
    let mut out: Vec<String> = Vec::new();
    let mut i: usize = 0;
    let ghost all = field_texts(list@);
    proof {
        reveal(Seq::filter);
        assert(texts(out@) =~= values(all.take(0), key@));
    }
    while i < list.len()
        invariant
            i <= list@.len(),
            all == field_texts(list@),
            texts(out@) == values(all.take(i as int), key@),
        decreases list.len() - i,
    {
        let ghost before = out@;
        if same(list[i].0.as_str(), key) {
            out.push(list[i].1.clone());
        }
        proof {
            lemma_values_push(all.take(i as int), all[i as int], key@);
            assert(all.take(i + 1) =~= all.take(i as int).push(all[i as int]));
            assert(texts(out@) =~= values(all.take(i + 1), key@));
        }
        i += 1;
    }
    assert(all.take(list@.len() as int) =~= all);
    out
}

/// Reads the parts of a connection URI of a scheme; nothing where it is of another scheme.
pub fn split_uri(s: &str, scheme: &str) -> (r: Option<UriParts>)
    ensures
        match r {
            Some(parts) => uri_parts(s@, scheme@) == Some(parts@),
            None => uri_parts(s@, scheme@) is None,
        },
{
    let chars: Vec<char> = characters(s);
    let head: Vec<char> = characters(scheme);
    if chars.len() < head.len() {
        return None;
    }
    let lead: String = spell(&chars, 0, head.len());
    if !same(lead.as_str(), scheme) {
        proof {
            if scheme@.is_prefix_of(s@) {
                assert(lead@ =~= scheme@);
            }
        }
        return None;
    }
    assert(scheme@.is_prefix_of(s@)) by {
        assert(chars@.subrange(0, head@.len() as int) == scheme@);
    }
    let ghost rest = chars@.skip(head@.len() as int);
    let (key, query): (String, String) = match find(&chars, head.len(), '?') {
        Some(i) => (spell(&chars, head.len(), i), spell(&chars, i + 1, chars.len())),
        None => {
            assert(rest =~= chars@.subrange(head@.len() as int, chars@.len() as int));
            (spell(&chars, head.len(), chars.len()), String::new())
        },
    };
    assert((key@, query@) == key_and_query(rest));
    let list: Vec<(String, String)> = read_fields(query.as_str());
    let relays: Vec<String> = pick(&list, "relay");
    let mut secrets: Vec<String> = pick(&list, "secret");
    let ghost held = secrets@;
    let secret: Option<String> = secrets.pop();
    proof {
        assert(texts(held).len() == held.len());
        if held.len() > 0 {
            assert(texts(held).last() == held.last()@);
        }
    }
    Some(UriParts { key, relays, secret })
}

/// Whether a text needs no escapes: ASCII without a percent sign.
pub open spec fn is_plain(s: Seq<char>) -> bool {
    is_ascii_chars(s) && !s.contains('%')
}

/// A text that needs no escapes is decoded to itself.
pub proof fn law_plain_text_is_kept(s: Seq<char>)
    requires
        is_plain(s),
    ensures
        percent_decoded(encode_utf8(s)) == s,
{
    let bytes = encode_utf8(s);
    is_ascii_chars_encode_utf8(s);
    is_ascii_chars_nat_bound(s);
    assert forall|i: int| 0 <= i < bytes.len() implies #[trigger] bytes[i] != 0x25 by {
        assert(bytes[i] == s[i] as u8);
        assert(s[i] != '%');
    }
    lemma_plain_encodes(bytes);
    law_encoding_is_undone(bytes, bytes);
    assert(chars_of(bytes) =~= s);
}

/// Bytes read as the characters of their numbers.
pub open spec fn chars_of(bytes: Seq<u8>) -> Seq<char> {
    Seq::new(bytes.len(), |i: int| bytes[i] as char)
}

/// Whether a text writes some bytes, each as it is or as an escape of two digits in either case. A
/// percent sign is always escaped.
pub open spec fn encodes(text: Seq<u8>, bytes: Seq<u8>) -> bool
    decreases text.len(),
{
    if text.len() == 0 {
        bytes.len() == 0
    } else if text[0] == 0x25 {
        &&& text.len() >= 3
        &&& bytes.len() > 0
        &&& match (hex_value(text[1]), hex_value(text[2])) {
            (Some(high), Some(low)) => high * 16 + low == bytes[0],
            _ => false,
        }
        &&& encodes(text.skip(3), bytes.skip(1))
    } else {
        bytes.len() > 0 && text[0] == bytes[0] && encodes(text.skip(1), bytes.skip(1))
    }
}

/// Decoding undoes encoding, whichever bytes are escaped: each comes back, as the character of its
/// number.
pub proof fn law_encoding_is_undone(text: Seq<u8>, bytes: Seq<u8>)
    requires
        encodes(text, bytes),
    ensures
        percent_decoded(text) == chars_of(bytes),
    decreases text.len(),
{
    if text.len() > 0 {
        if text[0] == 0x25 {
            law_encoding_is_undone(text.skip(3), bytes.skip(1));
            assert(escape(text) == Some(bytes[0]));
        } else {
            law_encoding_is_undone(text.skip(1), bytes.skip(1));
            assert(escape(text) is None);
        }
        assert(chars_of(bytes) =~= seq![bytes[0] as char] + chars_of(bytes.skip(1)));
    } else {
        assert(chars_of(bytes) =~= Seq::empty());
    }
}

/// The byte that writes a number below 16 in upper case hexadecimal.
pub open spec fn hex_byte(n: u8) -> u8 {
    if n < 10 {
        (0x30 + n) as u8
    } else {
        (0x41 + (n - 10)) as u8
    }
}

/// Bytes with the marked ones and each percent sign written as escapes.
pub open spec fn escaped(bytes: Seq<u8>, marked: Seq<bool>) -> Seq<u8>
    decreases bytes.len(),
{
    if bytes.len() == 0 {
        Seq::empty()
    } else if bytes[0] == 0x25 || marked[0] {
        seq![0x25u8, hex_byte(bytes[0] / 16), hex_byte(bytes[0] % 16)] + escaped(
            bytes.skip(1),
            marked.skip(1),
        )
    } else {
        seq![bytes[0]] + escaped(bytes.skip(1), marked.skip(1))
    }
}

/// Whichever bytes are marked, escaping them writes those bytes, and decoding gives them back.
pub proof fn law_escapes_are_undone(bytes: Seq<u8>, marked: Seq<bool>)
    requires
        marked.len() == bytes.len(),
    ensures
        encodes(escaped(bytes, marked), bytes),
        percent_decoded(escaped(bytes, marked)) == chars_of(bytes),
    decreases bytes.len(),
{
    if bytes.len() > 0 {
        let all = escaped(bytes, marked);
        let rest = escaped(bytes.skip(1), marked.skip(1));
        law_escapes_are_undone(bytes.skip(1), marked.skip(1));
        if bytes[0] == 0x25 || marked[0] {
            assert(all.skip(3) =~= rest);
            assert(hex_value(all[1]) == Some((bytes[0] / 16) as u8));
            assert(hex_value(all[2]) == Some((bytes[0] % 16) as u8));
        } else {
            assert(all.skip(1) =~= rest);
        }
    }
    law_encoding_is_undone(escaped(bytes, marked), bytes);
}

proof fn lemma_cut_at(a: Seq<char>, mark: char, b: Seq<char>)
    ensures
        cut(a + seq![mark] + b, mark) == match cut(a, mark) {
            Some((head, tail)) => Some((head, tail + seq![mark] + b)),
            None => Some((a, b)),
        },
{
    let all = a + seq![mark] + b;
    all.index_of_first_ensures(mark);
    a.index_of_first_ensures(mark);
    assert(all[a.len() as int] == mark);
    let k = all.index_of_first(mark)->0;
    match a.index_of_first(mark) {
        Some(i) => {
            assert(all[i] == mark);
            if k < i {
                assert(all[k] == a[k]);
            }
            assert(k == i);
            assert(all.take(i) =~= a.take(i));
            assert(all.skip(i + 1) =~= a.skip(i + 1) + seq![mark] + b);
        },
        None => {
            if k < a.len() {
                assert(all[k] == a[k]);
                assert(a.contains(mark));
            }
            assert(all.take(k) =~= a);
            assert(all.skip(k + 1) =~= b);
        },
    }
}

/// A query is read piece by piece: the fields of two queries with an ampersand between them are
/// those of the first and those of the second.
pub proof fn law_fields_of_pieces(a: Seq<char>, b: Seq<char>)
    ensures
        fields(a + seq!['&'] + b) == fields(a) + fields(b),
    decreases a.len(),
{
    lemma_cut_at(a, '&', b);
    a.index_of_first_ensures('&');
    match cut(a, '&') {
        Some((head, tail)) => {
            law_fields_of_pieces(tail, b);
            assert(one_field(head) + (fields(tail) + fields(b)) =~= one_field(head) + fields(tail)
                + fields(b));
        },
        None => {},
    }
}

proof fn lemma_values_add(
    a: Seq<(Seq<char>, Seq<char>)>,
    b: Seq<(Seq<char>, Seq<char>)>,
    key: Seq<char>,
)
    ensures
        values(a + b, key) == values(a, key) + values(b, key),
{
    let pred = of_key(key);
    Seq::filter_distributes_over_add(a, b, pred);
    assert(values(a + b, key) =~= values(a, key) + values(b, key));
}

proof fn lemma_values_one(item: (Seq<char>, Seq<char>), key: Seq<char>)
    ensures
        values(seq![item], key) == if item.0 == key {
            seq![item.1]
        } else {
            Seq::empty()
        },
{
    let pred = of_key(key);
    let one = seq![item];
    reveal(Seq::filter);
    assert(one.drop_last() =~= Seq::empty());
    assert(one.drop_last().filter(pred) =~= Seq::empty());
    if item.0 == key {
        assert(one.filter(pred) =~= seq![item]);
        assert(values(one, key) =~= seq![item.1]);
    } else {
        assert(one.filter(pred) =~= Seq::empty());
        assert(values(one, key) =~= Seq::empty());
    }
}

/// A piece that is a field of another key, or no field at all, changes nothing for a key.
pub proof fn law_other_fields_are_ignored(query: Seq<char>, piece: Seq<char>, key: Seq<char>)
    requires
        !piece.contains('&'),
        field(piece) matches Some(f) ==> f.0 != key,
    ensures
        values(fields(query + seq!['&'] + piece), key) == values(fields(query), key),
{
    law_fields_of_pieces(query, piece);
    piece.index_of_first_ensures('&');
    lemma_values_add(fields(query), fields(piece), key);
    match field(piece) {
        Some(f) => lemma_values_one(f, key),
        None => {
            reveal(Seq::filter);
            assert(values(Seq::<(Seq<char>, Seq<char>)>::empty(), key) =~= Seq::empty());
        },
    }
    assert(values(fields(query), key) + Seq::empty() =~= values(fields(query), key));
}

/// A field as a query writes it.
pub open spec fn written_field(key: Seq<char>, value: Seq<char>) -> Seq<char> {
    key + seq!['='] + value
}

/// A query that names some relays and a secret.
pub open spec fn written_query(relays: Seq<Seq<char>>, secret: Seq<char>) -> Seq<char>
    decreases relays.len(),
{
    if relays.len() == 0 {
        written_field("secret"@, secret)
    } else {
        written_field("relay"@, relays[0]) + seq!['&'] + written_query(relays.skip(1), secret)
    }
}

/// A URI that names a key, some relays and a secret.
pub open spec fn written_uri(
    scheme: Seq<char>,
    key: Seq<char>,
    relays: Seq<Seq<char>>,
    secret: Seq<char>,
) -> Seq<char> {
    scheme + (key + seq!['?'] + written_query(relays, secret))
}

/// Whether a value can stand in a query as it is.
pub open spec fn fits_query(s: Seq<char>) -> bool {
    is_plain(s) && !s.contains('&')
}

/// Whether every character of a value has the number of a byte.
pub open spec fn is_narrow(s: Seq<char>) -> bool {
    forall|i: int| 0 <= i < s.len() ==> 0 <= (#[trigger] s[i]) as int <= 0xff
}

/// Characters as the bytes of their numbers.
pub open spec fn bytes_of(s: Seq<char>) -> Seq<u8> {
    Seq::new(s.len(), |i: int| s[i] as u8)
}

/// Whether a text stands for a value in a query: with no ampersand, and each character of the
/// value as it is or escaped.
pub open spec fn stands_for(written: Seq<char>, value: Seq<char>) -> bool {
    &&& !written.contains('&')
    &&& is_narrow(value)
    &&& encodes(encode_utf8(written), bytes_of(value))
}

proof fn lemma_plain_encodes(bytes: Seq<u8>)
    requires
        forall|i: int| 0 <= i < bytes.len() ==> #[trigger] bytes[i] != 0x25,
    ensures
        encodes(bytes, bytes),
    decreases bytes.len(),
{
    if bytes.len() > 0 {
        assert forall|i: int| 0 <= i < bytes.skip(1).len() implies #[trigger] bytes.skip(1)[i]
            != 0x25 by {
            assert(bytes.skip(1)[i] == bytes[i + 1]);
        }
        lemma_plain_encodes(bytes.skip(1));
    }
}

/// A value that can stand in a query as it is stands for itself.
pub proof fn law_plain_value_stands_for_itself(s: Seq<char>)
    requires
        fits_query(s),
    ensures
        stands_for(s, s),
{
    let bytes = encode_utf8(s);
    is_ascii_chars_encode_utf8(s);
    is_ascii_chars_nat_bound(s);
    assert forall|i: int| 0 <= i < bytes.len() implies #[trigger] bytes[i] != 0x25 by {
        assert(bytes[i] == s[i] as u8);
        assert(s[i] != '%');
    }
    assert(bytes =~= bytes_of(s));
    lemma_plain_encodes(bytes);
}

proof fn lemma_escaped_bytes(bytes: Seq<u8>, marked: Seq<bool>)
    requires
        marked.len() == bytes.len(),
        forall|i: int|
            0 <= i < bytes.len() && (bytes[i] == 0x26 || bytes[i] >= 0x80) ==> #[trigger] marked[i],
    ensures
        forall|i: int|
            0 <= i < escaped(bytes, marked).len() ==> #[trigger] escaped(bytes, marked)[i] < 0x80
                && escaped(bytes, marked)[i] != 0x26,
    decreases bytes.len(),
{
    if bytes.len() > 0 {
        let all = escaped(bytes, marked);
        let rest = escaped(bytes.skip(1), marked.skip(1));
        assert forall|i: int|
            0 <= i < bytes.skip(1).len() && (bytes.skip(1)[i] == 0x26 || bytes.skip(1)[i]
                >= 0x80) implies #[trigger] marked.skip(1)[i] by {
            assert(marked[i + 1]);
        }
        lemma_escaped_bytes(bytes.skip(1), marked.skip(1));
        assert(marked[0] || !marked[0]);
        assert forall|i: int| 0 <= i < all.len() implies #[trigger] all[i] < 0x80 && all[i]
            != 0x26 by {
            let head = all.len() - rest.len();
            if i >= head {
                assert(all[i] == rest[i - head]);
            }
        }
    }
}

/// A value whose ampersands and characters beyond ASCII are escaped, and any others that one
/// likes, stands for itself.
pub proof fn law_escaped_value_stands_for_it(value: Seq<char>, marked: Seq<bool>)
    requires
        is_narrow(value),
        marked.len() == value.len(),
        forall|i: int|
            0 <= i < value.len() && (value[i] == '&' || value[i] as int >= 0x80)
                ==> #[trigger] marked[i],
    ensures
        stands_for(chars_of(escaped(bytes_of(value), marked)), value),
{
    let bytes = bytes_of(value);
    let all = escaped(bytes, marked);
    let text = chars_of(all);
    assert forall|i: int|
        0 <= i < bytes.len() && (bytes[i] == 0x26 || bytes[i] >= 0x80) implies #[trigger] marked[i] by {
        assert(0 <= value[i] as int <= 0xff);
        assert(bytes[i] == value[i] as int);
    }
    lemma_escaped_bytes(bytes, marked);
    law_escapes_are_undone(bytes, marked);
    assert forall|i: int| 0 <= i < text.len() implies (#[trigger] text[i]) as int == all[i] && text[
        i] as int <= 0x7f by {}
    assert(is_ascii_chars(text));
    is_ascii_chars_encode_utf8(text);
    assert(encode_utf8(text) =~= all);
    assert(!text.contains('&'));
}

proof fn lemma_written_field(key: Seq<char>, written: Seq<char>, value: Seq<char>)
    requires
        !key.contains('='),
        !key.contains('&'),
        stands_for(written, value),
    ensures
        field(written_field(key, written)) == Some((key, value)),
        cut(written_field(key, written), '&') is None,
{
    let all = written_field(key, written);
    lemma_cut_at(key, '=', written);
    key.index_of_first_ensures('=');
    law_encoding_is_undone(encode_utf8(written), bytes_of(value));
    assert forall|i: int| 0 <= i < value.len() implies chars_of(bytes_of(value))[i]
        == #[trigger] value[i] by {
        assert(0 <= value[i] as int <= 0xff);
    }
    assert(chars_of(bytes_of(value)) =~= value);
    all.index_of_first_ensures('&');
    if all.contains('&') {
        let i = choose|i: int| 0 <= i < all.len() && all[i] == '&';
        if i < key.len() {
            assert(key[i] == '&');
        } else if i > key.len() {
            assert(written[i - key.len() - 1] == '&');
        }
        assert(false);
    }
}

/// Whether texts stand for values, one for one.
pub open spec fn all_stand_for(written: Seq<Seq<char>>, values: Seq<Seq<char>>) -> bool {
    &&& written.len() == values.len()
    &&& forall|i: int|
        0 <= i < written.len() ==> stands_for(#[trigger] written[i], #[trigger] values[i])
}

proof fn lemma_written_query(
    written: Seq<Seq<char>>,
    written_secret: Seq<char>,
    relays: Seq<Seq<char>>,
    secret: Seq<char>,
)
    requires
        all_stand_for(written, relays),
        stands_for(written_secret, secret),
    ensures
        values(fields(written_query(written, written_secret)), "relay"@) == relays,
        values(fields(written_query(written, written_secret)), "secret"@) == seq![secret],
    decreases relays.len(),
{
    reveal_strlit("relay");
    reveal_strlit("secret");
    assert("relay"@.len() != "secret"@.len());
    if relays.len() == 0 {
        lemma_written_field("secret"@, written_secret, secret);
        lemma_values_one(("secret"@, secret), "relay"@);
        lemma_values_one(("secret"@, secret), "secret"@);
        assert(relays =~= Seq::empty());
    } else {
        let first = written_field("relay"@, written[0]);
        let rest = written_query(written.skip(1), written_secret);
        assert forall|i: int| 0 <= i < written.skip(1).len() implies stands_for(
            #[trigger] written.skip(1)[i],
            #[trigger] relays.skip(1)[i],
        ) by {
            assert(stands_for(written[i + 1], relays[i + 1]));
        }
        lemma_written_query(written.skip(1), written_secret, relays.skip(1), secret);
        assert(stands_for(written[0], relays[0]));
        lemma_written_field("relay"@, written[0], relays[0]);
        law_fields_of_pieces(first, rest);
        lemma_values_add(fields(first), fields(rest), "relay"@);
        lemma_values_add(fields(first), fields(rest), "secret"@);
        lemma_values_one(("relay"@, relays[0]), "relay"@);
        lemma_values_one(("relay"@, relays[0]), "secret"@);
        assert(seq![relays[0]] + relays.skip(1) =~= relays);
        assert(Seq::<Seq<char>>::empty() + seq![secret] =~= seq![secret]);
    }
}

/// A URI that was written reads back: the key, each relay in order, and the secret, whichever of
/// their characters were escaped.
pub proof fn law_written_uri_reads_back(
    scheme: Seq<char>,
    key: Seq<char>,
    written: Seq<Seq<char>>,
    written_secret: Seq<char>,
    relays: Seq<Seq<char>>,
    secret: Seq<char>,
)
    requires
        !key.contains('?'),
        all_stand_for(written, relays),
        stands_for(written_secret, secret),
    ensures
        uri_parts(written_uri(scheme, key, written, written_secret), scheme) == Some(
            PartsView { key, relays, secret: Some(secret) },
        ),
{
    let rest = key + seq!['?'] + written_query(written, written_secret);
    let all = scheme + rest;
    assert(all.skip(scheme.len() as int) =~= rest);
    assert(scheme.is_prefix_of(all)) by {
        assert(all.subrange(0, scheme.len() as int) =~= scheme);
    }
    lemma_cut_at(key, '?', written_query(written, written_secret));
    key.index_of_first_ensures('?');
    lemma_written_query(written, written_secret, relays, secret);
}

/// A hexadecimal digit stands for its number, in either case, and nothing else does; a plus sign
/// and a digit stand for that digit.
pub proof fn law_hex_digits(b: u8, low: u8)
    ensures
        b < 10 ==> hex_value((0x30 + b) as u8) == Some(b),
        b < 6 ==> hex_value((0x41 + b) as u8) == Some((10 + b) as u8) && hex_value((0x61 + b) as u8)
            == Some((10 + b) as u8),
        b < 0x30 || 0x39 < b < 0x41 || 0x46 < b < 0x61 || 0x66 < b ==> hex_value(b) is None,
        hex_pair(0x2b, low) == hex_value(low),
        hex_value(b) is None && b != 0x2b ==> hex_pair(b, low) is None,
        hex_value(low) is None ==> hex_pair(b, low) is None,
        hex_value(b) matches Some(h) ==> (hex_value(low) matches Some(l) ==> hex_pair(b, low)
            == Some((h * 16 + l) as u8)),
{
}

/// Text before the first percent sign is kept, and what follows is decoded as if it stood alone.
pub proof fn law_decoding_is_local(a: Seq<u8>, b: Seq<u8>)
    requires
        !a.contains(0x25),
    ensures
        percent_decoded(a + b) == chars_of(a) + percent_decoded(b),
    decreases a.len(),
{
    if a.len() == 0 {
        assert(a + b =~= b);
        assert(chars_of(a) + percent_decoded(b) =~= percent_decoded(b));
    } else {
        assert(a[0] != 0x25);
        assert(!a.skip(1).contains(0x25)) by {
            if a.skip(1).contains(0x25) {
                let i = choose|i: int| 0 <= i < a.skip(1).len() && a.skip(1)[i] == 0x25;
                assert(a[i + 1] == 0x25);
            }
        }
        law_decoding_is_local(a.skip(1), b);
        assert((a + b).skip(1) =~= a.skip(1) + b);
        assert((a + b)[0] == a[0]);
        assert(chars_of(a) + percent_decoded(b) =~= seq![a[0] as char] + (chars_of(a.skip(1))
            + percent_decoded(b)));
    }
}

/// A percent sign and two digits are the byte that they write, and a percent sign that starts no
/// escape stands for itself; what follows is decoded as if it stood alone.
pub proof fn law_escape_or_percent_sign(high: u8, low: u8, rest: Seq<u8>)
    ensures
        hex_pair(high, low) matches Some(b) ==> percent_decoded(seq![0x25u8, high, low] + rest)
            == seq![b as char] + percent_decoded(rest),
        hex_pair(high, low) is None ==> percent_decoded(seq![0x25u8, high, low] + rest) == seq!['%']
            + percent_decoded(seq![high, low] + rest),
        percent_decoded(seq![0x25u8, high]) == seq!['%'] + percent_decoded(seq![high]),
        percent_decoded(seq![0x25u8]) == seq!['%'],
        percent_decoded(Seq::empty()) == Seq::<char>::empty(),
{
    let all = seq![0x25u8, high, low] + rest;
    assert(all.skip(3) =~= rest);
    assert(all.skip(1) =~= seq![high, low] + rest);
    assert(seq![0x25u8, high].skip(1) =~= seq![high]);
    assert(seq![0x25u8].skip(1) =~= Seq::empty());
    reveal_with_fuel(percent_decoded, 2);
    assert(percent_decoded(Seq::empty()) =~= Seq::<char>::empty());
    assert(escape(seq![0x25u8]) is None);
    assert(percent_decoded(seq![0x25u8]) =~= seq!['%']);
}

/// A text is a URI of a scheme exactly if it begins with it.
pub proof fn law_scheme(s: Seq<char>, scheme: Seq<char>, rest: Seq<char>)
    ensures
        uri_parts(scheme + rest, scheme) is Some,
        uri_parts(s, scheme) is Some ==> s == scheme + s.skip(scheme.len() as int),
{
    assert((scheme + rest).subrange(0, scheme.len() as int) =~= scheme);
    if scheme.is_prefix_of(s) {
        assert(s =~= scheme + s.skip(scheme.len() as int));
    }
}

/// A URI that is a key alone, or a key and an empty query, names no relay and no secret.
pub proof fn law_bare_uri(scheme: Seq<char>, key: Seq<char>)
    requires
        !key.contains('?'),
    ensures
        uri_parts(scheme + key, scheme) == Some(
            PartsView { key, relays: Seq::empty(), secret: None },
        ),
        uri_parts(scheme + (key + seq!['?']), scheme) == Some(
            PartsView { key, relays: Seq::empty(), secret: None },
        ),
{
    law_scheme(scheme, scheme, key);
    law_scheme(scheme, scheme, key + seq!['?']);
    assert((scheme + key).skip(scheme.len() as int) =~= key);
    assert((scheme + (key + seq!['?'])).skip(scheme.len() as int) =~= key + seq!['?']);
    key.index_of_first_ensures('?');
    lemma_cut_at(key, '?', Seq::empty());
    assert(key + seq!['?'] + Seq::<char>::empty() =~= key + seq!['?']);
    lemma_empty_query();
}

proof fn lemma_empty_query()
    ensures
        values(fields(Seq::empty()), "relay"@) == Seq::<Seq<char>>::empty(),
        values(fields(Seq::empty()), "secret"@) == Seq::<Seq<char>>::empty(),
{
    let none = Seq::<char>::empty();
    none.index_of_first_ensures('&');
    none.index_of_first_ensures('=');
    reveal(Seq::filter);
    assert(fields(none) =~= Seq::empty());
    assert(values(fields(none), "relay"@) =~= Seq::<Seq<char>>::empty());
    assert(values(fields(none), "secret"@) =~= Seq::<Seq<char>>::empty());
}

/// A URI with a query.
pub open spec fn with_query(scheme: Seq<char>, key: Seq<char>, query: Seq<char>) -> Seq<char> {
    scheme + (key + seq!['?'] + query)
}

proof fn lemma_parts_of_query(scheme: Seq<char>, key: Seq<char>, query: Seq<char>)
    requires
        !key.contains('?'),
    ensures
        uri_parts(with_query(scheme, key, query), scheme) matches Some(p) && p.key == key && p.relays
            == values(fields(query), "relay"@) && (values(fields(query), "secret"@).len() == 0
            ==> p.secret is None) && (values(fields(query), "secret"@).len() > 0 ==> p.secret
            == Some(values(fields(query), "secret"@).last())),
{
    let rest = key + seq!['?'] + query;
    law_scheme(scheme, scheme, rest);
    assert((scheme + rest).skip(scheme.len() as int) =~= rest);
    lemma_cut_at(key, '?', query);
    key.index_of_first_ensures('?');
}

/// One more relay in a query is one more relay, behind the others; one more secret is the secret,
/// whatever it was; and a field of any other name, or a piece without an equals sign, changes
/// nothing.
pub proof fn law_one_more_piece(
    scheme: Seq<char>,
    key: Seq<char>,
    query: Seq<char>,
    written: Seq<char>,
    value: Seq<char>,
    name: Seq<char>,
)
    requires
        !key.contains('?'),
        stands_for(written, value),
        !name.contains('=') && !name.contains('&'),
    ensures
        ({
            let before = uri_parts(with_query(scheme, key, query), scheme);
            let after = |piece: Seq<char>| uri_parts(
                with_query(scheme, key, query + seq!['&'] + piece),
                scheme,
            );
            &&& before matches Some(p) && after("relay"@ + seq!['='] + written) == Some(
                PartsView { relays: p.relays.push(value), ..p },
            )
            &&& before matches Some(p) && after("secret"@ + seq!['='] + written) == Some(
                PartsView { secret: Some(value), ..p },
            )
            &&& name != "relay"@ && name != "secret"@ ==> after(name + seq!['='] + written)
                == before
            &&& after(name) == before
        }),
{
    reveal_strlit("relay");
    reveal_strlit("secret");
    assert("relay"@.len() != "secret"@.len());
    lemma_parts_of_query(scheme, key, query);
    lemma_more(scheme, key, query, "relay"@, written, value);
    lemma_more(scheme, key, query, "secret"@, written, value);
    lemma_more(scheme, key, query, name, written, value);
    lemma_parts_of_query(scheme, key, query + seq!['&'] + name);
    name.index_of_first_ensures('=');
    law_other_fields_are_ignored(query, name, "relay"@);
    law_other_fields_are_ignored(query, name, "secret"@);
}

proof fn lemma_more(
    scheme: Seq<char>,
    key: Seq<char>,
    query: Seq<char>,
    name: Seq<char>,
    written: Seq<char>,
    value: Seq<char>,
)
    requires
        !key.contains('?'),
        stands_for(written, value),
        !name.contains('=') && !name.contains('&'),
    ensures
        uri_parts(with_query(scheme, key, query), scheme) is Some,
        uri_parts(
            with_query(scheme, key, query + seq!['&'] + (name + seq!['='] + written)),
            scheme,
        ) == Some(
            PartsView {
                key,
                relays: if name == "relay"@ {
                    uri_parts(with_query(scheme, key, query), scheme)->0.relays.push(value)
                } else {
                    uri_parts(with_query(scheme, key, query), scheme)->0.relays
                },
                secret: if name == "secret"@ {
                    Some(value)
                } else {
                    uri_parts(with_query(scheme, key, query), scheme)->0.secret
                },
            },
        ),
{
    let piece = written_field(name, written);
    lemma_parts_of_query(scheme, key, query);
    lemma_parts_of_query(scheme, key, query + seq!['&'] + piece);
    lemma_written_field(name, written, value);
    law_fields_of_pieces(query, piece);
    assert(fields(piece) == seq![(name, value)]);
    lemma_values_add(fields(query), fields(piece), "relay"@);
    lemma_values_add(fields(query), fields(piece), "secret"@);
    lemma_values_one((name, value), "relay"@);
    lemma_values_one((name, value), "secret"@);
    let relays = values(fields(query), "relay"@);
    let secrets = values(fields(query), "secret"@);
    assert(relays + seq![value] =~= relays.push(value));
    assert(relays + Seq::empty() =~= relays);
    assert((secrets + seq![value]).last() == value);
    assert(secrets + Seq::empty() =~= secrets);
}

/// What the parts of a URI are seen as is all that they hold.
pub proof fn law_parts_are_seen_whole(p: UriParts)
    ensures
        p@.key == p.key@,
        p@.relays.len() == p.relays@.len(),
        forall|i: int| 0 <= i < p.relays@.len() ==> #[trigger] p@.relays[i] == p.relays@[i]@,
        p.secret matches Some(s) ==> p@.secret == Some(s@),
        p.secret is None ==> p@.secret is None,
{
}

/// A piece of a query with an equals sign is a field: its name is what stands before the first one,
/// and its value is the rest, decoded. Fields are seen whole.
pub proof fn law_field(name: Seq<char>, value: Seq<char>, list: Seq<(String, String)>, i: int)
    requires
        !name.contains('='),
    ensures
        field(name + seq!['='] + value) == Some((name, percent_decoded(encode_utf8(value)))),
        field(name) is None,
        field_texts(list).len() == list.len(),
        0 <= i < list.len() ==> field_texts(list)[i] == (list[i].0@, list[i].1@),
{
    lemma_cut_at(name, '=', value);
    name.index_of_first_ensures('=');
}

/// The values of a name among fields are those of the fields with that name, in order, and those of
/// two lists are those of the first and of the second.
pub proof fn law_values(
    a: Seq<(Seq<char>, Seq<char>)>,
    b: Seq<(Seq<char>, Seq<char>)>,
    item: (Seq<char>, Seq<char>),
    name: Seq<char>,
)
    ensures
        values(a + b, name) == values(a, name) + values(b, name),
        item.0 == name ==> values(seq![item], name) == seq![item.1],
        item.0 != name ==> values(seq![item], name) == Seq::<Seq<char>>::empty(),
{
    lemma_values_add(a, b, name);
    lemma_values_one(item, name);
}

} // verus!
