//! Text on the character level: comparing, joining, searching and cutting.
use vstd::prelude::*;
use vstd::string::*;
use vstd::utf8::*;

verus! {

/// `String::push` appends one character.
pub assume_specification[ String::push ](s: &mut String, c: char)
    ensures
        final(s)@ == old(s)@.push(c),
;

/// The text that a text shows for debugging: quoted, with what cannot be seen escaped.
pub uninterp spec fn text_debug(s: Seq<char>) -> Seq<char>;

/// `Debug` of a text.
#[verifier::external_body]
pub(crate) fn quoted(s: &str) -> (r: String)
    ensures
        r@ == text_debug(s@),
{
    format!("{s:?}")
}

/// Whether two texts hold the same characters.
pub fn same(a: &str, b: &str) -> (r: bool)
    ensures
        r == (a@ == b@),
{
    broadcast use encode_utf8_decode_utf8;

    let x = a.as_bytes();
    let y = b.as_bytes();
    assert(decode_utf8(x@) == a@);
    assert(decode_utf8(y@) == b@);
    if x.len() != y.len() {
        return false;
    }
    let mut i: usize = 0;
    while i < x.len()
        invariant
            i <= x.len(),
            x.len() == y.len(),
            decode_utf8(x@) == a@,
            decode_utf8(y@) == b@,
            x@ == encode_utf8(a@),
            y@ == encode_utf8(b@),
            forall|j: int| 0 <= j < i ==> x@[j] == y@[j],
        decreases x.len() - i,
    {
        if x[i] != y[i] {
            return false;
        }
        i += 1;
    }
    assert(x@ =~= y@);
    true
}

/// The characters of a text, one by one.
pub fn characters(s: &str) -> (r: Vec<char>)
    ensures
        r@ == s@,
{
    let mut out: Vec<char> = Vec::new();
    for c in it: s.chars()
        invariant
            out@ == it.seq().take(it.index() as int),
            it.seq() == s@,
    {
        out.push(c);
    }
    out
}

/// The text that a run of characters spells.
pub fn spell(chars: &Vec<char>, from: usize, to: usize) -> (r: String)
    requires
        from <= to <= chars@.len(),
    ensures
        r@ == chars@.subrange(from as int, to as int),
{
    let mut out: String = String::new();
    let mut i: usize = from;
    while i < to
        invariant
            from <= i <= to <= chars@.len(),
            out@ == chars@.subrange(from as int, i as int),
        decreases to - i,
    {
        out.push(chars[i]);
        assert(chars@.subrange(from as int, i + 1) =~= chars@.subrange(from as int, i as int).push(
            chars@[i as int],
        ));
        i += 1;
    }
    out
}

/// One text after another.
pub fn concat(a: &str, b: &str) -> (r: String)
    ensures
        r@ == a@ + b@,
{
    let mut out: String = a.to_owned();
    out.append(b);
    out
}

/// Three texts, one after another.
pub fn concat3(a: &str, b: &str, c: &str) -> (r: String)
    ensures
        r@ == a@ + b@ + c@,
{
    let mut out: String = a.to_owned();
    out.append(b);
    out.append(c);
    out
}

/// The characters of each text of a list.
pub open spec fn texts(list: Seq<String>) -> Seq<Seq<char>> {
    list.map_values(|s: String| s@)
}

/// What stands before and after the first `mark`, or nothing where there is none.
pub open spec fn cut(s: Seq<char>, mark: char) -> Option<(Seq<char>, Seq<char>)> {
    match s.index_of_first(mark) {
        Some(i) => Some((s.take(i), s.skip(i + 1))),
        None => None,
    }
}

/// Where the first `mark` stands, from `from` on.
pub fn find(chars: &Vec<char>, from: usize, mark: char) -> (r: Option<usize>)
    requires
        from <= chars@.len(),
    ensures
        match r {
            Some(i) => from <= i < chars@.len() && cut(chars@.skip(from as int), mark) == Some(
                (
                    chars@.subrange(from as int, i as int),
                    chars@.subrange(i + 1, chars@.len() as int),
                ),
            ),
            None => cut(chars@.skip(from as int), mark) is None,
        },
{
    let ghost rest = chars@.skip(from as int);
    proof {
        rest.index_of_first_ensures(mark);
    }
    let mut i: usize = from;
    while i < chars.len()
        invariant
            from <= i <= chars@.len(),
            rest == chars@.skip(from as int),
            forall|j: int| from <= j < i ==> chars@[j] != mark,
            match rest.index_of_first(mark) {
                Some(k) => 0 <= k < rest.len() && rest[k] == mark && (forall|j: int|
                    0 <= j < k < rest.len() ==> rest[j] != mark),
                None => forall|j: int| 0 <= j < rest.len() ==> rest[j] != mark,
            },
        decreases chars.len() - i,
    {
        if chars[i] == mark {
            proof {
                assert(rest[i - from] == mark);
                let k = rest.index_of_first(mark)->0;
                assert(chars@[from + k] == rest[k]);
                assert(k == i - from);
                assert(rest.take(k) =~= chars@.subrange(from as int, i as int));
                assert(rest.skip(k + 1) =~= chars@.subrange(i + 1, chars@.len() as int));
            }
            return Some(i);
        }
        i += 1;
    }
    proof {
        if rest.index_of_first(mark) is Some {
            let k = rest.index_of_first(mark)->0;
            assert(chars@[from + k] == rest[k]);
        }
    }
    None
}

/// Whether `needle` stands somewhere in `hay`.
pub open spec fn holds_text(hay: Seq<char>, needle: Seq<char>) -> bool {
    exists|i: int|
        0 <= i && i + needle.len() <= hay.len() && #[trigger] hay.subrange(i, i + needle.len())
            == needle
}

/// Whether `needle` stands in `hay` at `at`.
fn stands_at(hay: &Vec<char>, at: usize, needle: &Vec<char>) -> (r: bool)
    requires
        at + needle@.len() <= hay@.len(),
    ensures
        r == (hay@.subrange(at as int, at + needle@.len()) == needle@),
{
    let size: usize = hay.len();
    let mut j: usize = 0;
    while j < needle.len()
        invariant
            j <= needle@.len(),
            size == hay@.len(),
            at + needle@.len() <= size,
            forall|k: int| 0 <= k < j ==> hay@[at + k] == needle@[k],
        decreases needle.len() - j,
    {
        if hay[at + j] != needle[j] {
            assert(hay@.subrange(at as int, at + needle@.len())[j as int] != needle@[j as int]);
            return false;
        }
        j += 1;
    }
    assert(hay@.subrange(at as int, at + needle@.len()) =~= needle@);
    true
}

/// Whether `needle` stands somewhere in `hay`.
pub fn contains(hay: &str, needle: &str) -> (r: bool)
    ensures
        r == holds_text(hay@, needle@),
{
    let h: Vec<char> = characters(hay);
    let n: Vec<char> = characters(needle);
    if n.len() > h.len() {
        return false;
    }
    let last: usize = h.len() - n.len();
    let mut i: usize = 0;
    while i < last
        invariant
            i <= last,
            last == h@.len() - n@.len(),
            h@ == hay@,
            n@ == needle@,
            forall|k: int| 0 <= k < i ==> #[trigger] h@.subrange(k, k + n@.len()) != n@,
        decreases last - i,
    {
        if stands_at(&h, i, &n) {
            return true;
        }
        i += 1;
    }
    stands_at(&h, last, &n)
}

/// The texts of a list with `sep` between each and the next.
pub open spec fn joined(list: Seq<Seq<char>>, sep: Seq<char>) -> Seq<char>
    decreases list.len(),
{
    if list.len() == 0 {
        Seq::empty()
    } else if list.len() == 1 {
        list[0]
    } else {
        joined(list.drop_last(), sep) + sep + list.last()
    }
}

/// Joins the texts of a list with `sep` between each and the next.
pub fn join_with(list: &Vec<String>, sep: &str) -> (r: String)
    ensures
        r@ == joined(texts(list@), sep@),
{
    let mut out: String = String::new();
    let mut i: usize = 0;
    while i < list.len()
        invariant
            i <= list@.len(),
            out@ == joined(texts(list@).take(i as int), sep@),
        decreases list.len() - i,
    {
        if i > 0 {
            out.append(sep);
        }
        out.append(list[i].as_str());
        proof {
            let now = texts(list@).take(i + 1);
            assert(now.drop_last() =~= texts(list@).take(i as int));
            assert(now.last() == list@[i as int]@);
            if i == 0 {
                assert(out@ =~= now[0]);
            }
        }
        i += 1;
    }
    assert(texts(list@).take(list@.len() as int) =~= texts(list@));
    out
}

/// The texts of a list are each of them, in order.
pub proof fn law_texts(list: Seq<String>, i: int)
    ensures
        texts(list).len() == list.len(),
        0 <= i < list.len() ==> texts(list)[i] == list[i]@,
{
}

/// A text is cut at its first mark, and put together again it is what it was.
pub proof fn law_cut(s: Seq<char>, mark: char)
    ensures
        cut(s, mark) matches Some((a, b)) ==> s == a + seq![mark] + b && !a.contains(mark),
        cut(s, mark) is None ==> !s.contains(mark),
{
    s.index_of_first_ensures(mark);
    if s.contains(mark) {
        let i = s.index_of_first(mark)->0;
        assert(s =~= s.take(i) + seq![mark] + s.skip(i + 1));
        if s.take(i).contains(mark) {
            let j = choose|j: int| 0 <= j < s.take(i).len() && s.take(i)[j] == mark;
            assert(s[j] == mark);
        }
    }
}

/// A text stands in another exactly if that is what comes before it, the text, and what comes
/// behind it.
pub proof fn law_holds_text(a: Seq<char>, needle: Seq<char>, b: Seq<char>, hay: Seq<char>)
    ensures
        holds_text(a + needle + b, needle),
        holds_text(hay, needle) ==> exists|x: Seq<char>, y: Seq<char>| #[trigger]
            (x + needle + y) == hay,
{
    let all = a + needle + b;
    let i = a.len() as int;
    assert(all.subrange(i, i + needle.len()) =~= needle);
    if holds_text(hay, needle) {
        let i = choose|i: int|
            0 <= i && i + needle.len() <= hay.len() && #[trigger] hay.subrange(i, i + needle.len())
                == needle;
        assert(hay =~= hay.take(i) + needle + hay.skip(i + needle.len()));
    }
}

/// Lists are joined by joining their parts, with the separator between the parts that are there.
pub proof fn law_joined_by_parts(a: Seq<Seq<char>>, b: Seq<Seq<char>>, x: Seq<char>, sep: Seq<char>)
    ensures
        joined(Seq::empty(), sep) == Seq::<char>::empty(),
        joined(seq![x], sep) == x,
        a.len() > 0 && b.len() > 0 ==> joined(a + b, sep) == joined(a, sep) + sep + joined(b, sep),
    decreases b.len(),
{
    if a.len() > 0 && b.len() > 0 {
        assert((a + b).drop_last() =~= a + b.drop_last());
        assert((a + b).last() == b.last());
        if b.len() == 1 {
            assert(a + b.drop_last() =~= a);
        } else {
            law_joined_by_parts(a, b.drop_last(), x, sep);
            assert(joined(a + b, sep) =~= joined(a, sep) + sep + joined(b, sep));
        }
    }
}

} // verus!
