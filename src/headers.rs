use vstd::prelude::*;

verus! {

/// The sets of characters the header-list parser strips from the ends of a
/// piece of text.
#[derive(Clone, Copy, Debug, PartialEq, Eq, Structural)]
pub enum CharClass {
    /// `[` and `]`.
    Brackets,
    /// `(` and `)`.
    Parens,
    /// `,`.
    Comma,
    /// Unicode white space, as `char::is_whitespace` has it.
    Space,
}

/// The characters with the Unicode White_Space property.
pub open spec fn spec_is_white_space(c: char) -> bool {
    ('\u{9}' <= c && c <= '\u{d}') || c == ' ' || c == '\u{85}' || c == '\u{a0}'
        || c == '\u{1680}' || ('\u{2000}' <= c && c <= '\u{200a}') || c == '\u{2028}'
        || c == '\u{2029}' || c == '\u{202f}' || c == '\u{205f}' || c == '\u{3000}'
}

pub open spec fn spec_in_class(c: char, cls: CharClass) -> bool {
    match cls {
        CharClass::Brackets => c == '[' || c == ']',
        CharClass::Parens => c == '(' || c == ')',
        CharClass::Comma => c == ',',
        CharClass::Space => spec_is_white_space(c),
    }
}

pub fn in_class(c: char, cls: CharClass) -> (r: bool)
    ensures
        r == spec_in_class(c, cls),
{
    match cls {
        CharClass::Brackets => c == '[' || c == ']',
        CharClass::Parens => c == '(' || c == ')',
        CharClass::Comma => c == ',',
        CharClass::Space => {
            ('\u{9}' <= c && c <= '\u{d}') || c == ' ' || c == '\u{85}' || c == '\u{a0}'
                || c == '\u{1680}' || ('\u{2000}' <= c && c <= '\u{200a}') || c == '\u{2028}'
                || c == '\u{2029}' || c == '\u{202f}' || c == '\u{205f}' || c == '\u{3000}'
        },
    }
}

/// `s` without its leading characters of `cls`.
pub open spec fn strip_front(s: Seq<char>, cls: CharClass) -> Seq<char>
    decreases s.len(),
{
    if s.len() > 0 && spec_in_class(s[0], cls) {
        strip_front(s.drop_first(), cls)
    } else {
        s
    }
}

/// `s` without its trailing characters of `cls`.
pub open spec fn strip_back(s: Seq<char>, cls: CharClass) -> Seq<char>
    decreases s.len(),
{
    if s.len() > 0 && spec_in_class(s.last(), cls) {
        strip_back(s.drop_last(), cls)
    } else {
        s
    }
}

/// `s` without the characters of `cls` at either end.
pub open spec fn trim_class(s: Seq<char>, cls: CharClass) -> Seq<char> {
    strip_back(strip_front(s, cls), cls)
}

/// `s` cut at every `sep`: one piece more than there are separators, empty
/// pieces included.
pub open spec fn split_at_char(s: Seq<char>, sep: char) -> Seq<Seq<char>>
    decreases s.len(),
{
    if s.len() == 0 {
        seq![Seq::<char>::empty()]
    } else {
        let init = split_at_char(s.drop_last(), sep);
        if s.last() == sep {
            init.push(Seq::<char>::empty())
        } else {
            init.update(init.len() - 1, init.last().push(s.last()))
        }
    }
}

/// The characters of `v` without those of `cls` at either end.
pub fn trim_chars(v: &Vec<char>, cls: CharClass) -> (r: Vec<char>)
    ensures
        r@ == trim_class(v@, cls),
{
    let n = v.len();
    let mut lo: usize = 0;
    assert(v@.subrange(0, n as int) =~= v@);
    while lo < n && in_class(v[lo], cls)
        invariant
            n == v@.len(),
            lo <= n,
            strip_front(v@, cls) == strip_front(v@.subrange(lo as int, n as int), cls),
        decreases n - lo,
    {
        proof {
            assert(v@.subrange(lo as int, n as int)[0] == v@[lo as int]);
            assert(v@.subrange(lo as int, n as int).drop_first() =~= v@.subrange(
                lo + 1,
                n as int,
            ));
        }
        lo = lo + 1;
    }
    proof {
        let t = v@.subrange(lo as int, n as int);
        if t.len() > 0 {
            assert(t[0] == v@[lo as int]);
        }
        assert(strip_front(v@, cls) == t);
    }
    let mut hi: usize = n;
    while hi > lo && in_class(v[hi - 1], cls)
        invariant
            n == v@.len(),
            lo <= hi <= n,
            strip_back(v@.subrange(lo as int, n as int), cls) == strip_back(
                v@.subrange(lo as int, hi as int),
                cls,
            ),
        decreases hi - lo,
    {
        proof {
            assert(v@.subrange(lo as int, hi as int).last() == v@[hi - 1]);
            assert(v@.subrange(lo as int, hi as int).drop_last() =~= v@.subrange(
                lo as int,
                hi - 1,
            ));
        }
        hi = hi - 1;
    }
    let mut r: Vec<char> = Vec::new();
    let mut i: usize = lo;
    while i < hi
        invariant
            n == v@.len(),
            lo <= i <= hi <= n,
            r@ =~= v@.subrange(lo as int, i as int),
        decreases hi - i,
    {
        r.push(v[i]);
        i = i + 1;
    }
    proof {
        let t = v@.subrange(lo as int, hi as int);
        if t.len() > 0 {
            assert(t.last() == v@[hi - 1]);
        }
        assert(r@ =~= t);
    }
    r
}

/// The characters of `v` cut at every `sep`, as `split_at_char` has it.
pub fn split_chars(v: &Vec<char>, sep: char) -> (r: Vec<Vec<char>>)
    ensures
        r@.map_values(|p: Vec<char>| p@) == split_at_char(v@, sep),
{
    let mut pieces: Vec<Vec<char>> = Vec::new();
    let mut cur: Vec<char> = Vec::new();
    let mut i: usize = 0;
    assert(v@.take(0) =~= Seq::<char>::empty());
    assert(pieces@.map_values(|p: Vec<char>| p@).push(cur@) =~= seq![Seq::<char>::empty()]);
    while i < v.len()
        invariant
            i <= v@.len(),
            pieces@.map_values(|p: Vec<char>| p@).push(cur@) == split_at_char(v@.take(i as int), sep),
        decreases v@.len() - i,
    {
        let c = v[i];
        proof {
            assert(v@.take(i + 1).drop_last() =~= v@.take(i as int));
            assert(v@.take(i + 1).last() == c);
        }
        let ghost before = pieces@.map_values(|p: Vec<char>| p@).push(cur@);
        if c == sep {
            pieces.push(cur);
            cur = Vec::new();
            assert(pieces@.map_values(|p: Vec<char>| p@).push(cur@) =~= before.push(
                Seq::<char>::empty(),
            ));
        } else {
            cur.push(c);
            assert(pieces@.map_values(|p: Vec<char>| p@).push(cur@) =~= before.update(
                before.len() - 1,
                before.last().push(c),
            ));
        }
        i = i + 1;
    }
    assert(v@.take(v@.len() as int) =~= v@);
    pieces.push(cur);
    assert(pieces@.map_values(|p: Vec<char>| p@) =~= split_at_char(v@, sep));
    pieces
}

/// The key and value one piece of the list gives, if it gives any: the piece
/// without commas, then white space, then parentheses at its ends must hold
/// exactly one comma; both sides of it, without white space at their ends,
/// are the pair.
pub open spec fn pair_of(piece: Seq<char>) -> Option<(Seq<char>, Seq<char>)> {
    let body = trim_class(
        trim_class(trim_class(piece, CharClass::Comma), CharClass::Space),
        CharClass::Parens,
    );
    let fields = split_at_char(body, ',');
    if fields.len() == 2 {
        Some((trim_class(fields[0], CharClass::Space), trim_class(fields[1], CharClass::Space)))
    } else {
        None
    }
}

/// The pairs that `pieces` give, in order; a piece that gives none is
/// dropped.
pub open spec fn pairs_of(pieces: Seq<Seq<char>>) -> Seq<(Seq<char>, Seq<char>)>
    decreases pieces.len(),
{
    if pieces.len() == 0 {
        Seq::empty()
    } else {
        let init = pairs_of(pieces.drop_last());
        match pair_of(pieces.last()) {
            Some(p) => init.push(p),
            None => init,
        }
    }
}

/// The header list written as `[(k1, v1), (k2, v2)]`: the text without
/// brackets at its ends, cut at every `)`, each piece read by `pair_of`.
pub open spec fn parse_header_list(s: Seq<char>) -> Seq<(Seq<char>, Seq<char>)> {
    pairs_of(split_at_char(trim_class(s, CharClass::Brackets), ')'))
}

/// A list of header names and values.
pub struct Headers {
    pub h: Vec<(String, String)>,
}

impl View for Headers {
    type V = Seq<(Seq<char>, Seq<char>)>;

    open spec fn view(&self) -> Seq<(Seq<char>, Seq<char>)> {
        self.h@.map_values(|p: (String, String)| (p.0@, p.1@))
    }
}

/// Relies on `str::chars`, collected into a `Vec`: the characters of `s` in
/// order.
#[verifier::external_body]
fn chars_of(s: &str) -> (r: Vec<char>)
    ensures
        r@ == s@,
{
    s.chars().collect()
}

/// Relies on `String`'s `FromIterator<char>`: the string of the characters of
/// `v` in order.
#[verifier::external_body]
fn string_of(v: &Vec<char>) -> (r: String)
    ensures
        r@ == v@,
{
    v.iter().collect()
}

/// The pair `piece` gives, as `pair_of` has it.
fn read_pair(piece: &Vec<char>) -> (r: Option<(String, String)>)
    ensures
        match pair_of(piece@) {
            Some(p) => r is Some && (r->0).0@ == p.0 && (r->0).1@ == p.1,
            None => r is None,
        },
{
    let a = trim_chars(piece, CharClass::Comma);
    let b = trim_chars(&a, CharClass::Space);
    let body = trim_chars(&b, CharClass::Parens);
    let fields = split_chars(&body, ',');
    proof {
        assert(fields@.len() == fields@.map_values(|p: Vec<char>| p@).len());
    }
    if fields.len() == 2 {
        proof {
            assert(fields@.map_values(|p: Vec<char>| p@)[0] == fields@[0]@);
            assert(fields@.map_values(|p: Vec<char>| p@)[1] == fields@[1]@);
        }
        let k = trim_chars(&fields[0], CharClass::Space);
        let v = trim_chars(&fields[1], CharClass::Space);
        Some((string_of(&k), string_of(&v)))
    } else {
        None
    }
}

impl Headers {
    /// Reads a header list written as `[(name, value), (name, value)]`. A
    /// piece that does not hold exactly one name and one value is dropped;
    /// reading never fails.
    pub fn parse(s: &str) -> (r: Headers)
        ensures
            r@ == parse_header_list(s@),
    {
        let chars = chars_of(s);
        let inner = trim_chars(&chars, CharClass::Brackets);
        let pieces = split_chars(&inner, ')');
        let ghost ps = pieces@.map_values(|p: Vec<char>| p@);
        let mut h: Vec<(String, String)> = Vec::new();
        let mut i: usize = 0;
        assert(ps.take(0) =~= Seq::<Seq<char>>::empty());
        while i < pieces.len()
            invariant
                i <= pieces@.len(),
                ps == pieces@.map_values(|p: Vec<char>| p@),
                h@.map_values(|p: (String, String)| (p.0@, p.1@)) == pairs_of(ps.take(i as int)),
            decreases pieces@.len() - i,
        {
            proof {
                assert(ps.take(i + 1).drop_last() =~= ps.take(i as int));
                assert(ps.take(i + 1).last() == pieces@[i as int]@);
            }
            let ghost before = h@.map_values(|p: (String, String)| (p.0@, p.1@));
            match read_pair(&pieces[i]) {
                Some(p) => {
                    h.push(p);
                    assert(h@.map_values(|p: (String, String)| (p.0@, p.1@)) =~= before.push(
                        pair_of(ps[i as int])->0,
                    ));
                },
                None => {},
            }
            i = i + 1;
        }
        assert(ps.take(pieces@.len() as int) =~= ps);
        Headers { h }
    }
}

} // verus!
