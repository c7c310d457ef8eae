//! A model of the text operations the paper generator relies on: splitting a
//! text into words, sentences and paragraphs, trimming, taking a prefix of
//! characters, measuring the UTF-8 length and joining pieces with a separator.
//!
//! Every operation works on a sequence of Unicode scalar values (`Vec<char>`),
//! and each has a spec function over `Seq<char>` that says what it computes.
use vstd::prelude::*;
use vstd::string::StringExecFns;
use crate::transformer::take_items;

verus! {

// ---------------------------------------------------------------------------
// Characters
// ---------------------------------------------------------------------------

/// The Unicode `White_Space` property, which is what `char::is_whitespace`
/// tests (and therefore what `str::split_whitespace` and `str::trim` use).
pub open spec fn is_ws(c: char) -> bool {
    let u = c as u32;
    ||| 0x9 <= u <= 0xD
    ||| u == 0x20
    ||| u == 0x85
    ||| u == 0xA0
    ||| u == 0x1680
    ||| 0x2000 <= u <= 0x200A
    ||| u == 0x2028
    ||| u == 0x2029
    ||| u == 0x202F
    ||| u == 0x205F
    ||| u == 0x3000
}

/// Executable whitespace test.
pub fn is_whitespace(c: char) -> (r: bool)
    ensures
        r == is_ws(c),
{
    let u = c as u32;
    (0x9 <= u && u <= 0xD) || u == 0x20 || u == 0x85 || u == 0xA0 || u == 0x1680 || (0x2000
        <= u && u <= 0x200A) || u == 0x2028 || u == 0x2029 || u == 0x202F || u == 0x205F || u
        == 0x3000
}

/// The kinds of single-character delimiters a text is split at.
#[derive(Clone, Copy, PartialEq, Eq, Debug)]
pub enum Delim {
    /// Any whitespace character.
    Whitespace,
    /// A sentence end: `.`, `!` or `?`.
    SentenceEnd,
}

pub open spec fn is_delim(d: Delim, c: char) -> bool {
    match d {
        Delim::Whitespace => is_ws(c),
        Delim::SentenceEnd => c == '.' || c == '!' || c == '?',
    }
}

pub fn delim_test(d: Delim, c: char) -> (r: bool)
    ensures
        r == is_delim(d, c),
{
    match d {
        Delim::Whitespace => is_whitespace(c),
        Delim::SentenceEnd => c == '.' || c == '!' || c == '?',
    }
}

/// Number of bytes of the UTF-8 encoding of `c`.
pub open spec fn utf8_width(c: char) -> nat {
    let u = c as u32;
    if u < 0x80 {
        1
    } else if u < 0x800 {
        2
    } else if u < 0x10000 {
        3
    } else {
        4
    }
}

/// Number of bytes of the UTF-8 encoding of `s` (what `str::len` returns).
pub open spec fn byte_len(s: Seq<char>) -> nat
    decreases s.len(),
{
    if s.len() == 0 {
        0
    } else {
        byte_len(s.drop_last()) + utf8_width(s.last())
    }
}

/// Whether every character of `s` is whitespace (so `s.trim()` is empty).
pub open spec fn is_blank(s: Seq<char>) -> bool {
    forall|i: int| 0 <= i < s.len() ==> is_ws(#[trigger] s[i])
}

/// The character sequences held by a sequence of character vectors.
pub open spec fn texts(v: Seq<Vec<char>>) -> Seq<Seq<char>> {
    Seq::new(v.len(), |i: int| v[i]@)
}

// ---------------------------------------------------------------------------
// Conversions between `str` and character vectors
// ---------------------------------------------------------------------------

/// The characters of `s`.
pub fn chars_of(s: &str) -> (r: Vec<char>)
    ensures
        r@ == s@,
{
    let mut r: Vec<char> = Vec::new();
    for c in it: s.chars()
        invariant
            r@ == it.seq().take(it.index() as int),
    {
        r.push(c);
    }
    r
}

/// The string made of the characters of `v`.
pub fn string_of(v: &Vec<char>) -> (r: String)
    ensures
        r@ == v@,
{
    let mut r = String::new();
    let mut i: usize = 0;
    while i < v.len()
        invariant
            i <= v.len(),
            r@ == v@.take(i as int),
        decreases v.len() - i,
    {
        r.push(v[i]);
        assert(v@.take(i + 1) == v@.take(i as int).push(v@[i as int]));
        i = i + 1;
    }
    assert(v@.take(v.len() as int) == v@);
    r
}

// ---------------------------------------------------------------------------
// Splitting at single characters
// ---------------------------------------------------------------------------

/// The pieces of `s` between the delimiter characters, in order; `n`
/// delimiters give `n + 1` pieces, some of which may be empty (this is
/// `str::split` with a character predicate).
pub open spec fn pieces(s: Seq<char>, d: Delim) -> Seq<Seq<char>>
    decreases s.len(),
{
    if s.len() == 0 {
        seq![Seq::<char>::empty()]
    } else {
        let p = pieces(s.drop_last(), d);
        if is_delim(d, s.last()) {
            p.push(Seq::<char>::empty())
        } else {
            p.update(p.len() - 1, p.last().push(s.last()))
        }
    }
}

pub proof fn lemma_pieces_nonempty(s: Seq<char>, d: Delim)
    ensures
        pieces(s, d).len() >= 1,
    decreases s.len(),
{
    if s.len() > 0 {
        lemma_pieces_nonempty(s.drop_last(), d);
    }
}

/// Splits `s` at every delimiter character.
pub fn split_pieces(s: &Vec<char>, d: Delim) -> (r: Vec<Vec<char>>)
    ensures
        texts(r@) == pieces(s@, d),
{
    let mut out: Vec<Vec<char>> = Vec::new();
    let mut cur: Vec<char> = Vec::new();
    let mut i: usize = 0;
    proof {
        assert(s@.take(0) == Seq::<char>::empty());
    }
    while i < s.len()
        invariant
            i <= s.len(),
            texts(out@).push(cur@) == pieces(s@.take(i as int), d),
        decreases s.len() - i,
    {
        let c = s[i];
        proof {
            let t = s@.take(i + 1);
            assert(t.drop_last() == s@.take(i as int));
            assert(t.last() == c);
            lemma_pieces_nonempty(s@.take(i as int), d);
        }
        if delim_test(d, c) {
            let done = cur;
            let ghost before = texts(out@);
            out.push(done);
            cur = Vec::new();
            proof {
                assert(texts(out@) =~= before.push(done@));
            }
        } else {
            cur.push(c);
        }
        i = i + 1;
    }
    proof {
        assert(s@.take(s.len() as int) == s@);
    }
    let ghost before = texts(out@);
    out.push(cur);
    proof {
        assert(texts(out@) =~= before.push(cur@));
    }
    out
}

// ---------------------------------------------------------------------------
// Splitting at blank lines
// ---------------------------------------------------------------------------

/// The paragraphs of `s`: the pieces between non-overlapping occurrences of
/// `"\n\n"`, matched from the left (this is `str::split("\n\n")`).
pub open spec fn paragraphs(s: Seq<char>) -> Seq<Seq<char>>
    decreases s.len(),
{
    if s.len() == 0 {
        seq![Seq::<char>::empty()]
    } else if s.len() >= 2 && s[0] == '\n' && s[1] == '\n' {
        seq![Seq::<char>::empty()] + paragraphs(s.skip(2))
    } else {
        let r = paragraphs(s.skip(1));
        r.update(0, seq![s[0]] + r[0])
    }
}

pub proof fn lemma_paragraphs_nonempty(s: Seq<char>)
    ensures
        paragraphs(s).len() >= 1,
    decreases s.len(),
{
    if s.len() >= 2 && s[0] == '\n' && s[1] == '\n' {
        lemma_paragraphs_nonempty(s.skip(2));
    } else if s.len() > 0 {
        lemma_paragraphs_nonempty(s.skip(1));
    }
}

/// The pieces already split off, the piece being built, and the paragraphs of
/// the rest of the text, put together.
pub open spec fn glue(done: Seq<Seq<char>>, cur: Seq<char>, rest: Seq<Seq<char>>) -> Seq<
    Seq<char>,
> {
    done + seq![cur + rest[0]] + rest.drop_first()
}

/// Splits `s` at every `"\n\n"`.
pub fn split_paragraphs(s: &Vec<char>) -> (r: Vec<Vec<char>>)
    ensures
        texts(r@) == paragraphs(s@),
{
    let mut out: Vec<Vec<char>> = Vec::new();
    let mut cur: Vec<char> = Vec::new();
    let mut i: usize = 0;
    let n = s.len();
    proof {
        assert(s@.skip(0) == s@);
        lemma_paragraphs_nonempty(s@);
        assert(texts(out@) =~= Seq::<Seq<char>>::empty());
        assert(glue(texts(out@), cur@, paragraphs(s@)) =~= paragraphs(s@));
    }
    while i < n
        invariant
            n == s.len(),
            i <= n,
            glue(texts(out@), cur@, paragraphs(s@.skip(i as int))) == paragraphs(s@),
        decreases n - i,
    {
        let ghost rest = s@.skip(i as int);
        if s[i] == '\n' && i + 1 < n && s[i + 1] == '\n' {
            proof {
                assert(rest[0] == '\n' && rest[1] == '\n');
                assert(rest.skip(2) == s@.skip(i + 2));
                lemma_paragraphs_nonempty(s@.skip(i + 2));
            }
            let ghost r2 = paragraphs(s@.skip(i + 2));
            let ghost before = texts(out@);
            let done = cur;
            out.push(done);
            cur = Vec::new();
            proof {
                assert(texts(out@) =~= before.push(done@));
                assert(paragraphs(rest) == seq![Seq::<char>::empty()] + r2);
                assert(glue(texts(out@), cur@, r2) =~= glue(before, done@, paragraphs(rest)));
            }
            i = i + 2;
        } else {
            proof {
                assert(rest.skip(1) == s@.skip(i + 1));
                lemma_paragraphs_nonempty(s@.skip(i + 1));
            }
            let ghost r1 = paragraphs(s@.skip(i + 1));
            let ghost old_cur = cur@;
            cur.push(s[i]);
            proof {
                assert(paragraphs(rest) == r1.update(0, seq![s@[i as int]] + r1[0]));
                assert(cur@ + r1[0] =~= old_cur + (seq![s@[i as int]] + r1[0]));
                assert(r1.update(0, seq![s@[i as int]] + r1[0]).drop_first() =~= r1.drop_first());
                assert(glue(texts(out@), cur@, r1) =~= glue(texts(out@), old_cur, paragraphs(rest)));
            }
            i = i + 1;
        }
    }
    proof {
        assert(s@.skip(n as int) == Seq::<char>::empty());
    }
    let ghost before = texts(out@);
    out.push(cur);
    proof {
        assert(texts(out@) =~= glue(before, cur@, seq![Seq::<char>::empty()]));
    }
    out
}

// ---------------------------------------------------------------------------
// Filtering pieces
// ---------------------------------------------------------------------------

/// Which pieces a filter keeps.
#[derive(Clone, Copy, PartialEq, Eq, Debug)]
pub enum Keep {
    /// Pieces with at least one character.
    NonEmpty,
    /// Pieces with at least one character that is not whitespace.
    NonBlank,
    /// Pieces whose UTF-8 encoding is longer than the given number of bytes.
    LongerThan(usize),
}

pub open spec fn keeps(k: Keep, p: Seq<char>) -> bool {
    match k {
        Keep::NonEmpty => p.len() > 0,
        Keep::NonBlank => !is_blank(p),
        Keep::LongerThan(n) => byte_len(p) > n,
    }
}

/// The pieces of `ps` that `k` keeps, in order.
pub open spec fn kept(ps: Seq<Seq<char>>, k: Keep) -> Seq<Seq<char>>
    decreases ps.len(),
{
    if ps.len() == 0 {
        Seq::empty()
    } else {
        let r = kept(ps.drop_last(), k);
        if keeps(k, ps.last()) {
            r.push(ps.last())
        } else {
            r
        }
    }
}

/// Whether every character of `p` is whitespace.
pub fn blank(p: &Vec<char>) -> (r: bool)
    ensures
        r == is_blank(p@),
{
    let mut i: usize = 0;
    while i < p.len()
        invariant
            i <= p.len(),
            forall|j: int| 0 <= j < i ==> is_ws(#[trigger] p@[j]),
        decreases p.len() - i,
    {
        if !is_whitespace(p[i]) {
            return false;
        }
        i = i + 1;
    }
    true
}

/// Whether the UTF-8 encoding of `p` is longer than `n` bytes.
pub fn longer_than(p: &Vec<char>, n: usize) -> (r: bool)
    ensures
        r == (byte_len(p@) > n),
{
    let mut total: usize = 0;
    let mut i: usize = 0;
    while i < p.len()
        invariant
            i <= p.len(),
            total == byte_len(p@.take(i as int)),
            total <= n,
        decreases p.len() - i,
    {
        let u = p[i] as u32;
        let w: usize = if u < 0x80 {
            1
        } else if u < 0x800 {
            2
        } else if u < 0x10000 {
            3
        } else {
            4
        };
        proof {
            assert(p@.take(i + 1).drop_last() == p@.take(i as int));
        }
        if w > n - total {
            proof {
                lemma_byte_len_prefix(p@, i + 1);
            }
            return true;
        }
        total = total + w;
        i = i + 1;
    }
    proof {
        assert(p@.take(p.len() as int) == p@);
    }
    false
}

/// The byte length of a prefix never exceeds that of the whole sequence.
pub proof fn lemma_byte_len_prefix(s: Seq<char>, k: int)
    requires
        0 <= k <= s.len(),
    ensures
        byte_len(s.take(k)) <= byte_len(s),
    decreases s.len() - k,
{
    if k < s.len() {
        lemma_byte_len_prefix(s, k + 1);
        assert(s.take(k + 1).drop_last() == s.take(k));
    } else {
        assert(s.take(k) == s);
    }
}

pub fn keep_test(k: Keep, p: &Vec<char>) -> (r: bool)
    ensures
        r == keeps(k, p@),
{
    match k {
        Keep::NonEmpty => p.len() > 0,
        Keep::NonBlank => !blank(p),
        Keep::LongerThan(n) => longer_than(p, n),
    }
}

/// Keeps the pieces of `ps` that `k` keeps.
pub fn keep_pieces(ps: &Vec<Vec<char>>, k: Keep) -> (r: Vec<Vec<char>>)
    ensures
        texts(r@) == kept(texts(ps@), k),
{
    let mut out: Vec<Vec<char>> = Vec::new();
    let mut i: usize = 0;
    let ghost all = texts(ps@);
    while i < ps.len()
        invariant
            i <= ps.len(),
            all == texts(ps@),
            texts(out@) == kept(all.take(i as int), k),
        decreases ps.len() - i,
    {
        proof {
            assert(all.take(i + 1).drop_last() == all.take(i as int));
            assert(all.take(i + 1).last() == ps@[i as int]@);
        }
        if keep_test(k, &ps[i]) {
            let ghost before = texts(out@);
            let p = ps[i].clone();
            out.push(p);
            proof {
                assert(texts(out@) =~= before.push(ps@[i as int]@));
            }
        }
        i = i + 1;
    }
    proof {
        assert(all.take(ps.len() as int) == all);
    }
    out
}

// ---------------------------------------------------------------------------
// Words, sentences
// ---------------------------------------------------------------------------

/// The words of `s`: the maximal runs of non-whitespace characters (this is
/// `str::split_whitespace`).
pub open spec fn words(s: Seq<char>) -> Seq<Seq<char>> {
    kept(pieces(s, Delim::Whitespace), Keep::NonEmpty)
}

/// The sentences of `s` that hold something other than whitespace.
pub open spec fn sentences(s: Seq<char>) -> Seq<Seq<char>> {
    kept(pieces(s, Delim::SentenceEnd), Keep::NonBlank)
}

/// The paragraphs of `s` that hold something other than whitespace.
pub open spec fn nonblank_paragraphs(s: Seq<char>) -> Seq<Seq<char>> {
    kept(paragraphs(s), Keep::NonBlank)
}

/// The words of `s`.
pub fn split_words(s: &Vec<char>) -> (r: Vec<Vec<char>>)
    ensures
        texts(r@) == words(s@),
{
    keep_pieces(&split_pieces(s, Delim::Whitespace), Keep::NonEmpty)
}

/// The sentences of `s` that are not blank.
pub fn split_sentences(s: &Vec<char>) -> (r: Vec<Vec<char>>)
    ensures
        texts(r@) == sentences(s@),
{
    keep_pieces(&split_pieces(s, Delim::SentenceEnd), Keep::NonBlank)
}

/// The paragraphs of `s` that are not blank.
pub fn split_nonblank_paragraphs(s: &Vec<char>) -> (r: Vec<Vec<char>>)
    ensures
        texts(r@) == nonblank_paragraphs(s@),
{
    keep_pieces(&split_paragraphs(s), Keep::NonBlank)
}

// ---------------------------------------------------------------------------
// Trimming, prefixes, joining
// ---------------------------------------------------------------------------

/// `s` without its leading whitespace.
pub open spec fn trim_start(s: Seq<char>) -> Seq<char>
    decreases s.len(),
{
    if s.len() > 0 && is_ws(s[0]) {
        trim_start(s.drop_first())
    } else {
        s
    }
}

/// `s` without its trailing whitespace.
pub open spec fn trim_end(s: Seq<char>) -> Seq<char>
    decreases s.len(),
{
    if s.len() > 0 && is_ws(s.last()) {
        trim_end(s.drop_last())
    } else {
        s
    }
}

/// `s` without its leading and trailing whitespace (this is `str::trim`).
pub open spec fn trim(s: Seq<char>) -> Seq<char> {
    trim_end(trim_start(s))
}

/// `s` without leading and trailing whitespace.
pub fn trimmed(s: &Vec<char>) -> (r: Vec<char>)
    ensures
        r@ == trim(s@),
{
    let n = s.len();
    let mut a: usize = 0;
    assert(s@.skip(0) == s@);
    while a < n && is_whitespace(s[a])
        invariant
            a <= n,
            n == s.len(),
            trim_start(s@) == trim_start(s@.skip(a as int)),
            forall|j: int| 0 <= j < a ==> is_ws(#[trigger] s@[j]),
        decreases n - a,
    {
        proof {
            assert(s@.skip(a as int).drop_first() == s@.skip(a + 1));
        }
        a = a + 1;
    }
    let mut b: usize = n;
    proof {
        assert(s@.skip(a as int).take((b - a) as int) == s@.skip(a as int));
    }
    while b > a && is_whitespace(s[b - 1])
        invariant
            a <= b <= n,
            n == s.len(),
            trim_start(s@) == s@.skip(a as int),
            trim(s@) == trim_end(s@.subrange(a as int, b as int)),
        decreases b - a,
    {
        proof {
            assert(s@.subrange(a as int, b as int).drop_last() == s@.subrange(a as int, b - 1));
        }
        b = b - 1;
    }
    let mut r: Vec<char> = Vec::new();
    let mut i: usize = a;
    while i < b
        invariant
            a <= i <= b <= n,
            n == s.len(),
            r@ == s@.subrange(a as int, i as int),
        decreases b - i,
    {
        r.push(s[i]);
        proof {
            assert(s@.subrange(a as int, i + 1) == s@.subrange(a as int, i as int).push(s@[i as int]));
        }
        i = i + 1;
    }
    r
}

/// The first `n` characters of `s`, or all of `s` if it is shorter (this is
/// `s.chars().take(n)`).
pub open spec fn take_chars(s: Seq<char>, n: nat) -> Seq<char> {
    if n < s.len() {
        s.take(n as int)
    } else {
        s
    }
}

/// The first `n` characters of `s`.
pub fn prefix_chars(s: &Vec<char>, n: usize) -> (r: Vec<char>)
    ensures
        r@ == take_chars(s@, n as nat),
{
    let mut r: Vec<char> = Vec::new();
    let mut i: usize = 0;
    while i < n && i < s.len()
        invariant
            i <= s.len(),
            i <= n,
            r@ == s@.take(i as int),
        decreases s.len() - i,
    {
        r.push(s[i]);
        proof {
            assert(s@.take(i + 1) == s@.take(i as int).push(s@[i as int]));
        }
        i = i + 1;
    }
    proof {
        if n >= s.len() {
            assert(s@.take(s.len() as int) == s@);
        }
    }
    r
}

/// The pieces of `ws` with `sep` between each two (this is `join`).
pub open spec fn join(ws: Seq<Seq<char>>, sep: Seq<char>) -> Seq<char>
    decreases ws.len(),
{
    if ws.len() == 0 {
        Seq::empty()
    } else if ws.len() == 1 {
        ws[0]
    } else {
        join(ws.drop_last(), sep) + sep + ws.last()
    }
}

/// Joins the pieces of `ws` with `sep`.
pub fn join_pieces(ws: &Vec<Vec<char>>, sep: &str) -> (r: Vec<char>)
    ensures
        r@ == join(texts(ws@), sep@),
{
    let sep_chars = chars_of(sep);
    let mut r: Vec<char> = Vec::new();
    let mut i: usize = 0;
    let ghost all = texts(ws@);
    while i < ws.len()
        invariant
            i <= ws.len(),
            all == texts(ws@),
            sep_chars@ == sep@,
            r@ == join(all.take(i as int), sep@),
        decreases ws.len() - i,
    {
        proof {
            assert(all.take(i + 1).drop_last() == all.take(i as int));
        }
        if i > 0 {
            append_chars(&mut r, &sep_chars);
        } else {
            assert(all.take(1) == seq![all[0]]);
        }
        append_chars(&mut r, &ws[i]);
        i = i + 1;
    }
    proof {
        assert(all.take(ws.len() as int) == all);
    }
    r
}

/// Appends the characters of `b` to `a`.
pub fn append_chars(a: &mut Vec<char>, b: &Vec<char>)
    ensures
        final(a)@ == old(a)@ + b@,
{
    let mut i: usize = 0;
    let ghost start = a@;
    while i < b.len()
        invariant
            i <= b.len(),
            a@ == start + b@.take(i as int),
        decreases b.len() - i,
    {
        a.push(b[i]);
        proof {
            assert(b@.take(i + 1) == b@.take(i as int).push(b@[i as int]));
        }
        i = i + 1;
    }
    proof {
        assert(b@.take(b.len() as int) == b@);
    }
}

/// Whether `s` begins with `prefix`.
pub fn starts_with(s: &str, prefix: &str) -> (r: bool)
    ensures
        r == (prefix@.len() <= s@.len() && s@.take(prefix@.len() as int) == prefix@),
{
    let x = chars_of(s);
    let p = chars_of(prefix);
    if p.len() > x.len() {
        return false;
    }
    let mut i: usize = 0;
    while i < p.len()
        invariant
            i <= p.len(),
            p.len() <= x.len(),
            x@ == s@,
            p@ == prefix@,
            forall|j: int| 0 <= j < i ==> x@[j] == p@[j],
        decreases p.len() - i,
    {
        if x[i] != p[i] {
            assert(s@.take(prefix@.len() as int)[i as int] != prefix@[i as int]);
            return false;
        }
        i = i + 1;
    }
    assert(s@.take(prefix@.len() as int) =~= prefix@);
    true
}

/// `s` with every newline replaced by a space.
pub open spec fn newlines_to_spaces(s: Seq<char>) -> Seq<char> {
    Seq::new(s.len(), |i: int| if s[i] == '\n' { ' ' } else { s[i] })
}

/// The longest prefix of `s` whose UTF-8 encoding has at most `n` bytes.
pub open spec fn bytes_prefix(s: Seq<char>, n: nat) -> Seq<char>
    decreases s.len(),
{
    if s.len() == 0 || utf8_width(s[0]) > n {
        Seq::empty()
    } else {
        seq![s[0]] + bytes_prefix(s.skip(1), (n - utf8_width(s[0])) as nat)
    }
}

/// Whether `s` is at most `max` bytes long, or byte `max` is the start of a
/// character (so that `&s[..max]` is allowed).
pub open spec fn cuttable(s: Seq<char>, max: nat) -> bool {
    byte_len(s) <= max || byte_len(bytes_prefix(s, max)) == max
}

/// `s` on one line, cut to `max` bytes and marked with `...` if it is longer.
pub open spec fn truncate_spec(s: Seq<char>, max: nat) -> Seq<char> {
    let t = newlines_to_spaces(s);
    if byte_len(t) > max {
        bytes_prefix(t, max) + "..."@
    } else {
        t
    }
}

proof fn lemma_bytes_prefix_step(s: Seq<char>, i: int, n: nat)
    requires
        0 <= i < s.len(),
        utf8_width(s[i]) <= n,
    ensures
        bytes_prefix(s.skip(i), n) == seq![s[i]] + bytes_prefix(s.skip(i + 1), (n - utf8_width(s[i])) as nat),
{
    assert(s.skip(i)[0] == s[i]);
    assert(s.skip(i).skip(1) =~= s.skip(i + 1));
}

/// Replaces every newline of `s` by a space, and cuts the result to `max`
/// bytes followed by `...` if it is longer.
pub fn truncate(s: &str, max: usize) -> (r: String)
    requires
        cuttable(newlines_to_spaces(s@), max as nat),
    ensures
        r@ == truncate_spec(s@, max as nat),
{
    let c = chars_of(s);
    let mut t: Vec<char> = Vec::new();
    let mut i: usize = 0;
    while i < c.len()
        invariant
            i <= c.len(),
            c@ == s@,
            t@ == newlines_to_spaces(s@).take(i as int),
        decreases c.len() - i,
    {
        if c[i] == '\n' {
            t.push(' ');
        } else {
            t.push(c[i]);
        }
        proof {
            assert(t@ =~= newlines_to_spaces(s@).take(i + 1));
        }
        i = i + 1;
    }
    proof {
        assert(t@ =~= newlines_to_spaces(s@));
    }
    if !longer_than(&t, max) {
        return string_of(&t);
    }
    let ghost full = t@;
    let mut cut: Vec<char> = Vec::new();
    let mut used: usize = 0;
    let mut j: usize = 0;
    let mut full_width = false;
    proof {
        assert(full.skip(0) =~= full);
        assert(cut@ + bytes_prefix(full.skip(0), max as nat) =~= bytes_prefix(full, max as nat));
    }
    while j < t.len() && !full_width
        invariant
            j <= t.len(),
            t@ == full,
            used <= max,
            cut@ + bytes_prefix(full.skip(j as int), (max - used) as nat) == bytes_prefix(full, max as nat),
            full_width ==> bytes_prefix(full.skip(j as int), (max - used) as nat) == Seq::<char>::empty(),
        decreases t.len() - j + (if full_width { 0int } else { 1int }),
    {
        let u = t[j] as u32;
        let w: usize = if u < 0x80 {
            1
        } else if u < 0x800 {
            2
        } else if u < 0x10000 {
            3
        } else {
            4
        };
        if w > max - used {
            proof {
                assert(full.skip(j as int)[0] == full[j as int]);
            }
            full_width = true;
        } else {
            proof {
                lemma_bytes_prefix_step(full, j as int, (max - used) as nat);
                assert(cut@.push(t@[j as int]) + bytes_prefix(full.skip(j + 1), (max - used - w) as nat)
                    =~= cut@ + (seq![full[j as int]] + bytes_prefix(full.skip(j + 1), (max - used - w) as nat)));
            }
            cut.push(t[j]);
            used = used + w;
            j = j + 1;
        }
    }
    proof {
        if !full_width {
            assert(full.skip(j as int) =~= Seq::<char>::empty());
        }
        assert(cut@ =~= cut@ + bytes_prefix(full.skip(j as int), (max - used) as nat));
    }
    let mut r = string_of(&cut);
    r.append("...");
    r
}

/// Whether `a` and `b` hold the same characters.
pub fn str_eq(a: &str, b: &str) -> (r: bool)
    ensures
        r == (a@ == b@),
{
    let x = chars_of(a);
    let y = chars_of(b);
    if x.len() != y.len() {
        return false;
    }
    let mut i: usize = 0;
    while i < x.len()
        invariant
            i <= x.len(),
            x.len() == y.len(),
            x@ == a@,
            y@ == b@,
            forall|j: int| 0 <= j < i ==> x@[j] == y@[j],
        decreases x.len() - i,
    {
        if x[i] != y[i] {
            return false;
        }
        i = i + 1;
    }
    assert(x@ =~= y@);
    true
}

// ---------------------------------------------------------------------------
// Laws
// ---------------------------------------------------------------------------

proof fn lemma_join_cons(a: Seq<char>, r: Seq<Seq<char>>, sep: Seq<char>)
    requires
        r.len() >= 1,
    ensures
        join(seq![a] + r, sep) == a + sep + join(r, sep),
    decreases r.len(),
{
    if r.len() == 1 {
        assert((seq![a] + r).drop_last() =~= seq![a]);
        assert(join(seq![a], sep) == a);
    } else {
        lemma_join_cons(a, r.drop_last(), sep);
        assert((seq![a] + r).drop_last() =~= seq![a] + r.drop_last());
        assert((seq![a] + r).last() == r.last());
        assert(a + sep + join(r.drop_last(), sep) + sep + r.last() =~= a + sep + (join(
            r.drop_last(),
            sep,
        ) + sep + r.last()));
    }
}

proof fn lemma_join_extend_first(p: Seq<char>, r: Seq<Seq<char>>, sep: Seq<char>)
    requires
        r.len() >= 1,
    ensures
        join(r.update(0, p + r[0]), sep) == p + join(r, sep),
    decreases r.len(),
{
    let u = r.update(0, p + r[0]);
    if r.len() == 1 {
    } else {
        lemma_join_extend_first(p, r.drop_last(), sep);
        assert(u.drop_last() =~= r.drop_last().update(0, p + r.drop_last()[0]));
        assert(p + join(r.drop_last(), sep) + sep + r.last() =~= p + (join(r.drop_last(), sep)
            + sep + r.last()));
    }
}

/// Splitting a text into paragraphs loses nothing: joining the paragraphs
/// with blank lines gives the text back.
pub proof fn law_paragraphs_rejoin(s: Seq<char>)
    ensures
        join(paragraphs(s), "\n\n"@) == s,
    decreases s.len(),
{
    reveal_strlit("\n\n");
    if s.len() == 0 {
    } else if s.len() >= 2 && s[0] == '\n' && s[1] == '\n' {
        law_paragraphs_rejoin(s.skip(2));
        lemma_paragraphs_nonempty(s.skip(2));
        lemma_join_cons(Seq::<char>::empty(), paragraphs(s.skip(2)), "\n\n"@);
        assert(Seq::<char>::empty() + "\n\n"@ + s.skip(2) =~= s);
    } else {
        law_paragraphs_rejoin(s.skip(1));
        lemma_paragraphs_nonempty(s.skip(1));
        lemma_join_extend_first(seq![s[0]], paragraphs(s.skip(1)), "\n\n"@);
        assert(seq![s[0]] + s.skip(1) =~= s);
    }
}

proof fn lemma_pieces_free_of_delims(s: Seq<char>, d: Delim)
    ensures
        forall|k: int, j: int|
            0 <= k < pieces(s, d).len() && 0 <= j < pieces(s, d)[k].len() ==> !is_delim(
                d,
                #[trigger] pieces(s, d)[k][j],
            ),
    decreases s.len(),
{
    if s.len() > 0 {
        lemma_pieces_free_of_delims(s.drop_last(), d);
        lemma_pieces_nonempty(s.drop_last(), d);
    }
}

pub proof fn lemma_kept_keeps(ps: Seq<Seq<char>>, k: Keep)
    ensures
        forall|i: int| 0 <= i < kept(ps, k).len() ==> keeps(k, #[trigger] kept(ps, k)[i]),
        forall|i: int|
            0 <= i < kept(ps, k).len() ==> exists|j: int| 0 <= j < ps.len() && ps[j] == #[trigger] kept(ps, k)[i],
    decreases ps.len(),
{
    if ps.len() > 0 {
        lemma_kept_keeps(ps.drop_last(), k);
        let r = kept(ps.drop_last(), k);
        assert forall|i: int| 0 <= i < kept(ps, k).len() implies exists|j: int|
            0 <= j < ps.len() && ps[j] == #[trigger] kept(ps, k)[i] by {
            if i < r.len() {
                let j = choose|j: int| 0 <= j < ps.drop_last().len() && ps.drop_last()[j] == r[i];
                assert(ps[j] == kept(ps, k)[i]);
            } else {
                assert(ps[ps.len() - 1] == kept(ps, k)[i]);
            }
        }
    }
}

/// Every word is non-empty and holds no whitespace.
pub proof fn law_words_are_nonblank_runs(s: Seq<char>)
    ensures
        forall|i: int| 0 <= i < words(s).len() ==> (#[trigger] words(s)[i]).len() > 0,
        forall|i: int, j: int|
            0 <= i < words(s).len() && 0 <= j < words(s)[i].len() ==> !is_ws(
                #[trigger] words(s)[i][j],
            ),
{
    let ps = pieces(s, Delim::Whitespace);
    lemma_pieces_free_of_delims(s, Delim::Whitespace);
    lemma_kept_keeps(ps, Keep::NonEmpty);
    assert forall|i: int, j: int|
        0 <= i < words(s).len() && 0 <= j < words(s)[i].len() implies !is_ws(
        #[trigger] words(s)[i][j],
    ) by {
        let k = choose|k: int| 0 <= k < ps.len() && ps[k] == words(s)[i];
        assert(!is_delim(Delim::Whitespace, ps[k][j]));
    }
}

/// Trimming removes whitespace only at the ends: the result is a contiguous
/// part of the text that neither starts nor ends with whitespace.
pub proof fn law_trim_shape(s: Seq<char>)
    ensures
        trim(s).len() > 0 ==> !is_ws(trim(s)[0]) && !is_ws(trim(s).last()),
        exists|a: int, b: int| 0 <= a <= b <= s.len() && trim(s) == s.subrange(a, b),
{
    lemma_trim_start_shape(s);
    let a = choose|a: int| 0 <= a <= s.len() && trim_start(s) == s.skip(a);
    lemma_trim_end_shape(trim_start(s));
    let b = choose|b: int| 0 <= b <= trim_start(s).len() && trim(s) == trim_start(s).take(b);
    assert(trim(s) =~= s.subrange(a, a + b));
}

proof fn lemma_trim_start_shape(s: Seq<char>)
    ensures
        trim_start(s).len() > 0 ==> !is_ws(trim_start(s)[0]),
        trim_start(s).len() > 0 ==> !is_ws(trim_start(s).last()) || is_ws(s.last()),
        exists|a: int| 0 <= a <= s.len() && trim_start(s) == s.skip(a),
    decreases s.len(),
{
    if s.len() > 0 && is_ws(s[0]) {
        lemma_trim_start_shape(s.drop_first());
        let a = choose|a: int| 0 <= a <= s.drop_first().len() && trim_start(s.drop_first()) == s.drop_first().skip(a);
        assert(s.drop_first().skip(a) =~= s.skip(a + 1));
        if s.drop_first().len() > 0 {
            assert(s.drop_first().last() == s.last());
        }
    } else {
        assert(s.skip(0) =~= s);
    }
}

proof fn lemma_trim_end_shape(s: Seq<char>)
    ensures
        trim_end(s).len() > 0 ==> !is_ws(trim_end(s).last()),
        trim_end(s).len() > 0 ==> trim_end(s)[0] == s[0],
        exists|b: int| 0 <= b <= s.len() && trim_end(s) == s.take(b),
    decreases s.len(),
{
    if s.len() > 0 && is_ws(s.last()) {
        lemma_trim_end_shape(s.drop_last());
        let b = choose|b: int| 0 <= b <= s.drop_last().len() && trim_end(s.drop_last()) == s.drop_last().take(b);
        assert(s.drop_last().take(b) =~= s.take(b));
    } else {
        assert(s.take(s.len() as int) =~= s);
    }
}

// ---------------------------------------------------------------------------
// Which pieces a filter picks
// ---------------------------------------------------------------------------

/// The positions, in `ps`, of the pieces that `k` keeps, in order.
pub open spec fn kept_indices(ps: Seq<Seq<char>>, k: Keep) -> Seq<int>
    decreases ps.len(),
{
    if ps.len() == 0 {
        Seq::empty()
    } else {
        let r = kept_indices(ps.drop_last(), k);
        if keeps(k, ps.last()) {
            r.push(ps.len() - 1)
        } else {
            r
        }
    }
}

/// `idx` lists, in increasing order, positions of `ps` whose items pass the
/// test `k`, and they are the first `limit` such positions: every item that
/// passes and is left out comes after all the chosen ones, and then `limit`
/// were chosen.
pub open spec fn picks_first(ps: Seq<Seq<char>>, k: Keep, limit: nat, idx: Seq<int>) -> bool {
    &&& idx.len() <= limit
    &&& forall|i: int|
        0 <= i < idx.len() ==> 0 <= #[trigger] idx[i] < ps.len() && keeps(k, ps[idx[i]])
    &&& forall|i: int, j: int| 0 <= i < j < idx.len() ==> #[trigger] idx[i] < #[trigger] idx[j]
    &&& forall|j: int|
        0 <= j < ps.len() && keeps(k, #[trigger] ps[j]) && !idx.contains(j) ==> idx.len() == limit
            && (limit == 0 || idx[limit - 1] < j)
}

proof fn lemma_kept_indices(ps: Seq<Seq<char>>, k: Keep)
    ensures
        kept_indices(ps, k).len() == kept(ps, k).len(),
        kept_indices(ps, k).len() <= ps.len(),
        forall|i: int|
            0 <= i < kept_indices(ps, k).len() ==> 0 <= #[trigger] kept_indices(ps, k)[i]
                < ps.len() && kept(ps, k)[i] == ps[kept_indices(ps, k)[i]] && keeps(
                k,
                ps[kept_indices(ps, k)[i]],
            ),
        forall|i: int, j: int|
            0 <= i < j < kept_indices(ps, k).len() ==> #[trigger] kept_indices(ps, k)[i]
                < #[trigger] kept_indices(ps, k)[j],
        forall|j: int|
            0 <= j < ps.len() && keeps(k, #[trigger] ps[j]) ==> kept_indices(ps, k).contains(j),
    decreases ps.len(),
{
    if ps.len() > 0 {
        let q = ps.drop_last();
        lemma_kept_indices(q, k);
        let r = kept_indices(q, k);
        assert forall|j: int| 0 <= j < ps.len() && keeps(k, #[trigger] ps[j]) implies kept_indices(
            ps,
            k,
        ).contains(j) by {
            if j < ps.len() - 1 {
                assert(q[j] == ps[j]);
                let i = choose|i: int| 0 <= i < r.len() && r[i] == j;
                assert(kept_indices(ps, k)[i] == j);
            } else {
                assert(kept_indices(ps, k)[r.len() as int] == j);
            }
        }
    }
}

/// The first `limit` pieces that `k` keeps are the pieces of `ps` at the
/// first `limit` positions whose pieces pass `k`.
pub proof fn lemma_kept_picks_first(ps: Seq<Seq<char>>, k: Keep, limit: nat)
    ensures
        picks_first(ps, k, limit, take_items(kept_indices(ps, k), limit)),
        take_items(kept(ps, k), limit).len() == take_items(kept_indices(ps, k), limit).len(),
        forall|i: int|
            0 <= i < take_items(kept(ps, k), limit).len() ==> #[trigger] take_items(
                kept(ps, k),
                limit,
            )[i] == ps[take_items(kept_indices(ps, k), limit)[i]],
{
    lemma_kept_indices(ps, k);
    let ki = kept_indices(ps, k);
    let idx = take_items(ki, limit);
    assert forall|i: int| 0 <= i < idx.len() implies 0 <= #[trigger] idx[i] < ps.len() && keeps(
        k,
        ps[idx[i]],
    ) by {
        assert(idx[i] == ki[i]);
    }
    assert forall|i: int, j: int| 0 <= i < j < idx.len() implies #[trigger] idx[i]
        < #[trigger] idx[j] by {
        assert(idx[i] == ki[i] && idx[j] == ki[j]);
    }
    assert forall|j: int|
        0 <= j < ps.len() && keeps(k, #[trigger] ps[j]) && !idx.contains(j) implies idx.len()
        == limit && (limit == 0 || idx[limit - 1] < j) by {
        assert(ki.contains(j));
        let i = choose|i: int| 0 <= i < ki.len() && ki[i] == j;
        if i < idx.len() {
            assert(idx[i] == j);
        }
        assert(idx.len() == limit);
        if limit > 0 {
            assert(idx[limit - 1] == ki[limit - 1]);
            assert(ki[limit - 1] < ki[i]);
        }
    }
    assert forall|i: int| 0 <= i < take_items(kept(ps, k), limit).len() implies #[trigger] take_items(
        kept(ps, k),
        limit,
    )[i] == ps[idx[i]] by {
        assert(idx[i] == ki[i]);
    }
}

/// The non-blank paragraphs are the paragraphs that hold something other
/// than whitespace, all of them, in the order of the text.
pub proof fn law_nonblank_paragraphs_in_order(s: Seq<char>)
    ensures
        exists|idx: Seq<int>|
            #[trigger] picks_first(paragraphs(s), Keep::NonBlank, paragraphs(s).len(), idx)
                && idx.len() == nonblank_paragraphs(s).len() && forall|i: int|
                0 <= i < idx.len() ==> nonblank_paragraphs(s)[i] == paragraphs(s)[#[trigger] idx[i]],
{
    let ps = paragraphs(s);
    lemma_kept_indices(ps, Keep::NonBlank);
    lemma_kept_picks_first(ps, Keep::NonBlank, ps.len());
    let idx = take_items(kept_indices(ps, Keep::NonBlank), ps.len());
    assert(idx =~= kept_indices(ps, Keep::NonBlank));
    assert(take_items(kept(ps, Keep::NonBlank), ps.len()) =~= kept(ps, Keep::NonBlank));
    assert(picks_first(ps, Keep::NonBlank, ps.len(), idx));
    assert forall|i: int| 0 <= i < idx.len() implies nonblank_paragraphs(s)[i] == paragraphs(
        s,
    )[#[trigger] idx[i]] by {
        assert(take_items(kept(ps, Keep::NonBlank), ps.len())[i] == ps[idx[i]]);
    }
}

proof fn lemma_sentences_push_ws(s: Seq<char>, c: char)
    requires
        is_ws(c),
    ensures
        sentences(s.push(c)).len() == sentences(s).len(),
{
    assert(c != '.' && c != '!' && c != '?');
    let t = s.push(c);
    assert(t.drop_last() =~= s);
    lemma_pieces_nonempty(s, Delim::SentenceEnd);
    let p = pieces(s, Delim::SentenceEnd);
    let q = pieces(t, Delim::SentenceEnd);
    assert(q == p.update(p.len() - 1, p.last().push(c)));
    assert(q.drop_last() =~= p.drop_last());
    let x = p.last().push(c);
    assert(is_blank(x) == is_blank(p.last())) by {
        if is_blank(p.last()) {
            assert forall|i: int| 0 <= i < x.len() implies is_ws(#[trigger] x[i]) by {
                if i < p.last().len() {
                    assert(x[i] == p.last()[i]);
                }
            }
        }
        if is_blank(x) {
            assert forall|i: int| 0 <= i < p.last().len() implies is_ws(#[trigger] p.last()[i]) by {
                assert(x[i] == p.last()[i]);
            }
        }
    }
    assert(q.last() == x);
}

/// Appending whitespace to a text never changes how many non-blank
/// sentences it has.
pub proof fn law_trailing_whitespace_keeps_sentences(s: Seq<char>, w: Seq<char>)
    requires
        forall|i: int| 0 <= i < w.len() ==> is_ws(#[trigger] w[i]),
    ensures
        sentences(s + w).len() == sentences(s).len(),
    decreases w.len(),
{
    if w.len() == 0 {
        assert(s + w =~= s);
    } else {
        let v = w.drop_last();
        law_trailing_whitespace_keeps_sentences(s, v);
        assert(s + w =~= (s + v).push(w.last()));
        lemma_sentences_push_ws(s + v, w.last());
    }
}

/// The first non-blank paragraph is the first paragraph that holds
/// something other than whitespace.
pub proof fn lemma_first_nonblank_paragraph(s: Seq<char>, j: int)
    requires
        0 <= j < paragraphs(s).len(),
        !is_blank(paragraphs(s)[j]),
        forall|k: int| 0 <= k < j ==> is_blank(#[trigger] paragraphs(s)[k]),
    ensures
        nonblank_paragraphs(s).len() > 0,
        nonblank_paragraphs(s)[0] == paragraphs(s)[j],
{
    let ps = paragraphs(s);
    lemma_kept_indices(ps, Keep::NonBlank);
    let ki = kept_indices(ps, Keep::NonBlank);
    assert(keeps(Keep::NonBlank, ps[j]));
    assert(ki.contains(j));
    let i = choose|i: int| 0 <= i < ki.len() && ki[i] == j;
    assert(keeps(Keep::NonBlank, ps[ki[0]]));
    if ki[0] < j {
        assert(is_blank(ps[ki[0]]));
    }
    if i > 0 {
        assert(ki[0] < ki[i]);
    }
    assert(ki[0] == j);
}

/// Two line breaks at the start of a text make an empty first paragraph
/// and leave the others as they were.
pub proof fn lemma_paragraphs_after_break(s: Seq<char>)
    ensures
        paragraphs(seq!['\n', '\n'] + s) == seq![Seq::<char>::empty()] + paragraphs(s),
{
    let t = seq!['\n', '\n'] + s;
    assert(t.skip(2) =~= s);
}

/// A blank piece in front changes nothing in the non-blank pieces.
pub proof fn lemma_kept_prepend_blank(ps: Seq<Seq<char>>)
    ensures
        kept(seq![Seq::<char>::empty()] + ps, Keep::NonBlank) == kept(ps, Keep::NonBlank),
    decreases ps.len(),
{
    let e = Seq::<char>::empty();
    let t = seq![e] + ps;
    assert(is_blank(e));
    if ps.len() == 0 {
        assert(t.drop_last() =~= ps);
        assert(t.last() == e);
        assert(kept(t, Keep::NonBlank) == kept(t.drop_last(), Keep::NonBlank));
    } else {
        lemma_kept_prepend_blank(ps.drop_last());
        assert(t.drop_last() =~= seq![e] + ps.drop_last());
        assert(t.last() == ps.last());
        assert(kept(t, Keep::NonBlank) == (if keeps(Keep::NonBlank, ps.last()) {
            kept(ps.drop_last(), Keep::NonBlank).push(ps.last())
        } else {
            kept(ps.drop_last(), Keep::NonBlank)
        }));
    }
}

} // verus!
