//! Turns the text of a novel into the parts of a paper: title, authors,
//! structured abstract, sections, references and journal metadata.
//!
//! Everything is determined by the text and a seed. `transform_text` takes
//! the seed from the standard library's default hasher applied to the text;
//! `transform_text_seeded` does the rest for any seed.
use vstd::prelude::*;
use vstd::string::StringExecFns;
use std::collections::hash_map::DefaultHasher;
use std::hash::Hasher;
use crate::numfmt::{dec, decimal, format_count, group_thousands, pad_zeros, zero_padded};
use crate::sections::{generate_references, generate_sections, references_spec, sections_spec};
use crate::text::{
    Keep, byte_len, chars_of, is_blank, is_ws, lemma_first_nonblank_paragraph, lemma_kept_prepend_blank, lemma_paragraphs_after_break, keeps, kept_indices, law_trailing_whitespace_keeps_sentences, lemma_kept_keeps, lemma_kept_picks_first, picks_first, keep_pieces, kept, paragraphs, split_paragraphs, join, join_pieces, nonblank_paragraphs, prefix_chars, sentences, split_nonblank_paragraphs,
    split_sentences, split_words, string_of, take_chars, texts, trim, trimmed, words,
};
use crate::wording::{
    ABSTRACT_BACKGROUND, ABSTRACT_CONCLUSIONS, ABSTRACT_METHODS_CLOSING, ABSTRACT_METHODS_OPENING,
    ABSTRACT_RESULTS_CLOSING, ABSTRACT_RESULTS_OPENING, affiliation_names, affiliations,
    author_row, author_rows, keyword, keyword_pools, month_name, month_names, str_views,
    section_headings, title_focus, title_focuses, title_topic, title_topics, venue, venue_names,
};

verus! {

// ---------------------------------------------------------------------------
// Data
// ---------------------------------------------------------------------------

/// A generated paper.
pub struct PaperData {
    pub title: String,
    pub author_line: String,
    pub authors: Vec<Author>,
    pub abstract_sections: AbstractSections,
    pub sections: Vec<Section>,
    pub references: Vec<String>,
    pub word_count: usize,
    pub page_count: usize,
    pub journal: String,
    pub doi: String,
    pub volume: String,
    pub issue: String,
    pub received: String,
    pub accepted: String,
    pub keywords: Vec<String>,
}

/// A (fictitious) author of a paper.
pub struct Author {
    pub given_name: String,
    pub family_name: String,
    pub orcid: String,
    pub affiliation: String,
    pub email: String,
}

/// The four parts of a structured abstract.
pub struct AbstractSections {
    pub background: String,
    pub methods: String,
    pub results: String,
    pub conclusions: String,
}

/// A section of a paper.
pub struct Section {
    pub heading: String,
    pub paragraphs: Vec<String>,
    pub blockquotes: Vec<String>,
}

/// The character sequences of a sequence of strings.
pub open spec fn strings(v: Seq<String>) -> Seq<Seq<char>> {
    Seq::new(v.len(), |i: int| v[i]@)
}

/// Given name, family name, ORCID, affiliation and e-mail of an author.
pub open spec fn author_view(a: Author) -> (Seq<char>, Seq<char>, Seq<char>, Seq<char>, Seq<char>) {
    (a.given_name@, a.family_name@, a.orcid@, a.affiliation@, a.email@)
}

/// Background, methods, results and conclusions of an abstract.
pub open spec fn abstract_view(a: AbstractSections) -> (Seq<char>, Seq<char>, Seq<char>, Seq<char>) {
    (a.background@, a.methods@, a.results@, a.conclusions@)
}

/// Heading, paragraphs and block quotes of a section.
pub open spec fn section_view(s: Section) -> (Seq<char>, Seq<Seq<char>>, Seq<Seq<char>>) {
    (s.heading@, strings(s.paragraphs@), strings(s.blockquotes@))
}

pub open spec fn opt_view(o: Option<String>) -> Option<Seq<char>> {
    match o {
        Some(s) => Some(s@),
        None => None,
    }
}

// ---------------------------------------------------------------------------
// Arithmetic on the seed
// ---------------------------------------------------------------------------

/// `a + b`, wrapping around at the bounds of `usize`.
pub open spec fn wadd(a: usize, b: usize) -> usize {
    vstd::wrapping::usize_specs::wrapping_add(a, b)
}

/// `a * b`, wrapping around at the bounds of `usize`.
pub open spec fn wmul(a: usize, b: usize) -> usize {
    vstd::wrapping::usize_specs::wrapping_mul(a, b)
}

/// The remainder of `a / m` rounded toward zero, as Rust's `%` on signed
/// integers computes it (its sign is that of `a`).
pub open spec fn trunc_rem(a: int, m: int) -> int {
    if a >= 0 {
        a % m
    } else {
        -((-a) % m)
    }
}

/// `n` in decimal, zero-padded to four digits.
pub open spec fn pad4(n: nat) -> Seq<char> {
    pad_zeros(dec(n), 4)
}

/// The first `n` items of `s`, or all of them if there are fewer.
pub open spec fn take_items<A>(s: Seq<A>, n: nat) -> Seq<A> {
    if n < s.len() {
        s.take(n as int)
    } else {
        s
    }
}

/// The items of `s` from index `start` on, at most `count` of them.
pub open spec fn window<A>(s: Seq<A>, start: nat, count: nat) -> Seq<A> {
    take_items(if start < s.len() { s.skip(start as int) } else { Seq::empty() }, count)
}

/// Picks the item of `items` that `seed` selects.
pub fn pick(items: &[&'static str], seed: usize) -> (r: &'static str)
    requires
        items@.len() > 0,
    ensures
        r == items@[(seed as int) % (items@.len() as int)],
{
    items[seed % items.len()]
}

// ---------------------------------------------------------------------------
// ORCID, title, authors
// ---------------------------------------------------------------------------

/// An ORCID: four groups of four digits derived from the seed.
pub open spec fn orcid_spec(seed: usize) -> Seq<char> {
    pad4((wmul(seed, 1234) % 10000) as nat) + "-"@ + pad4((wmul(seed, 5678) % 10000) as nat)
        + "-"@ + pad4((wmul(seed, 9012) % 10000) as nat) + "-"@ + pad4(
        (wmul(seed, 3456) % 10000) as nat,
    )
}

pub fn generate_orcid(seed: usize) -> (r: String)
    ensures
        r@ == orcid_spec(seed),
{
    let mut r = zero_padded(seed.wrapping_mul(1234) % 10000, 4);
    r.append("-");
    let b = zero_padded(seed.wrapping_mul(5678) % 10000, 4);
    r.append(b.as_str());
    r.append("-");
    let c = zero_padded(seed.wrapping_mul(9012) % 10000, 4);
    r.append(c.as_str());
    r.append("-");
    let d = zero_padded(seed.wrapping_mul(3456) % 10000, 4);
    r.append(d.as_str());
    r
}

/// The words of the text that the title quotes: five words, starting with
/// the eleventh (fewer if the text is shorter).
pub open spec fn title_words(text: Seq<char>) -> Seq<Seq<char>> {
    window(words(text), 10, 5)
}

/// The generated title: the quoted words, then a topic and a focus picked by
/// the seed.
pub open spec fn title_spec(text: Seq<char>, seed: usize) -> Seq<char> {
    "\""@ + join(title_words(text), " "@) + "\": "@ + title_topics()[(seed % 8) as int] + " of "@
        + title_focuses()[(wadd(seed, 2) % 4) as int]
}

pub fn generate_title(text: &Vec<char>, seed: usize) -> (r: String)
    ensures
        r@ == title_spec(text@, seed),
{
    let ws = split_words(text);
    let mut picked: Vec<Vec<char>> = Vec::new();
    let mut i: usize = 10;
    let ghost all = texts(ws@);
    let ghost win = window(all, 10, 5);
    proof {
        assert(texts(picked@) =~= win.take(0));
    }
    while i < ws.len() && i < 15
        invariant
            10 <= i <= 15,
            all == texts(ws@),
            all == words(text@),
            win == window(all, 10, 5),
            i <= ws.len() ==> texts(picked@) == win.take(i - 10),
            i > ws.len() ==> texts(picked@) == win.take(0) && ws.len() < 10,
        decreases 15 - i,
    {
        let ghost before = texts(picked@);
        picked.push(ws[i].clone());
        proof {
            assert(win.take(i - 10 + 1) =~= win.take(i - 10).push(all[i as int]));
            assert(texts(picked@) =~= before.push(ws@[i as int]@));
        }
        i = i + 1;
    }
    proof {
        if ws.len() <= 10 {
            assert(win =~= Seq::<Seq<char>>::empty());
        } else if ws.len() < 15 {
            assert(win =~= all.skip(10));
            assert(i == ws.len());
            assert(win.take(i - 10) =~= win);
        } else {
            assert(win.take(5) =~= win);
        }
    }
    let sample = join_pieces(&picked, " ");
    let sample_text = string_of(&sample);
    let mut r = String::new();
    r.append("\"");
    r.append(sample_text.as_str());
    r.append("\": ");
    r.append(title_topic(seed % 8));
    r.append(" of ");
    r.append(title_focus(seed.wrapping_add(2) % 4));
    r
}

/// How many authors a paper has.
pub open spec fn author_count(seed: usize) -> nat {
    2 + (seed % 4) as nat
}

/// Author `i` of a paper.
pub open spec fn author_spec(seed: usize, i: int) -> (
    Seq<char>,
    Seq<char>,
    Seq<char>,
    Seq<char>,
    Seq<char>,
) {
    let k = wadd(seed, i as usize);
    let row = author_rows()[(k % 8) as int];
    (row.0, row.1, orcid_spec(k), affiliation_names()[(k % 5) as int], row.2)
}

pub fn generate_authors(seed: usize) -> (r: Vec<Author>)
    ensures
        r@.len() == author_count(seed),
        forall|i: int| 0 <= i < r@.len() ==> author_view(#[trigger] r@[i]) == author_spec(seed, i),
{
    let count = 2 + (seed % 4);
    let affs = affiliations();
    let mut r: Vec<Author> = Vec::new();
    let mut i: usize = 0;
    while i < count
        invariant
            count == 2 + seed % 4,
            i <= count,
            str_views(affs@) == affiliation_names(),
            affs@.len() == 5,
            r@.len() == i,
            forall|j: int| 0 <= j < i ==> author_view(#[trigger] r@[j]) == author_spec(seed, j),
        decreases count - i,
    {
        let k = seed.wrapping_add(i);
        let row = author_row(k % 8);
        let aff = pick(&affs, k);
        proof {
            assert(aff@ == str_views(affs@)[(k % 5) as int]);
        }
        let a = Author {
            given_name: row.0.to_owned(),
            family_name: row.1.to_owned(),
            orcid: generate_orcid(k),
            affiliation: aff.to_owned(),
            email: row.2.to_owned(),
        };
        r.push(a);
        i = i + 1;
    }
    r
}

// ---------------------------------------------------------------------------
// Abstract
// ---------------------------------------------------------------------------

/// The first paragraph of the text that is not blank, or the whole text if
/// there is none.
pub open spec fn first_paragraph(text: Seq<char>) -> Seq<char> {
    let ps = nonblank_paragraphs(text);
    if ps.len() > 0 {
        ps[0]
    } else {
        text
    }
}

/// The first sentence of the first paragraph, trimmed (the paragraph itself
/// if it has no sentence).
pub open spec fn sample_sentence(text: Seq<char>) -> Seq<char> {
    let first = first_paragraph(text);
    let ss = sentences(first);
    trim(if ss.len() > 0 { ss[0] } else { first })
}

pub open spec fn abstract_spec(text: Seq<char>) -> (Seq<char>, Seq<char>, Seq<char>, Seq<char>) {
    (
        ABSTRACT_BACKGROUND@,
        ABSTRACT_METHODS_OPENING@ + dec(nonblank_paragraphs(text).len())
            + ABSTRACT_METHODS_CLOSING@,
        ABSTRACT_RESULTS_OPENING@ + take_chars(sample_sentence(text), 150)
            + ABSTRACT_RESULTS_CLOSING@,
        ABSTRACT_CONCLUSIONS@,
    )
}

pub fn generate_abstract(text: &Vec<char>, word_count: usize) -> (r: AbstractSections)
    ensures
        abstract_view(r) == abstract_spec(text@),
{
    let paras = split_nonblank_paragraphs(text);
    let first: Vec<char> = if paras.len() > 0 {
        paras[0].clone()
    } else {
        text.clone()
    };
    proof {
        assert(first@ == first_paragraph(text@));
    }
    let sentences = split_sentences(&first);
    let chosen: Vec<char> = if sentences.len() > 0 {
        sentences[0].clone()
    } else {
        first.clone()
    };
    let sample = trimmed(&chosen);
    let excerpt = string_of(&prefix_chars(&sample, 150));
    let mut methods = String::new();
    methods.append(ABSTRACT_METHODS_OPENING);
    let n = decimal(paras.len());
    methods.append(n.as_str());
    methods.append(ABSTRACT_METHODS_CLOSING);
    let mut results = String::new();
    results.append(ABSTRACT_RESULTS_OPENING);
    results.append(excerpt.as_str());
    results.append(ABSTRACT_RESULTS_CLOSING);
    AbstractSections {
        background: ABSTRACT_BACKGROUND.to_owned(),
        methods,
        results,
        conclusions: ABSTRACT_CONCLUSIONS.to_owned(),
    }
}

// ---------------------------------------------------------------------------
// Journal metadata
// ---------------------------------------------------------------------------

pub open spec fn journal_spec(seed: usize) -> Seq<char> {
    venue_names()[(seed % 8) as int]
}

pub fn generate_journal(seed: usize) -> (r: String)
    ensures
        r@ == journal_spec(seed),
{
    venue(seed % 8).to_owned()
}

/// A DOI such as `10.105/jcls.0123.4567`, derived from the seed.
pub open spec fn doi_spec(seed: usize) -> Seq<char> {
    "10.10"@ + dec((2 + seed % 8) as nat) + "/jcls."@ + pad4((wmul(seed, 1234) % 10000) as nat)
        + "."@ + pad4((wmul(seed, 5678) % 10000) as nat)
}

pub fn generate_doi(seed: usize) -> (r: String)
    ensures
        r@ == doi_spec(seed),
{
    let mut r = String::new();
    r.append("10.10");
    let prefix = decimal(2 + seed % 8);
    r.append(prefix.as_str());
    r.append("/jcls.");
    let a = zero_padded(seed.wrapping_mul(1234) % 10000, 4);
    r.append(a.as_str());
    r.append(".");
    let b = zero_padded(seed.wrapping_mul(5678) % 10000, 4);
    r.append(b.as_str());
    r
}

/// The day offset a date is derived from: the minimum offset plus the seed's
/// remainder (taking the seed as a signed 64-bit number, as the original
/// arithmetic does) modulo the size of the offset range.
pub open spec fn date_offset(seed: usize, min_offset: i64, max_offset: i64) -> i64 {
    (min_offset + trunc_rem((seed as i64) as int, max_offset - min_offset + 1)) as i64
}

/// The year, the month (0 for January) and the day of the date drawn from
/// the seed and an offset range.
pub open spec fn date_parts(seed: usize, min_offset: i64, max_offset: i64) -> (int, int, int) {
    let off = date_offset(seed, min_offset, max_offset) as usize;
    (
        2024 + (wadd(seed, off) % 3) as int,
        (wadd(seed, off) % 12) as int,
        1 + (wadd(wmul(seed, 7), wmul(off, 13)) % 28) as int,
    )
}

/// A date written out, such as `March 15, 2025`.
pub open spec fn date_text(d: (int, int, int)) -> Seq<char> {
    month_names()[d.1] + " "@ + dec(d.2 as nat) + ", "@ + dec(d.0 as nat)
}

/// A date such as `March 15, 2025` derived from the seed and an offset range.
pub open spec fn date_spec(seed: usize, min_offset: i64, max_offset: i64) -> Seq<char> {
    date_text(date_parts(seed, min_offset, max_offset))
}

/// Date `a` falls on or before date `b`.
pub open spec fn on_or_before(a: (int, int, int), b: (int, int, int)) -> bool {
    a.0 < b.0 || (a.0 == b.0 && (a.1 < b.1 || (a.1 == b.1 && a.2 <= b.2)))
}

/// The review dates of a paper, received and accepted: two dates drawn
/// from the seed, the earlier one as the date the manuscript was received.
pub open spec fn review_dates(seed: usize) -> ((int, int, int), (int, int, int)) {
    let first = date_parts(seed, -180i64, -60i64);
    let second = date_parts(wadd(seed, 1), -60i64, -10i64);
    if on_or_before(first, second) {
        (first, second)
    } else {
        (second, first)
    }
}

fn draw_date(seed: usize, min_offset: i64, max_offset: i64) -> (r: (usize, usize, usize))
    requires
        min_offset <= max_offset,
        max_offset - min_offset + 1 <= i64::MAX,
        min_offset - (max_offset - min_offset) >= i64::MIN,
    ensures
        (r.0 as int, r.1 as int, r.2 as int) == date_parts(seed, min_offset, max_offset),
        r.1 < 12,
{
    let span = max_offset - min_offset + 1;
    let rem = (seed as i64) % span;
    proof {
        assert(rem as int == trunc_rem((seed as i64) as int, span as int));
    }
    let offset = min_offset + rem;
    let off = offset as usize;
    let year = 2024 + (seed.wrapping_add(off) % 3);
    let month = seed.wrapping_add(off) % 12;
    let day = 1 + (seed.wrapping_mul(7).wrapping_add(off.wrapping_mul(13)) % 28);
    (year, month, day)
}

fn write_date(d: (usize, usize, usize)) -> (r: String)
    requires
        d.1 < 12,
    ensures
        r@ == date_text((d.0 as int, d.1 as int, d.2 as int)),
{
    let mut r = String::new();
    r.append(month_name(d.1));
    r.append(" ");
    let day = decimal(d.2);
    r.append(day.as_str());
    r.append(", ");
    let year = decimal(d.0);
    r.append(year.as_str());
    r
}

pub fn generate_date(seed: usize, min_offset: i64, max_offset: i64) -> (r: String)
    requires
        min_offset <= max_offset,
        max_offset - min_offset + 1 <= i64::MAX,
        min_offset - (max_offset - min_offset) >= i64::MIN,
    ensures
        r@ == date_spec(seed, min_offset, max_offset),
{
    write_date(draw_date(seed, min_offset, max_offset))
}

/// The received and accepted dates of a paper, received on or before
/// accepted.
pub fn generate_review_dates(seed: usize) -> (r: (String, String))
    ensures
        r.0@ == date_text(review_dates(seed).0),
        r.1@ == date_text(review_dates(seed).1),
        on_or_before(review_dates(seed).0, review_dates(seed).1),
{
    let first = draw_date(seed, -180, -60);
    let second = draw_date(seed.wrapping_add(1), -60, -10);
    let first_earlier = first.0 < second.0 || (first.0 == second.0 && (first.1 < second.1 || (
    first.1 == second.1 && first.2 <= second.2)));
    if first_earlier {
        (write_date(first), write_date(second))
    } else {
        (write_date(second), write_date(first))
    }
}

/// The keywords: the pool the seed picks.
pub open spec fn keywords_spec(seed: usize) -> Seq<Seq<char>> {
    take_items(keyword_pools()[(seed % 3) as int], (4 + seed % 2) as nat)
}

pub fn generate_keywords(text: &Vec<char>, seed: usize) -> (r: Vec<String>)
    ensures
        strings(r@) == keywords_spec(seed),
{
    let pool = seed % 3;
    let n = 4 + seed % 2;
    let ghost all = keyword_pools()[pool as int];
    let mut r: Vec<String> = Vec::new();
    let mut j: usize = 0;
    while j < n && j < 4
        invariant
            pool < 3,
            all == keyword_pools()[pool as int],
            all.len() == 4,
            j <= 4,
            strings(r@) == all.take(j as int),
        decreases 4 - j,
    {
        let ghost before = strings(r@);
        r.push(keyword(pool, j).to_owned());
        proof {
            assert(strings(r@) =~= before.push(all[j as int]));
            assert(all.take(j + 1) =~= all.take(j as int).push(all[j as int]));
        }
        j = j + 1;
    }
    proof {
        assert(all.take(4) =~= all);
    }
    r
}

// ---------------------------------------------------------------------------
// The whole paper
// ---------------------------------------------------------------------------

/// The author line: the override (followed by ", et al." when the paper has
/// more than one author), or else the names of the authors, with only the
/// first two named, followed by ", et al.", when there are more than three.
pub open spec fn author_line_spec(author_override: Option<Seq<char>>, seed: usize) -> Seq<char> {
    match author_override {
        Some(o) => if author_count(seed) > 1 {
            o + ", et al."@
        } else {
            o
        },
        None => {
            let names = Seq::new(
                author_count(seed),
                |i: int| author_spec(seed, i).0 + " "@ + author_spec(seed, i).1,
            );
            if names.len() > 3 {
                names[0] + ", "@ + names[1] + ", et al."@
            } else {
                join(names, ", "@)
            }
        },
    }
}

/// `p` is the paper generated from `text` with the given overrides, page
/// count and seed.
pub open spec fn is_paper_for(
    p: PaperData,
    text: Seq<char>,
    title_override: Option<Seq<char>>,
    author_override: Option<Seq<char>>,
    page_count: usize,
    seed: usize,
) -> bool {
    &&& p.title@ == match title_override {
        Some(t) => t,
        None => title_spec(text, seed),
    }
    &&& p.author_line@ == author_line_spec(author_override, seed)
    &&& p.authors@.len() == author_count(seed)
    &&& forall|i: int|
        0 <= i < p.authors@.len() ==> author_view(#[trigger] p.authors@[i]) == author_spec(seed, i)
    &&& abstract_view(p.abstract_sections) == abstract_spec(text)
    &&& p.word_count == words(text).len()
    &&& p.sections@.len() == 6
    &&& forall|i: int|
        0 <= i < 6 ==> section_view(#[trigger] p.sections@[i]) == sections_spec(
            text,
            p.word_count,
            seed,
        )[i]
    &&& strings(p.references@) == references_spec(seed)
    &&& p.page_count == page_count
    &&& p.journal@ == journal_spec(seed)
    &&& p.doi@ == doi_spec(seed)
    &&& p.volume@ == dec((1 + seed % 45) as nat)
    &&& p.issue@ == dec((1 + seed % 12) as nat)
    &&& p.received@ == date_text(review_dates(seed).0)
    &&& p.accepted@ == date_text(review_dates(seed).1)
    &&& strings(p.keywords@) == keywords_spec(seed)
}

fn author_line(author_override: Option<String>, authors: &Vec<Author>, Ghost(seed): Ghost<usize>) -> (r: String)
    requires
        authors@.len() == author_count(seed),
        forall|i: int|
            0 <= i < authors@.len() ==> author_view(#[trigger] authors@[i]) == author_spec(seed, i),
    ensures
        r@ == author_line_spec(opt_view(author_override), seed),
{
    match author_override {
        Some(name) => {
            if authors.len() > 1 {
                let mut r = name;
                r.append(", et al.");
                r
            } else {
                name
            }
        },
        None => {
            let ghost names = Seq::new(
                author_count(seed),
                |i: int| author_spec(seed, i).0 + " "@ + author_spec(seed, i).1,
            );
            let mut full: Vec<Vec<char>> = Vec::new();
            let mut i: usize = 0;
            while i < authors.len()
                invariant
                    i <= authors@.len(),
                    authors@.len() == author_count(seed),
                    forall|j: int|
                        0 <= j < authors@.len() ==> author_view(#[trigger] authors@[j])
                            == author_spec(seed, j),
                    names == Seq::new(
                        author_count(seed),
                        |i: int| author_spec(seed, i).0 + " "@ + author_spec(seed, i).1,
                    ),
                    texts(full@) == names.take(i as int),
                decreases authors.len() - i,
            {
                let mut s = String::new();
                s.append(authors[i].given_name.as_str());
                s.append(" ");
                s.append(authors[i].family_name.as_str());
                let ghost before = texts(full@);
                full.push(chars_of(s.as_str()));
                proof {
                    assert(author_view(authors@[i as int]) == author_spec(seed, i as int));
                    assert(texts(full@) =~= before.push(names[i as int]));
                    assert(names.take(i + 1) =~= names.take(i as int).push(names[i as int]));
                }
                i = i + 1;
            }
            proof {
                assert(names.take(authors@.len() as int) =~= names);
            }
            if full.len() > 3 {
                let mut r = string_of(&full[0]);
                r.append(", ");
                let second = string_of(&full[1]);
                r.append(second.as_str());
                r.append(", et al.");
                r
            } else {
                string_of(&join_pieces(&full, ", "))
            }
        },
    }
}

/// The paper for `text` with the given overrides and page count, with all
/// the choices that are not taken from the text made by `seed`.
pub fn transform_text_seeded(
    text: &str,
    title_override: Option<String>,
    author_override: Option<String>,
    page_count: usize,
    seed: usize,
) -> (r: PaperData)
    ensures
        is_paper_for(
            r,
            text@,
            opt_view(title_override),
            opt_view(author_override),
            page_count,
            seed,
        ),
        on_or_before(review_dates(seed).0, review_dates(seed).1),
{
    let chars = chars_of(text);
    let word_count = split_words(&chars).len();
    let title = match title_override {
        Some(t) => t,
        None => generate_title(&chars, seed),
    };
    let authors = generate_authors(seed);
    let line = author_line(author_override, &authors, Ghost(seed));
    let dates = generate_review_dates(seed);
    PaperData {
        title,
        author_line: line,
        authors,
        abstract_sections: generate_abstract(&chars, word_count),
        sections: generate_sections(&chars, word_count, seed),
        references: generate_references(&chars, seed),
        journal: generate_journal(seed),
        doi: generate_doi(seed),
        volume: decimal(1 + seed % 45),
        issue: decimal(1 + seed % 12),
        received: dates.0,
        accepted: dates.1,
        keywords: generate_keywords(&chars, seed),
        word_count,
        page_count,
    }
}

/// Feeds a length to the hasher, as `Hash::hash` on a `usize` does.
#[verifier::external_body]
fn hash_length(hasher: &mut DefaultHasher, n: usize) {
    std::hash::Hash::hash(&n, hasher)
}

/// Feeds a string to the hasher, as `Hash::hash` on a `str` does.
#[verifier::external_body]
fn hash_text(hasher: &mut DefaultHasher, text: &str) {
    std::hash::Hash::hash(text, hasher)
}

/// The seed of a text: the standard library's default hash of its length
/// and contents. Nothing is claimed of the value: the hash algorithm is left
/// unspecified by the standard library and may change between releases, and
/// the bytes fed for the length depend on the machine's word size and byte
/// order. The call always succeeds.
pub fn text_seed(text: &str) -> usize {
    let mut hasher = DefaultHasher::new();
    hash_length(&mut hasher, text.len());
    hash_text(&mut hasher, text);
    hasher.finish() as usize
}

/// Every keyword pool has four keywords, and a paper lists all of them.
pub proof fn lemma_keywords_len(seed: usize)
    ensures
        keywords_spec(seed).len() == 4,
{
    assert(keyword_pools()[(seed % 3) as int].len() == 4);
}

/// The paper for `text`: the title (unless overridden), the quotations and
/// the statistics come from the text; the authors, venue, dates and wording
/// choices come from a seed that is the hash of the text.
pub fn transform_text(
    text: &str,
    title_override: Option<String>,
    author_override: Option<String>,
    page_count: usize,
) -> (r: PaperData)
    ensures
        exists|seed: usize|
            is_paper_for(
                r,
                text@,
                opt_view(title_override),
                opt_view(author_override),
                page_count,
                seed,
            ),
        r.word_count == words(text@).len(),
        r.page_count == page_count,
        match title_override {
            Some(t) => r.title@ == t@,
            None => true,
        },
        2 <= r.authors@.len() <= 5,
        r.sections@.len() == 6,
        forall|i: int| 0 <= i < 6 ==> (#[trigger] r.sections@[i]).heading@ == section_headings()[i],
        r.references@.len() == 7,
        r.keywords@.len() == 4,
        r.abstract_sections.background@ == ABSTRACT_BACKGROUND@,
        r.abstract_sections.conclusions@ == ABSTRACT_CONCLUSIONS@,
        exists|received: (int, int, int), accepted: (int, int, int)|
            #![trigger date_text(received), date_text(accepted)]
            r.received@ == date_text(received) && r.accepted@ == date_text(accepted)
                && on_or_before(received, accepted),
{
    let seed = text_seed(text);
    let ghost t = opt_view(title_override);
    let ghost a = opt_view(author_override);
    let r = transform_text_seeded(text, title_override, author_override, page_count, seed);
    proof {
        lemma_keywords_len(seed);
        assert(r.received@ == date_text(review_dates(seed).0));
        assert(r.accepted@ == date_text(review_dates(seed).1));
        assert(strings(r.keywords@).len() == r.keywords@.len());
        assert(strings(r.references@).len() == r.references@.len());
        assert forall|i: int| 0 <= i < 6 implies (#[trigger] r.sections@[i]).heading@ == section_headings()[i] by {
            assert(section_view(r.sections@[i]) == sections_spec(text@, r.word_count, seed)[i]);
        }
    }
    r
}

// ---------------------------------------------------------------------------
// Block quotes and statistics
// ---------------------------------------------------------------------------

/// The first `count` paragraphs longer than 80 bytes, each cut to its first
/// 200 characters, trimmed and put in single quotes.
pub open spec fn blockquotes_spec(text: Seq<char>, count: nat) -> Seq<Seq<char>> {
    let ps = take_items(kept(paragraphs(text), Keep::LongerThan(80)), count);
    Seq::new(ps.len(), |i: int| "'"@ + trim(take_chars(ps[i], 200)) + "'"@)
}

/// Quotable passages of `text`: at most `count` paragraphs longer than 80
/// bytes, cut to 200 characters and quoted.
pub fn extract_blockquotes(text: &str, count: usize) -> (r: Vec<String>)
    ensures
        strings(r@) == blockquotes_spec(text@, count as nat),
{
    let chars = chars_of(text);
    let long = keep_pieces(&split_paragraphs(&chars), Keep::LongerThan(80));
    let ghost ps = take_items(texts(long@), count as nat);
    let ghost want = blockquotes_spec(text@, count as nat);
    let mut r: Vec<String> = Vec::new();
    let mut i: usize = 0;
    while i < long.len() && i < count
        invariant
            i <= long.len(),
            i <= count,
            texts(long@) == kept(paragraphs(text@), Keep::LongerThan(80)),
            ps == take_items(texts(long@), count as nat),
            want == blockquotes_spec(text@, count as nat),
            strings(r@) == want.take(i as int),
        decreases count - i,
    {
        let cut = prefix_chars(&long[i], 200);
        let inner = string_of(&trimmed(&cut));
        let mut q = String::new();
        q.append("'");
        q.append(inner.as_str());
        q.append("'");
        let ghost before = strings(r@);
        r.push(q);
        proof {
            assert(ps[i as int] == texts(long@)[i as int]);
            assert(strings(r@) =~= before.push(want[i as int]));
            assert(want.take(i + 1) =~= want.take(i as int).push(want[i as int]));
        }
        i = i + 1;
    }
    proof {
        assert(want.take(i as int) =~= want);
    }
    r
}

/// The counts that the readability statistics are computed from.
pub struct ReadabilityCounts {
    pub words: usize,
    pub characters: usize,
    pub sentences: usize,
}

/// The number of sentences that readability is measured by: the non-blank
/// sentences, but at least one.
pub open spec fn sentence_count_spec(text: Seq<char>) -> nat {
    let n = sentences(text).len();
    if n > 1 {
        n
    } else {
        1
    }
}

/// Words, characters and (at least one) sentences of `text`.
pub fn readability_counts(text: &str) -> (r: ReadabilityCounts)
    ensures
        r.words == words(text@).len(),
        r.characters == text@.len(),
        r.sentences == sentence_count_spec(text@),
{
    let chars = chars_of(text);
    let words = split_words(&chars).len();
    let n = split_sentences(&chars).len();
    ReadabilityCounts {
        words,
        characters: chars.len(),
        sentences: if n > 1 {
            n
        } else {
            1
        },
    }
}

/// Label and value of each statistic.
pub open spec fn pairs(v: Seq<(String, String)>) -> Seq<(Seq<char>, Seq<char>)> {
    Seq::new(v.len(), |i: int| (v[i].0@, v[i].1@))
}

/// The statistics table: the counts of `text` with thousands separators,
/// then the three figures given, which are floating-point results formatted
/// with one decimal by the caller.
pub open spec fn stats_spec(
    text: Seq<char>,
    avg_words: Seq<char>,
    avg_chars: Seq<char>,
    flesch: Seq<char>,
) -> Seq<(Seq<char>, Seq<char>)> {
    seq![
        ("Words"@, group_thousands(dec(words(text).len()))),
        ("Characters"@, group_thousands(dec(text.len()))),
        ("Sentences"@, group_thousands(dec(sentence_count_spec(text)))),
        ("Avg words/sentence"@, avg_words),
        ("Avg chars/word"@, avg_chars),
        ("Flesch Readability"@, flesch),
    ]
}

/// The readability statistics of `text`, labelled. The average words per
/// sentence, average characters per word and Flesch score are
/// floating-point quantities computed from `readability_counts` by the
/// caller and passed in already formatted.
pub fn compute_readability_stats(
    text: &str,
    avg_words_per_sentence: &str,
    avg_chars_per_word: &str,
    flesch: &str,
) -> (r: Vec<(String, String)>)
    ensures
        pairs(r@) == stats_spec(text@, avg_words_per_sentence@, avg_chars_per_word@, flesch@),
{
    let c = readability_counts(text);
    let mut r: Vec<(String, String)> = Vec::new();
    r.push(("Words".to_owned(), format_count(c.words)));
    r.push(("Characters".to_owned(), format_count(c.characters)));
    r.push(("Sentences".to_owned(), format_count(c.sentences)));
    r.push(("Avg words/sentence".to_owned(), avg_words_per_sentence.to_owned()));
    r.push(("Avg chars/word".to_owned(), avg_chars_per_word.to_owned()));
    r.push(("Flesch Readability".to_owned(), flesch.to_owned()));
    proof {
        assert(pairs(r@) =~= stats_spec(
            text@,
            avg_words_per_sentence@,
            avg_chars_per_word@,
            flesch@,
        ));
    }
    r
}

// ---------------------------------------------------------------------------
// Laws
// ---------------------------------------------------------------------------

/// `q` is a paragraph of `text` longer than 80 bytes, cut to 200
/// characters, trimmed and put in single quotes.
pub open spec fn quoted_from(text: Seq<char>, q: Seq<char>) -> bool {
    exists|j: int|
        0 <= j < paragraphs(text).len() && byte_len(#[trigger] paragraphs(text)[j]) > 80 && q
            == "'"@ + trim(take_chars(paragraphs(text)[j], 200)) + "'"@
}

/// There are at most `count` block quotes, and each is taken from the text.
pub proof fn law_blockquotes_come_from_text(text: Seq<char>, count: nat)
    ensures
        blockquotes_spec(text, count).len() <= count,
        forall|i: int|
            0 <= i < blockquotes_spec(text, count).len() ==> quoted_from(
                text,
                #[trigger] blockquotes_spec(text, count)[i],
            ),
{
    let ps = paragraphs(text);
    let ks = kept(ps, Keep::LongerThan(80));
    lemma_kept_keeps(ps, Keep::LongerThan(80));
    assert forall|i: int| 0 <= i < blockquotes_spec(text, count).len() implies quoted_from(
        text,
        #[trigger] blockquotes_spec(text, count)[i],
    ) by {
        let q = take_items(ks, count);
        assert(q[i] == ks[i]);
        let j = choose|j: int| 0 <= j < ps.len() && ps[j] == #[trigger] ks[i];
        assert(keeps(Keep::LongerThan(80), ks[i]));
        assert(ps[j] == ks[i]);
    }
}

/// A received or accepted date falls within the offset range it is drawn
/// from, for every seed that is non-negative as a signed 64-bit number.
pub proof fn law_date_offset_in_range(seed: usize, min_offset: i64, max_offset: i64)
    requires
        min_offset <= max_offset,
        max_offset - min_offset + 1 <= i64::MAX,
        (seed as i64) >= 0,
    ensures
        min_offset <= date_offset(seed, min_offset, max_offset) <= max_offset,
{
    let span = max_offset - min_offset + 1;
    let r = trunc_rem((seed as i64) as int, span);
    assert(0 <= r < span);
}

/// Every generated date names a month, a day from 1 to 28 and a year from
/// 2024 to 2026.
pub proof fn law_date_is_calendar_date(seed: usize, min_offset: i64, max_offset: i64)
    ensures
        exists|m: int, d: nat, y: nat|
            #![trigger month_names()[m], dec(d), dec(y)]
            0 <= m < 12 && 1 <= d <= 28 && 2024 <= y <= 2026 && date_spec(
                seed,
                min_offset,
                max_offset,
            ) == month_names()[m] + " "@ + dec(d) + ", "@ + dec(y),
{
    let off = date_offset(seed, min_offset, max_offset) as usize;
    let m = (wadd(seed, off) % 12) as int;
    let d = (1 + (wadd(wmul(seed, 7), wmul(off, 13)) % 28)) as nat;
    let y = (2024 + (wadd(seed, off) % 3)) as nat;
    assert(date_spec(seed, min_offset, max_offset) == month_names()[m] + " "@ + dec(d) + ", "@
        + dec(y));
}

/// For one text and one seed, every part of the paper but the title, the
/// author line and the page count is the same whatever the overrides and
/// page count; with the same overrides and page count, those agree too.
pub proof fn law_paper_determined_by_text_and_seed(
    p1: PaperData,
    p2: PaperData,
    text: Seq<char>,
    t1: Option<Seq<char>>,
    a1: Option<Seq<char>>,
    n1: usize,
    t2: Option<Seq<char>>,
    a2: Option<Seq<char>>,
    n2: usize,
    seed: usize,
)
    requires
        is_paper_for(p1, text, t1, a1, n1, seed),
        is_paper_for(p2, text, t2, a2, n2, seed),
    ensures
        p1.authors@.len() == p2.authors@.len(),
        forall|i: int|
            0 <= i < p1.authors@.len() ==> author_view(#[trigger] p1.authors@[i]) == author_view(
                p2.authors@[i],
            ),
        abstract_view(p1.abstract_sections) == abstract_view(p2.abstract_sections),
        p1.sections@.len() == p2.sections@.len(),
        forall|i: int|
            0 <= i < p1.sections@.len() ==> section_view(#[trigger] p1.sections@[i]) == section_view(
                p2.sections@[i],
            ),
        strings(p1.references@) == strings(p2.references@),
        p1.journal@ == p2.journal@,
        p1.doi@ == p2.doi@,
        p1.volume@ == p2.volume@,
        p1.issue@ == p2.issue@,
        p1.received@ == p2.received@,
        p1.accepted@ == p2.accepted@,
        strings(p1.keywords@) == strings(p2.keywords@),
        p1.word_count == p2.word_count,
        t1 == t2 ==> p1.title@ == p2.title@,
        a1 == a2 ==> p1.author_line@ == p2.author_line@,
        n1 == n2 ==> p1.page_count == p2.page_count,
{
    assert forall|i: int| 0 <= i < p1.sections@.len() implies section_view(
        #[trigger] p1.sections@[i],
    ) == section_view(p2.sections@[i]) by {
        assert(section_view(p1.sections@[i]) == sections_spec(text, p1.word_count, seed)[i]);
        assert(section_view(p2.sections@[i]) == sections_spec(text, p2.word_count, seed)[i]);
    }
    assert forall|i: int| 0 <= i < p1.authors@.len() implies author_view(
        #[trigger] p1.authors@[i],
    ) == author_view(p2.authors@[i]) by {
        assert(author_view(p1.authors@[i]) == author_spec(seed, i));
        assert(author_view(p2.authors@[i]) == author_spec(seed, i));
    }
}

/// `d` is a date of the years 2024 to 2026 with a day from 1 to 28.
pub open spec fn is_review_date(d: (int, int, int)) -> bool {
    2024 <= d.0 <= 2026 && 0 <= d.1 < 12 && 1 <= d.2 <= 28
}

/// A paper is received on or before it is accepted, and both review dates
/// are calendar dates from 2024 to 2026 with a day from 1 to 28.
pub proof fn law_received_on_or_before_accepted(seed: usize)
    ensures
        on_or_before(review_dates(seed).0, review_dates(seed).1),
        is_review_date(review_dates(seed).0),
        is_review_date(review_dates(seed).1),
{
}

/// The block quotes come from the first `count` paragraphs longer than 80
/// bytes (all of them when there are fewer), in the order of the text:
/// quote `i` is the `i`-th such paragraph, cut to 200 characters, trimmed
/// and put in single quotes.
pub proof fn law_blockquotes_first_long_paragraphs(text: Seq<char>, count: nat)
    ensures
        exists|idx: Seq<int>|
            #[trigger] picks_first(paragraphs(text), Keep::LongerThan(80), count, idx)
                && blockquotes_spec(text, count).len() == idx.len() && forall|i: int|
                0 <= i < idx.len() ==> blockquotes_spec(text, count)[i] == "'"@ + trim(
                    take_chars(paragraphs(text)[#[trigger] idx[i]], 200),
                ) + "'"@,
{
    let ps = paragraphs(text);
    lemma_kept_picks_first(ps, Keep::LongerThan(80), count);
    let idx = take_items(kept_indices(ps, Keep::LongerThan(80)), count);
    assert(picks_first(ps, Keep::LongerThan(80), count, idx));
}

/// Appending whitespace to a text never changes its sentence count, and
/// the count is at least one.
pub proof fn law_trailing_whitespace_keeps_sentence_count(text: Seq<char>, w: Seq<char>)
    requires
        forall|i: int| 0 <= i < w.len() ==> is_ws(#[trigger] w[i]),
    ensures
        sentence_count_spec(text + w) == sentence_count_spec(text),
        sentence_count_spec(text) >= 1,
{
    law_trailing_whitespace_keeps_sentences(text, w);
}

/// The abstract's sample comes from the first paragraph that holds
/// something other than whitespace (paragraph `j`): it is that paragraph's
/// first non-blank sentence, or the paragraph itself when it has none,
/// trimmed and cut to 150 characters. It never runs into a later paragraph.
pub proof fn law_abstract_sample_from_first_nonblank_paragraph(text: Seq<char>, j: int)
    requires
        0 <= j < paragraphs(text).len(),
        !is_blank(paragraphs(text)[j]),
        forall|k: int| 0 <= k < j ==> is_blank(#[trigger] paragraphs(text)[k]),
    ensures
        ({
            let p = paragraphs(text)[j];
            let ss = sentences(p);
            abstract_spec(text).2 == ABSTRACT_RESULTS_OPENING@ + take_chars(
                trim(if ss.len() > 0 { ss[0] } else { p }),
                150,
            ) + ABSTRACT_RESULTS_CLOSING@
        }),
{
    lemma_first_nonblank_paragraph(text, j);
}

/// Blank paragraphs in front of a text, such as the line breaks extracted
/// text often starts with, change nothing in the abstract.
pub proof fn law_leading_break_keeps_abstract(text: Seq<char>, j: int)
    requires
        0 <= j < paragraphs(text).len(),
        !is_blank(paragraphs(text)[j]),
        forall|k: int| 0 <= k < j ==> is_blank(#[trigger] paragraphs(text)[k]),
    ensures
        abstract_spec(seq!['\n', '\n'] + text) == abstract_spec(text),
{
    let t = seq!['\n', '\n'] + text;
    lemma_paragraphs_after_break(text);
    let e = Seq::<char>::empty();
    assert(is_blank(e));
    assert(paragraphs(t)[0] == e);
    assert forall|k: int| 0 <= k < j + 1 implies is_blank(#[trigger] paragraphs(t)[k]) by {
        if k > 0 {
            assert(paragraphs(t)[k] == paragraphs(text)[k - 1]);
        }
    }
    assert(paragraphs(t)[j + 1] == paragraphs(text)[j]);
    lemma_first_nonblank_paragraph(text, j);
    lemma_first_nonblank_paragraph(t, j + 1);
    assert(nonblank_paragraphs(t) =~= nonblank_paragraphs(text)) by {
        lemma_kept_prepend_blank(paragraphs(text));
        assert(paragraphs(t) =~= seq![e] + paragraphs(text));
    }
}

} // verus!
