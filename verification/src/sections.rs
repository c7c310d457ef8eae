//! The body of a generated paper: its six sections, with citations and
//! passages quoted from the source text, and its seven references.
use vstd::prelude::*;
use vstd::string::StringExecFns;
use crate::numfmt::{dec, decimal};
use crate::text::{
    Keep, byte_len, keep_pieces, kept, kept_indices, lemma_kept_picks_first, nonblank_paragraphs,
    picks_first, prefix_chars,
    split_nonblank_paragraphs, string_of, take_chars, texts,
};
use crate::transformer::{Section, section_view, strings, take_items, wadd};
use crate::wording::{
    CONCLUSION_TEXT, DISCUSSION_TEXT, INTRO_AS, INTRO_CONTRIBUTION, INTRO_DEMONSTRATED,
    INTRO_OPENING, INTRO_QUOTE_OPENING, METHOD_CLOSING, METHOD_OPENING, METHOD_WORDS_ACROSS,
    QUOTE_CLOSING, RELATED_CLOSING, RELATED_MIDDLE, RELATED_OPENING, RELATED_RECENTLY,
    RELATED_SCALABLE, RESULTS_CLOSING, RESULTS_MIDDLE, RESULTS_OPENING, RESULTS_QUOTE_OPENING,
    citation_author, citation_authors, citation_year, citation_years, modifier_kind,
    modifier_kinds, reference_journal, reference_journals, reference_parts, reference_venues,
    reference_wording, reference_years, section_heading, section_headings,
};

verus! {

// ---------------------------------------------------------------------------
// Citations and quotations
// ---------------------------------------------------------------------------

/// In-text citation `i`, such as `Chen & Petrov (2022)`.
pub open spec fn citation_spec(seed: usize, i: int) -> Seq<char> {
    let k = (wadd(seed, i as usize) % 5) as int;
    citation_authors()[k] + " ("@ + citation_years()[k] + ")"@
}

pub fn citation(seed: usize, i: usize) -> (r: String)
    requires
        i < 6,
    ensures
        r@ == citation_spec(seed, i as int),
{
    let k = seed.wrapping_add(i) % 5;
    let mut r = String::new();
    r.append(citation_author(k));
    r.append(" (");
    r.append(citation_year(k));
    r.append(")");
    r
}

/// The opening of the text that the introduction quotes: the first 300
/// characters of its first non-blank paragraph (nothing if there is none).
pub open spec fn intro_sample(text: Seq<char>) -> Seq<char> {
    let ps = nonblank_paragraphs(text);
    if ps.len() > 0 {
        take_chars(ps[0], 300)
    } else {
        Seq::empty()
    }
}

/// The passages the results quote: the first 200 characters of each of the
/// first two non-blank paragraphs that are longer than 100 bytes.
pub open spec fn quoted_passages(text: Seq<char>) -> Seq<Seq<char>> {
    let cands = take_items(kept(nonblank_paragraphs(text), Keep::LongerThan(100)), 2);
    Seq::new(cands.len(), |i: int| take_chars(cands[i], 200))
}

// ---------------------------------------------------------------------------
// The six sections
// ---------------------------------------------------------------------------

pub open spec fn intro_spec(text: Seq<char>, seed: usize) -> (
    Seq<char>,
    Seq<Seq<char>>,
    Seq<Seq<char>>,
) {
    let sample = intro_sample(text);
    (
        section_headings()[0],
        seq![
            INTRO_OPENING@ + citation_spec(seed, 0) + INTRO_CONTRIBUTION@,
            INTRO_AS@ + citation_spec(seed, 1) + INTRO_DEMONSTRATED@,
        ],
        if sample.len() > 0 {
            seq![INTRO_QUOTE_OPENING@ + sample + QUOTE_CLOSING@]
        } else {
            Seq::empty()
        },
    )
}

pub open spec fn related_spec(seed: usize) -> (Seq<char>, Seq<Seq<char>>, Seq<Seq<char>>) {
    (
        section_headings()[1],
        seq![
            RELATED_OPENING@ + citation_spec(seed, 2) + RELATED_MIDDLE@ + citation_spec(seed, 3)
                + RELATED_CLOSING@,
            RELATED_RECENTLY@ + citation_spec(seed, 4) + RELATED_SCALABLE@,
        ],
        Seq::empty(),
    )
}

pub open spec fn method_spec(word_count: usize) -> (Seq<char>, Seq<Seq<char>>, Seq<Seq<char>>) {
    (
        section_headings()[2],
        seq![
            METHOD_OPENING@ + dec(word_count as nat) + METHOD_WORDS_ACROSS@ + dec(
                (word_count / 15) as nat,
            ) + METHOD_CLOSING@,
        ],
        Seq::empty(),
    )
}

pub open spec fn results_spec(text: Seq<char>, seed: usize) -> (
    Seq<char>,
    Seq<Seq<char>>,
    Seq<Seq<char>>,
) {
    let qs = quoted_passages(text);
    (
        section_headings()[3],
        seq![
            RESULTS_OPENING@ + modifier_kinds()[(seed % 3) as int] + RESULTS_MIDDLE@
                + citation_spec(seed, 5) + RESULTS_CLOSING@,
        ],
        Seq::new(qs.len(), |i: int| RESULTS_QUOTE_OPENING@ + qs[i] + QUOTE_CLOSING@),
    )
}

pub open spec fn discussion_spec() -> (Seq<char>, Seq<Seq<char>>, Seq<Seq<char>>) {
    (section_headings()[4], seq![DISCUSSION_TEXT@], Seq::empty())
}

pub open spec fn conclusion_spec() -> (Seq<char>, Seq<Seq<char>>, Seq<Seq<char>>) {
    (section_headings()[5], seq![CONCLUSION_TEXT@], Seq::empty())
}

/// The six sections of a paper.
pub open spec fn sections_spec(text: Seq<char>, word_count: usize, seed: usize) -> Seq<
    (Seq<char>, Seq<Seq<char>>, Seq<Seq<char>>),
> {
    seq![
        intro_spec(text, seed),
        related_spec(seed),
        method_spec(word_count),
        results_spec(text, seed),
        discussion_spec(),
        conclusion_spec(),
    ]
}

fn introduction(paras: &Vec<Vec<char>>, text: &Vec<char>, seed: usize) -> (r: Section)
    requires
        texts(paras@) == nonblank_paragraphs(text@),
    ensures
        section_view(r) == intro_spec(text@, seed),
{
    let mut first = String::new();
    first.append(INTRO_OPENING);
    let c0 = citation(seed, 0);
    first.append(c0.as_str());
    first.append(INTRO_CONTRIBUTION);
    let mut second = String::new();
    second.append(INTRO_AS);
    let c1 = citation(seed, 1);
    second.append(c1.as_str());
    second.append(INTRO_DEMONSTRATED);
    let mut paragraphs: Vec<String> = Vec::new();
    paragraphs.push(first);
    paragraphs.push(second);
    let sample: Vec<char> = if paras.len() > 0 {
        prefix_chars(&paras[0], 300)
    } else {
        Vec::new()
    };
    proof {
        assert(sample@ == intro_sample(text@));
    }
    let mut blockquotes: Vec<String> = Vec::new();
    if sample.len() > 0 {
        let mut q = String::new();
        q.append(INTRO_QUOTE_OPENING);
        let s = string_of(&sample);
        q.append(s.as_str());
        q.append(QUOTE_CLOSING);
        blockquotes.push(q);
    }
    let r = Section { heading: section_heading(0).to_owned(), paragraphs, blockquotes };
    proof {
        assert(strings(r.paragraphs@) =~= intro_spec(text@, seed).1);
        assert(strings(r.blockquotes@) =~= intro_spec(text@, seed).2);
    }
    r
}

fn related_work(seed: usize) -> (r: Section)
    ensures
        section_view(r) == related_spec(seed),
{
    let mut first = String::new();
    first.append(RELATED_OPENING);
    let c2 = citation(seed, 2);
    first.append(c2.as_str());
    first.append(RELATED_MIDDLE);
    let c3 = citation(seed, 3);
    first.append(c3.as_str());
    first.append(RELATED_CLOSING);
    let mut second = String::new();
    second.append(RELATED_RECENTLY);
    let c4 = citation(seed, 4);
    second.append(c4.as_str());
    second.append(RELATED_SCALABLE);
    let mut paragraphs: Vec<String> = Vec::new();
    paragraphs.push(first);
    paragraphs.push(second);
    let r = Section { heading: section_heading(1).to_owned(), paragraphs, blockquotes: Vec::new() };
    proof {
        assert(strings(r.paragraphs@) =~= related_spec(seed).1);
        assert(strings(r.blockquotes@) =~= related_spec(seed).2);
    }
    r
}

fn methodology(word_count: usize) -> (r: Section)
    ensures
        section_view(r) == method_spec(word_count),
{
    let mut p = String::new();
    p.append(METHOD_OPENING);
    let wc = decimal(word_count);
    p.append(wc.as_str());
    p.append(METHOD_WORDS_ACROSS);
    let ns = decimal(word_count / 15);
    p.append(ns.as_str());
    p.append(METHOD_CLOSING);
    let mut paragraphs: Vec<String> = Vec::new();
    paragraphs.push(p);
    let r = Section { heading: section_heading(2).to_owned(), paragraphs, blockquotes: Vec::new() };
    proof {
        assert(strings(r.paragraphs@) =~= method_spec(word_count).1);
        assert(strings(r.blockquotes@) =~= method_spec(word_count).2);
    }
    r
}

fn results(paras: &Vec<Vec<char>>, text: &Vec<char>, seed: usize) -> (r: Section)
    requires
        texts(paras@) == nonblank_paragraphs(text@),
    ensures
        section_view(r) == results_spec(text@, seed),
{
    let candidates = keep_pieces(paras, Keep::LongerThan(100));
    let ghost cands = take_items(kept(nonblank_paragraphs(text@), Keep::LongerThan(100)), 2);
    let ghost qs = quoted_passages(text@);
    let mut blockquotes: Vec<String> = Vec::new();
    let mut i: usize = 0;
    while i < candidates.len() && i < 2
        invariant
            i <= 2,
            i <= candidates.len(),
            texts(candidates@) == kept(nonblank_paragraphs(text@), Keep::LongerThan(100)),
            cands == take_items(texts(candidates@), 2),
            qs == quoted_passages(text@),
            blockquotes@.len() == i,
            forall|j: int|
                0 <= j < i ==> (#[trigger] blockquotes@[j])@ == RESULTS_QUOTE_OPENING@ + qs[j]
                    + QUOTE_CLOSING@,
        decreases 2 - i,
    {
        let mut q = String::new();
        q.append(RESULTS_QUOTE_OPENING);
        let s = string_of(&prefix_chars(&candidates[i], 200));
        q.append(s.as_str());
        q.append(QUOTE_CLOSING);
        proof {
            assert(cands[i as int] == texts(candidates@)[i as int]);
        }
        blockquotes.push(q);
        i = i + 1;
    }
    let mut p = String::new();
    p.append(RESULTS_OPENING);
    p.append(modifier_kind(seed % 3));
    p.append(RESULTS_MIDDLE);
    let c5 = citation(seed, 5);
    p.append(c5.as_str());
    p.append(RESULTS_CLOSING);
    let mut paragraphs: Vec<String> = Vec::new();
    paragraphs.push(p);
    let r = Section { heading: section_heading(3).to_owned(), paragraphs, blockquotes };
    proof {
        assert(qs.len() == i);
        assert(strings(r.paragraphs@) =~= results_spec(text@, seed).1);
        assert(strings(r.blockquotes@) =~= results_spec(text@, seed).2);
    }
    r
}

fn discussion() -> (r: Section)
    ensures
        section_view(r) == discussion_spec(),
{
    let mut paragraphs: Vec<String> = Vec::new();
    paragraphs.push(DISCUSSION_TEXT.to_owned());
    let r = Section { heading: section_heading(4).to_owned(), paragraphs, blockquotes: Vec::new() };
    proof {
        assert(strings(r.paragraphs@) =~= discussion_spec().1);
        assert(strings(r.blockquotes@) =~= discussion_spec().2);
    }
    r
}

fn conclusion() -> (r: Section)
    ensures
        section_view(r) == conclusion_spec(),
{
    let mut paragraphs: Vec<String> = Vec::new();
    paragraphs.push(CONCLUSION_TEXT.to_owned());
    let r = Section { heading: section_heading(5).to_owned(), paragraphs, blockquotes: Vec::new() };
    proof {
        assert(strings(r.paragraphs@) =~= conclusion_spec().1);
        assert(strings(r.blockquotes@) =~= conclusion_spec().2);
    }
    r
}

/// The six sections of the paper for `text`.
pub fn generate_sections(text: &Vec<char>, word_count: usize, seed: usize) -> (r: Vec<Section>)
    ensures
        r@.len() == 6,
        forall|i: int| 0 <= i < 6 ==> section_view(#[trigger] r@[i]) == sections_spec(text@, word_count, seed)[i],
{
    let paras = split_nonblank_paragraphs(text);
    let mut r: Vec<Section> = Vec::new();
    r.push(introduction(&paras, text, seed));
    r.push(related_work(seed));
    r.push(methodology(word_count));
    r.push(results(&paras, text, seed));
    r.push(discussion());
    r.push(conclusion());
    r
}

// ---------------------------------------------------------------------------
// References
// ---------------------------------------------------------------------------

/// Reference `i` (of 7): its authors, a year picked by the seed, its title,
/// its journal, volume, issue and pages.
pub open spec fn reference_spec(seed: usize, i: int) -> Seq<char> {
    let parts = reference_parts()[i];
    let years = reference_years()[i];
    parts.0 + dec(years.0 + (seed as nat) % years.1) + parts.1 + reference_journals()[reference_venues()[i]]
        + parts.2
}

/// The seven references of a paper.
pub open spec fn references_spec(seed: usize) -> Seq<Seq<char>> {
    Seq::new(7, |i: int| reference_spec(seed, i))
}

fn reference_year(seed: usize, i: usize) -> (r: usize)
    requires
        i < 7,
    ensures
        r as nat == reference_years()[i as int].0 + (seed as nat) % reference_years()[i as int].1,
{
    match i {
        0 => 2019 + seed % 5,
        1 => 2020 + seed % 4,
        2 => 2021 + seed % 3,
        3 => 2022 + seed % 2,
        4 => 2023 + seed % 1,
        5 => 2020 + seed % 4,
        _ => 2021 + seed % 3,
    }
}

fn reference_venue(i: usize) -> (r: usize)
    requires
        i < 7,
    ensures
        r as int == reference_venues()[i as int],
        r < 5,
{
    match i {
        0 => 0,
        1 => 1,
        2 => 2,
        3 => 3,
        4 => 4,
        5 => 0,
        _ => 1,
    }
}

/// The seven references; they do not depend on the text.
pub fn generate_references(text: &Vec<char>, seed: usize) -> (r: Vec<String>)
    ensures
        strings(r@) == references_spec(seed),
{
    let mut r: Vec<String> = Vec::new();
    let mut i: usize = 0;
    while i < 7
        invariant
            i <= 7,
            r@.len() == i,
            forall|j: int| 0 <= j < i ==> (#[trigger] r@[j])@ == reference_spec(seed, j),
        decreases 7 - i,
    {
        let w = reference_wording(i);
        let mut s = String::new();
        s.append(w.0);
        let y = decimal(reference_year(seed, i));
        s.append(y.as_str());
        s.append(w.1);
        s.append(reference_journal(reference_venue(i)));
        s.append(w.2);
        r.push(s);
        i = i + 1;
    }
    proof {
        assert(strings(r@) =~= references_spec(seed));
    }
    r
}

// ---------------------------------------------------------------------------
// Laws
// ---------------------------------------------------------------------------

/// A paper has six sections, from the Introduction to the Conclusion, each
/// under its heading and in that order.
pub proof fn law_six_sections(text: Seq<char>, word_count: usize, seed: usize)
    ensures
        sections_spec(text, word_count, seed).len() == 6,
        forall|i: int|
            0 <= i < 6 ==> (#[trigger] sections_spec(text, word_count, seed)[i]).0
                == section_headings()[i],
        section_headings()[0] == "Introduction"@,
        section_headings()[5] == "Conclusion"@,
{
}

/// A paper has seven references, whatever its seed.
pub proof fn law_seven_references(seed: usize)
    ensures
        references_spec(seed).len() == 7,
{
}

/// The Results section quotes the first two non-blank paragraphs longer
/// than 100 bytes (all of them when there are fewer), in the order of the
/// text: quote `i` is the `i`-th such paragraph, cut to 200 characters.
pub proof fn law_results_quote_first_long_paragraphs(text: Seq<char>, word_count: usize, seed: usize)
    ensures
        exists|idx: Seq<int>|
            #[trigger] picks_first(nonblank_paragraphs(text), Keep::LongerThan(100), 2, idx)
                && sections_spec(text, word_count, seed)[3].2.len() == idx.len() && forall|i: int|
                0 <= i < idx.len() ==> sections_spec(text, word_count, seed)[3].2[i]
                    == RESULTS_QUOTE_OPENING@ + take_chars(
                    nonblank_paragraphs(text)[#[trigger] idx[i]],
                    200,
                ) + QUOTE_CLOSING@,
{
    let ps = nonblank_paragraphs(text);
    lemma_kept_picks_first(ps, Keep::LongerThan(100), 2);
    let idx = take_items(kept_indices(ps, Keep::LongerThan(100)), 2);
    assert(picks_first(ps, Keep::LongerThan(100), 2, idx));
    let qs = sections_spec(text, word_count, seed)[3].2;
    assert forall|i: int| 0 <= i < idx.len() implies qs[i] == RESULTS_QUOTE_OPENING@ + take_chars(
        ps[#[trigger] idx[i]],
        200,
    ) + QUOTE_CLOSING@ by {
        assert(take_items(kept(ps, Keep::LongerThan(100)), 2)[i] == ps[idx[i]]);
        assert(quoted_passages(text)[i] == take_chars(ps[idx[i]], 200));
    }
}

} // verus!
