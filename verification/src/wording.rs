//! The fixed wording of a generated paper: the tables that names, venues and
//! keywords are drawn from, and the sentences that surround the parts taken
//! from the source text.
use vstd::prelude::*;

verus! {

// ---------------------------------------------------------------------------
// Tables
// ---------------------------------------------------------------------------

/// The `&str` items of a table, as character sequences.
pub open spec fn str_views(items: Seq<&'static str>) -> Seq<Seq<char>> {
    Seq::new(items.len(), |i: int| items[i]@)
}

/// Given name, family name and e-mail address of each fictitious author.
pub open spec fn author_rows() -> Seq<(Seq<char>, Seq<char>, Seq<char>)> {
    seq![
        ("A."@, "Marlowe"@, "a.marlowe@literary-analytics.org"@),
        ("J."@, "Whitfield"@, "j.whitfield@cognitextlab.edu"@),
        ("R."@, "Nakamura"@, "r.nakamura@digitalhumanities.jp"@),
        ("S."@, "Okafor"@, "s.okafor@lingua-analytics.ng"@),
        ("E."@, "Vasquez"@, "e.vasquez@narratology-institute.org"@),
        ("L."@, "Chen"@, "l.chen@comp-lit-systems.cn"@),
        ("K."@, "Petrov"@, "k.petrov@textmining.ru"@),
        ("M."@, "O'Brien"@, "m.obrien@corpus-studies.ie"@),
    ]
}

/// The author row at index `i` (of 8).
pub fn author_row(i: usize) -> (r: (&'static str, &'static str, &'static str))
    requires
        i < 8,
    ensures
        (r.0@, r.1@, r.2@) == author_rows()[i as int],
{
    match i {
        0 => ("A.", "Marlowe", "a.marlowe@literary-analytics.org"),
        1 => ("J.", "Whitfield", "j.whitfield@cognitextlab.edu"),
        2 => ("R.", "Nakamura", "r.nakamura@digitalhumanities.jp"),
        3 => ("S.", "Okafor", "s.okafor@lingua-analytics.ng"),
        4 => ("E.", "Vasquez", "e.vasquez@narratology-institute.org"),
        5 => ("L.", "Chen", "l.chen@comp-lit-systems.cn"),
        6 => ("K.", "Petrov", "k.petrov@textmining.ru"),
        _ => ("M.", "O'Brien", "m.obrien@corpus-studies.ie"),
    }
}

pub open spec fn affiliation_names() -> Seq<Seq<char>> {
    seq![
        "Institute for Computational Literary Analysis"@,
        "Centre for Digital Humanities and Narrative Studies"@,
        "Laboratory for Quantitative Text Analysis"@,
        "Department of Computational Philology"@,
        "Research Group for Digital Narratology"@,
    ]
}

/// The research institutions authors are affiliated with.
pub fn affiliations() -> (r: [&'static str; 5])
    ensures
        str_views(r@) == affiliation_names(),
{
    let r = [
        "Institute for Computational Literary Analysis",
        "Centre for Digital Humanities and Narrative Studies",
        "Laboratory for Quantitative Text Analysis",
        "Department of Computational Philology",
        "Research Group for Digital Narratology",
    ];
    assert(str_views(r@) =~= affiliation_names());
    r
}

/// The journals that the references are published in.
pub open spec fn reference_journals() -> Seq<Seq<char>> {
    seq![
        "Journal of Computational Literary Studies"@,
        "Digital Scholarship in the Humanities"@,
        "Literary and Linguistic Computing"@,
        "Journal of Cultural Analytics"@,
        "Poetics: Journal of Empirical Research"@,
    ]
}

pub fn reference_journal(i: usize) -> (r: &'static str)
    requires
        i < 5,
    ensures
        r@ == reference_journals()[i as int],
{
    match i {
        0 => "Journal of Computational Literary Studies",
        1 => "Digital Scholarship in the Humanities",
        2 => "Literary and Linguistic Computing",
        3 => "Journal of Cultural Analytics",
        _ => "Poetics: Journal of Empirical Research",
    }
}

/// The journals a paper can claim to appear in.
pub open spec fn venue_names() -> Seq<Seq<char>> {
    seq![
        "Journal of Computational Literary Studies"@,
        "Digital Scholarship in the Humanities"@,
        "Literary and Linguistic Computing"@,
        "Journal of Cultural Analytics"@,
        "Poetics: Journal of Empirical Research"@,
        "Computational Linguistics"@,
        "Narrative Inquiry"@,
        "Text and Talk"@,
    ]
}

pub fn venue(i: usize) -> (r: &'static str)
    requires
        i < 8,
    ensures
        r@ == venue_names()[i as int],
{
    match i {
        0 => "Journal of Computational Literary Studies",
        1 => "Digital Scholarship in the Humanities",
        2 => "Literary and Linguistic Computing",
        3 => "Journal of Cultural Analytics",
        4 => "Poetics: Journal of Empirical Research",
        5 => "Computational Linguistics",
        6 => "Narrative Inquiry",
        _ => "Text and Talk",
    }
}

/// The topics a title can announce.
pub open spec fn title_topics() -> Seq<Seq<char>> {
    seq![
        "Narrative Structure"@,
        "Discourse Analysis"@,
        "Stylistic Variation"@,
        "Narrative Progression"@,
        "Textual Coherence"@,
        "Corpus Stylistics"@,
        "Diegetic Frameworks"@,
        "Narrative Modalities"@,
    ]
}

pub fn title_topic(i: usize) -> (r: &'static str)
    requires
        i < 8,
    ensures
        r@ == title_topics()[i as int],
{
    match i {
        0 => "Narrative Structure",
        1 => "Discourse Analysis",
        2 => "Stylistic Variation",
        3 => "Narrative Progression",
        4 => "Textual Coherence",
        5 => "Corpus Stylistics",
        6 => "Diegetic Frameworks",
        _ => "Narrative Modalities",
    }
}

/// The bodies of literature a title can be about.
pub open spec fn title_focuses() -> Seq<Seq<char>> {
    seq![
        "Contemporary Literary Prose"@,
        "Modern Narrative Fiction"@,
        "Twenty-First-Century Literature"@,
        "Experimental Narrative Forms"@,
    ]
}

pub fn title_focus(i: usize) -> (r: &'static str)
    requires
        i < 4,
    ensures
        r@ == title_focuses()[i as int],
{
    match i {
        0 => "Contemporary Literary Prose",
        1 => "Modern Narrative Fiction",
        2 => "Twenty-First-Century Literature",
        _ => "Experimental Narrative Forms",
    }
}

/// The authors that in-text citations name.
pub open spec fn citation_authors() -> Seq<Seq<char>> {
    seq![
        "Marlowe et al."@,
        "Whitfield & Nakamura"@,
        "Chen & Petrov"@,
        "Okafor et al."@,
        "Vasquez & O'Brien"@,
    ]
}

pub fn citation_author(i: usize) -> (r: &'static str)
    requires
        i < 5,
    ensures
        r@ == citation_authors()[i as int],
{
    match i {
        0 => "Marlowe et al.",
        1 => "Whitfield & Nakamura",
        2 => "Chen & Petrov",
        3 => "Okafor et al.",
        _ => "Vasquez & O'Brien",
    }
}

/// The years that in-text citations give.
pub open spec fn citation_years() -> Seq<Seq<char>> {
    seq!["2019"@, "2021"@, "2022"@, "2023"@, "2024"@]
}

pub fn citation_year(i: usize) -> (r: &'static str)
    requires
        i < 5,
    ensures
        r@ == citation_years()[i as int],
{
    match i {
        0 => "2019",
        1 => "2021",
        2 => "2022",
        3 => "2023",
        _ => "2024",
    }
}

/// The headings of the six sections, in order.
pub open spec fn section_headings() -> Seq<Seq<char>> {
    seq![
        "Introduction"@,
        "Related Work"@,
        "Corpus and Methodology"@,
        "Results and Analysis"@,
        "Discussion"@,
        "Conclusion"@,
    ]
}

pub fn section_heading(i: usize) -> (r: &'static str)
    requires
        i < 6,
    ensures
        r@ == section_headings()[i as int],
{
    match i {
        0 => "Introduction",
        1 => "Related Work",
        2 => "Corpus and Methodology",
        3 => "Results and Analysis",
        4 => "Discussion",
        _ => "Conclusion",
    }
}

/// The kinds of modifier the results claim the text prefers.
pub open spec fn modifier_kinds() -> Seq<Seq<char>> {
    seq!["attributive"@, "qualitative"@, "evaluative"@]
}

pub fn modifier_kind(i: usize) -> (r: &'static str)
    requires
        i < 3,
    ensures
        r@ == modifier_kinds()[i as int],
{
    match i {
        0 => "attributive",
        1 => "qualitative",
        _ => "evaluative",
    }
}

/// The three pools of four keywords.
pub open spec fn keyword_pools() -> Seq<Seq<Seq<char>>> {
    seq![
        seq![
            "computational literary analysis"@,
            "narrative theory"@,
            "corpus stylistics"@,
            "quantitative methods"@,
        ],
        seq![
            "digital humanities"@,
            "text mining"@,
            "stylistic variation"@,
            "discourse analysis"@,
        ],
        seq![
            "computational narratology"@,
            "literary computing"@,
            "distant reading"@,
            "stylometry"@,
        ],
    ]
}

/// Keyword `j` (of 4) of pool `i` (of 3).
pub fn keyword(i: usize, j: usize) -> (r: &'static str)
    requires
        i < 3,
        j < 4,
    ensures
        r@ == keyword_pools()[i as int][j as int],
{
    match (i, j) {
        (0, 0) => "computational literary analysis",
        (0, 1) => "narrative theory",
        (0, 2) => "corpus stylistics",
        (0, _) => "quantitative methods",
        (1, 0) => "digital humanities",
        (1, 1) => "text mining",
        (1, 2) => "stylistic variation",
        (1, _) => "discourse analysis",
        (_, 0) => "computational narratology",
        (_, 1) => "literary computing",
        (_, 2) => "distant reading",
        (_, _) => "stylometry",
    }
}

/// The names of the months.
pub open spec fn month_names() -> Seq<Seq<char>> {
    seq![
        "January"@,
        "February"@,
        "March"@,
        "April"@,
        "May"@,
        "June"@,
        "July"@,
        "August"@,
        "September"@,
        "October"@,
        "November"@,
        "December"@,
    ]
}

pub fn month_name(i: usize) -> (r: &'static str)
    requires
        i < 12,
    ensures
        r@ == month_names()[i as int],
{
    match i {
        0 => "January",
        1 => "February",
        2 => "March",
        3 => "April",
        4 => "May",
        5 => "June",
        6 => "July",
        7 => "August",
        8 => "September",
        9 => "October",
        10 => "November",
        _ => "December",
    }
}

// ---------------------------------------------------------------------------
// The abstract
// ---------------------------------------------------------------------------

pub const ABSTRACT_BACKGROUND: &'static str =
    "The computational analysis of literary texts has emerged as a significant \
     area of research within the digital humanities, offering new methods for \
     understanding narrative structure, stylistic variation, and thematic \
     progression at scale. Despite these advances, the application of such \
     techniques to contemporary fiction remains comparatively underexplored.";

/// Before the number of paragraphs.
pub const ABSTRACT_METHODS_OPENING: &'static str =
    "This study employs a mixed-methods framework combining corpus linguistic \
     techniques with computational text analysis. The corpus comprises ";

/// After the number of paragraphs.
pub const ABSTRACT_METHODS_CLOSING: &'static str =
    " textual segments drawn from contemporary narrative prose, \
     analyzed for lexical distribution and syntactic complexity using automated parsing tools.";

/// Before the sample sentence.
pub const ABSTRACT_RESULTS_OPENING: &'static str =
    "Analysis revealed systematic patterns in the distribution of key linguistic \
     features across the narrative. ";

/// After the sample sentence.
pub const ABSTRACT_RESULTS_CLOSING: &'static str =
    " These patterns were consistent \
     with established theories of narrative discourse while also revealing novel \
     structural characteristics not previously documented in the literature.";

pub const ABSTRACT_CONCLUSIONS: &'static str =
    "Our findings demonstrate the efficacy of computational approaches for \
     literary analysis and identify new directions for research at the intersection \
     of quantitative methods and narrative theory. The methodology developed here \
     is broadly applicable to a wide range of literary texts.";

// ---------------------------------------------------------------------------
// The sections
// ---------------------------------------------------------------------------

/// Introduction, first paragraph, before the first citation.
pub const INTRO_OPENING: &'static str =
    "Over the past decade, computational approaches to literary analysis have \
     gained significant traction within the digital humanities. Scholars have \
     employed a range of quantitative methods to examine stylistic variation, \
     narrative structure, and thematic development across diverse corpora ";

/// Introduction, first paragraph, after the first citation.
pub const INTRO_CONTRIBUTION: &'static str = ".\n\n\
     The present study contributes to this growing body of work by applying \
     computational text analysis to a previously unexamined work of contemporary \
     fiction. Our approach integrates corpus linguistic techniques with \
     established frameworks from narratology.";

/// Introduction, second paragraph, before the second citation.
pub const INTRO_AS: &'static str = "As ";

/// Introduction, second paragraph, after the second citation.
pub const INTRO_DEMONSTRATED: &'static str =
    " have demonstrated, the application of computational methods to \
     literary texts can reveal patterns that are not readily apparent through \
     traditional close reading alone. Building on these foundations, we seek \
     to extend the methodological repertoire available to literary scholars.";

/// Before the opening of the source text, quoted in the introduction.
pub const INTRO_QUOTE_OPENING: &'static str = "The narrative opens: '";

/// Closes a quotation.
pub const QUOTE_CLOSING: &'static str = "'";

/// Related work, first paragraph, before the third citation.
pub const RELATED_OPENING: &'static str =
    "Previous research in computational literary studies has broadly followed \
     two methodological trajectories. The first, exemplified by the work of \
     ";

/// Related work, first paragraph, between the third and fourth citations.
pub const RELATED_MIDDLE: &'static str =
    ", focuses on large-scale corpus analyses that identify stylistic \
     patterns across extensive collections of texts. The second approach, \
     represented by ";

/// Related work, first paragraph, after the fourth citation.
pub const RELATED_CLOSING: &'static str =
    ", employs close computational reading techniques \
     that combine algorithmic analysis with interpretative frameworks drawn \
     from literary theory.";

/// Related work, second paragraph, before the fifth citation.
pub const RELATED_RECENTLY: &'static str = "More recently, ";

/// Related work, second paragraph, after the fifth citation.
pub const RELATED_SCALABLE: &'static str =
    " have proposed integrated frameworks that synthesis \
     these approaches, arguing for a 'scalable reading' methodology that \
     moves beyond the traditional opposition between quantitative and \
     qualitative methods.";

/// Methodology, before the word count.
pub const METHOD_OPENING: &'static str =
    "The corpus for this study consists of a single sustained work of \
     contemporary narrative prose, comprising approximately ";

/// Methodology, between the word count and the sentence estimate.
pub const METHOD_WORDS_ACROSS: &'static str = " words \
     across ";

/// Methodology, after the sentence estimate.
pub const METHOD_CLOSING: &'static str =
    " sentences. The text was digitized and processed using \
     automated text extraction tools, then segmented into paragraphs and \
     sentences using a rule-based sentence boundary detector.\n\n\
     Each segment was analyzed using a pipeline that included part-of-speech \
     tagging, dependency parsing, and lexical frequency analysis. Statistical \
     analyses were performed using custom scripts.";

/// Before a passage of the source text quoted in the results.
pub const RESULTS_QUOTE_OPENING: &'static str =
    "A representative passage illustrates the characteristic stylistic \
     features identified: '";

/// Results, before the modifier kind.
pub const RESULTS_OPENING: &'static str =
    "The analysis revealed several notable patterns in the linguistic \
     structure of the text. Lexical frequency analysis indicated a marked \
     preference for ";

/// Results, between the modifier kind and the sixth citation.
pub const RESULTS_MIDDLE: &'static str =
    "-type modifiers, consistent with the narrative's \
     stylistic register. Sentence length variability was found to correlate \
     with shifts in narrative pacing, a finding that aligns with the \
     observations of ";

/// Results, after the sixth citation.
pub const RESULTS_CLOSING: &'static str = " regarding the relationship between syntax and \
     narrative rhythm.";

pub const DISCUSSION_TEXT: &'static str =
    "The patterns identified through our computational analysis offer new \
     insights into the stylistic and structural features of contemporary \
     narrative prose. The correlation between syntactic complexity and \
     narrative pacing, in particular, merits further investigation across \
     a larger corpus of texts.\n\n\
     Our findings also raise important methodological questions about the \
     relationship between computational analysis and literary interpretation. \
     While quantitative methods can identify patterns at scale, the \
     interpretative significance of these patterns ultimately depends on \
     close engagement with the text.";

pub const CONCLUSION_TEXT: &'static str =
    "This study has demonstrated the value of computational approaches for \
     the analysis of contemporary literary fiction. By combining corpus \
     linguistic techniques with narratological frameworks, we have identified \
     stylistic and structural patterns that contribute to our understanding \
     of narrative discourse.\n\n\
     Future work should extend this analysis to a larger corpus and explore \
     the application of more advanced natural language processing techniques, \
     including transformer-based language models, to the analysis of literary \
     style.";

// ---------------------------------------------------------------------------
// The references
// ---------------------------------------------------------------------------

/// Each reference: the text before its year, and the text between the year
/// and the journal; after the journal come volume, issue and pages.
pub open spec fn reference_parts() -> Seq<(Seq<char>, Seq<char>, Seq<char>)> {
    seq![
        (REF1_AUTHORS@, REF1_TITLE@, REF1_PAGES@),
        (REF2_AUTHORS@, REF2_TITLE@, REF2_PAGES@),
        (REF3_AUTHORS@, REF3_TITLE@, REF3_PAGES@),
        (REF4_AUTHORS@, REF4_TITLE@, REF4_PAGES@),
        (REF5_AUTHORS@, REF5_TITLE@, REF5_PAGES@),
        (REF6_AUTHORS@, REF6_TITLE@, REF6_PAGES@),
        (REF7_AUTHORS@, REF7_TITLE@, REF7_PAGES@),
    ]
}

pub const REF1_AUTHORS: &'static str = "Marlowe, A. (";

pub const REF1_TITLE: &'static str = "). Quantitative approaches to narrative structure. \
     ";

pub const REF1_PAGES: &'static str = ", 45(3), 234–256.";

pub const REF2_AUTHORS: &'static str = "Whitfield, J., & Nakamura, R. (";

pub const REF2_TITLE: &'static str = "). Corpus stylistics and the analysis \
     of contemporary fiction. ";

pub const REF2_PAGES: &'static str = ", 12(2), 89–112.";

pub const REF3_AUTHORS: &'static str = "Chen, L., & Petrov, K. (";

pub const REF3_TITLE: &'static str = "). Computational narratology: Methods and \
     applications. ";

pub const REF3_PAGES: &'static str = ", 8(4), 345–378.";

pub const REF4_AUTHORS: &'static str = "Okafor, S., Vasquez, E., & O'Brien, M. (";

pub const REF4_TITLE: &'static str = "). Scalable reading: \
     Integrating computational and interpretative approaches to literature. \
     ";

pub const REF4_PAGES: &'static str = ", 33(1), 67–89.";

pub const REF5_AUTHORS: &'static str = "Marlowe, A., & Chen, L. (";

pub const REF5_TITLE: &'static str = "). Lexical distribution and narrative \
     discourse: A corpus-based study. ";

pub const REF5_PAGES: &'static str = ", 29(4), 412–435.";

pub const REF6_AUTHORS: &'static str = "Nakamura, R. (";

pub const REF6_TITLE: &'static str = "). Syntactic complexity and narrative rhythm in \
     contemporary prose. ";

pub const REF6_PAGES: &'static str = ", 15(2), 178–201.";

pub const REF7_AUTHORS: &'static str = "Vasquez, E., & Okafor, S. (";

pub const REF7_TITLE: &'static str = "). Digital humanities and the future \
     of literary criticism. ";

pub const REF7_PAGES: &'static str = ", 41(1), 23–45.";

/// The wording of reference `i` (of 7).
pub fn reference_wording(i: usize) -> (r: (&'static str, &'static str, &'static str))
    requires
        i < 7,
    ensures
        (r.0@, r.1@, r.2@) == reference_parts()[i as int],
{
    match i {
        0 => (REF1_AUTHORS, REF1_TITLE, REF1_PAGES),
        1 => (REF2_AUTHORS, REF2_TITLE, REF2_PAGES),
        2 => (REF3_AUTHORS, REF3_TITLE, REF3_PAGES),
        3 => (REF4_AUTHORS, REF4_TITLE, REF4_PAGES),
        4 => (REF5_AUTHORS, REF5_TITLE, REF5_PAGES),
        5 => (REF6_AUTHORS, REF6_TITLE, REF6_PAGES),
        _ => (REF7_AUTHORS, REF7_TITLE, REF7_PAGES),
    }
}

/// The first year each reference can have, and how many years follow it;
/// the year is `base + seed % span`.
pub open spec fn reference_years() -> Seq<(nat, nat)> {
    seq![(2019, 5), (2020, 4), (2021, 3), (2022, 2), (2023, 1), (2020, 4), (2021, 3)]
}

/// The journal each reference appears in, as an index of
/// `reference_journals`.
pub open spec fn reference_venues() -> Seq<int> {
    seq![0, 1, 2, 3, 4, 0, 1]
}

} // verus!
