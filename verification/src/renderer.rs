//! Renders a generated paper as a complete LaTeX document.
use vstd::prelude::*;
use vstd::string::StringExecFns;
use crate::numfmt::{dec, decimal};
use crate::templates::{POSTAMBLE, escape_tex, get_postamble, get_preamble, preamble_spec, push_escaped};
use crate::text::{chars_of, join, join_pieces, string_of, texts};
use crate::transformer::{Author, PaperData, Section, strings};

verus! {

pub const JOURNAL_HEADER_OPEN: &'static str =
    "\\renewcommand\\thepage{\\arabic{page}}\n\\fancyhead[LE,LO]{";

pub const VOLUME_OPEN: &'static str = "}\n\\fancyhead[RE,RO]{Vol.~";

pub const ISSUE_OPEN: &'static str = ", No.~";

pub const VENUE_OPEN: &'static str = "}\n\n\\noindent{\\small\\itshape ";

pub const DOI_OPEN: &'static str = "}\n\n\\noindent{\\small DOI: ";

pub const RECEIVED_OPEN: &'static str = "}\n\n\\noindent{\\small Received: ";

pub const ACCEPTED_OPEN: &'static str = "; Accepted: ";

/// Closes a braced line and leaves a blank line.
pub const CLOSE_PARAGRAPH: &'static str = "}\n\n";

pub const AUTHOR_OPEN: &'static str = "\\noindent{";

pub const ORCID_LINK_OPEN: &'static str = "$^{\\dagger}$\\ \\href{https://orcid.org/";

pub const ORCID_LABEL_OPEN: &'static str = "}{\\scriptsize\\textcolor{gray}{ORCID: ";

pub const AUTHOR_CLOSE: &'static str = "}}$^{}$}\n";

pub const AUTHORS_SPACING: &'static str = "\\vspace{0.3cm}\n\n";

pub const AFFILIATION_MARK: &'static str = "$^{\\dagger}$";

pub const AFFILIATION_CLOSE: &'static str = "\\\\\n";

pub const CORRESPONDENCE: &'static str = "Correspondence: ";

pub const EMAIL_OPEN: &'static str = " \\texttt{";

pub const KEYWORDS_OPEN: &'static str = "\\noindent{\\textbf{Keywords:}} ";

pub const BLANK_LINE: &'static str = "\n\n";

pub const ABSTRACT_OPEN: &'static str = "\\begin{abstract}\n\\textbf{Background:} ";

pub const METHODS_LABEL: &'static str = "\\par\n\\textbf{Methods:} ";

pub const RESULTS_LABEL: &'static str = "\\par\n\\textbf{Results:} ";

pub const CONCLUSIONS_LABEL: &'static str = "\\par\n\\textbf{Conclusions:} ";

pub const ABSTRACT_CLOSE: &'static str = "\n\\end{abstract}\n\n";

pub const SECTION_OPEN: &'static str = "\\section{";

pub const SECTION_CLOSE: &'static str = "}\n";

pub const QUOTE_OPEN: &'static str = "\\begin{quote}\n";

pub const QUOTE_CLOSE: &'static str = "\\end{quote}\n\n";

/// Acknowledgements, data availability, competing interests, and the start
/// of the bibliography.
pub const BACK_MATTER: &'static str = "\\section*{Acknowledgements}\n\
    The authors thank the participants of the Workshop on Computational Approaches to Literary Analysis for their valuable feedback. This research was partially supported by a grant from the Digital Humanities Research Council.\n\n\
    \\section*{Data Availability}\n\
    The corpus used in this study is available from the authors upon reasonable request. Analysis scripts are hosted on GitHub (https://github.com/papercoat/papercoat).\n\n\
    \\section*{Competing Interests}\n\
    The authors declare no competing interests.\n\n\
    \\begin{thebibliography}{99}\n";

pub const BIBITEM_OPEN: &'static str = "\\bibitem{ref";

pub const BIBITEM_CLOSE: &'static str = "} ";

pub const LINE_END: &'static str = "\n";

pub const BIBLIOGRAPHY_CLOSE: &'static str = "\\end{thebibliography}\n";

// ---------------------------------------------------------------------------
// The parts of the document
// ---------------------------------------------------------------------------

/// The line naming an author, with a link to the ORCID record.
pub open spec fn author_tex(a: Author) -> Seq<char> {
    AUTHOR_OPEN@ + escape_tex(a.given_name@) + " "@ + escape_tex(a.family_name@)
        + ORCID_LINK_OPEN@ + escape_tex(a.orcid@) + ORCID_LABEL_OPEN@ + escape_tex(a.orcid@)
        + AUTHOR_CLOSE@
}

pub open spec fn authors_tex(authors: Seq<Author>) -> Seq<char>
    decreases authors.len(),
{
    if authors.len() == 0 {
        Seq::empty()
    } else {
        authors_tex(authors.drop_last()) + author_tex(authors.last())
    }
}

/// The numbered affiliation lines, numbered from 1.
pub open spec fn affiliations_tex(authors: Seq<Author>) -> Seq<char>
    decreases authors.len(),
{
    if authors.len() == 0 {
        Seq::empty()
    } else {
        affiliations_tex(authors.drop_last()) + AFFILIATION_MARK@ + dec(authors.len()) + ". "@
            + escape_tex(authors.last().affiliation@) + AFFILIATION_CLOSE@
    }
}

pub open spec fn paragraphs_tex(ps: Seq<Seq<char>>) -> Seq<char>
    decreases ps.len(),
{
    if ps.len() == 0 {
        Seq::empty()
    } else {
        paragraphs_tex(ps.drop_last()) + escape_tex(ps.last()) + BLANK_LINE@
    }
}

pub open spec fn quotes_tex(qs: Seq<Seq<char>>) -> Seq<char>
    decreases qs.len(),
{
    if qs.len() == 0 {
        Seq::empty()
    } else {
        quotes_tex(qs.drop_last()) + QUOTE_OPEN@ + escape_tex(qs.last()) + QUOTE_CLOSE@
    }
}

pub open spec fn section_tex(s: Section) -> Seq<char> {
    SECTION_OPEN@ + escape_tex(s.heading@) + SECTION_CLOSE@ + paragraphs_tex(strings(s.paragraphs@))
        + quotes_tex(strings(s.blockquotes@))
}

pub open spec fn sections_tex(ss: Seq<Section>) -> Seq<char>
    decreases ss.len(),
{
    if ss.len() == 0 {
        Seq::empty()
    } else {
        sections_tex(ss.drop_last()) + section_tex(ss.last())
    }
}

/// The bibliography items, numbered from 1.
pub open spec fn bibitems_tex(refs: Seq<Seq<char>>) -> Seq<char>
    decreases refs.len(),
{
    if refs.len() == 0 {
        Seq::empty()
    } else {
        bibitems_tex(refs.drop_last()) + BIBITEM_OPEN@ + dec(refs.len()) + BIBITEM_CLOSE@
            + escape_tex(refs.last()) + LINE_END@
    }
}

/// The journal header and the manuscript metadata.
pub open spec fn header_tex(p: PaperData) -> Seq<char> {
    JOURNAL_HEADER_OPEN@ + escape_tex(p.journal@) + VOLUME_OPEN@ + escape_tex(p.volume@)
        + ISSUE_OPEN@ + escape_tex(p.issue@) + VENUE_OPEN@ + escape_tex(p.journal@) + DOI_OPEN@
        + escape_tex(p.doi@) + RECEIVED_OPEN@ + escape_tex(p.received@) + ACCEPTED_OPEN@
        + escape_tex(p.accepted@) + CLOSE_PARAGRAPH@
}

/// The e-mail address of the first author, labelled as the correspondence
/// address when there are several authors.
pub open spec fn correspondence_tex(p: PaperData) -> Seq<char> {
    (if p.authors@.len() > 1 {
        CORRESPONDENCE@
    } else {
        Seq::empty()
    }) + EMAIL_OPEN@ + escape_tex(p.authors@[0].email@) + CLOSE_PARAGRAPH@
}

pub open spec fn keywords_tex(p: PaperData) -> Seq<char> {
    KEYWORDS_OPEN@ + escape_tex(join(strings(p.keywords@), "; "@)) + BLANK_LINE@
}

/// The front matter after the preamble: journal header, manuscript
/// metadata, authors, affiliations, correspondence and keywords.
pub open spec fn front_matter_tex(p: PaperData) -> Seq<char> {
    header_tex(p) + authors_tex(p.authors@) + AUTHORS_SPACING@ + affiliations_tex(p.authors@)
        + correspondence_tex(p) + keywords_tex(p)
}

pub open spec fn abstract_tex(p: PaperData) -> Seq<char> {
    ABSTRACT_OPEN@ + escape_tex(p.abstract_sections.background@) + METHODS_LABEL@
        + escape_tex(p.abstract_sections.methods@) + RESULTS_LABEL@ + escape_tex(
        p.abstract_sections.results@,
    ) + CONCLUSIONS_LABEL@ + escape_tex(p.abstract_sections.conclusions@) + ABSTRACT_CLOSE@
}

/// The LaTeX document for paper `p` in template `template`.
pub open spec fn tex_spec(p: PaperData, template: Seq<char>) -> Seq<char> {
    preamble_spec(template, p.title@, p.author_line@) + front_matter_tex(p) + abstract_tex(p)
        + sections_tex(p.sections@) + BACK_MATTER@ + bibitems_tex(strings(p.references@))
        + BIBLIOGRAPHY_CLOSE@ + POSTAMBLE@ + LINE_END@
}

// ---------------------------------------------------------------------------
// Rendering
// ---------------------------------------------------------------------------

fn push_authors(tex: &mut String, authors: &Vec<Author>)
    ensures
        final(tex)@ == old(tex)@ + authors_tex(authors@),
{
    let ghost start = tex@;
    let mut i: usize = 0;
    while i < authors.len()
        invariant
            i <= authors.len(),
            tex@ == start + authors_tex(authors@.take(i as int)),
        decreases authors.len() - i,
    {
        let a = &authors[i];
        tex.append(AUTHOR_OPEN);
        push_escaped(tex, a.given_name.as_str());
        tex.append(" ");
        push_escaped(tex, a.family_name.as_str());
        tex.append(ORCID_LINK_OPEN);
        push_escaped(tex, a.orcid.as_str());
        tex.append(ORCID_LABEL_OPEN);
        push_escaped(tex, a.orcid.as_str());
        tex.append(AUTHOR_CLOSE);
        proof {
            assert(authors@.take(i + 1).drop_last() =~= authors@.take(i as int));
        }
        i = i + 1;
    }
    proof {
        assert(authors@.take(authors.len() as int) =~= authors@);
    }
}

fn push_affiliations(tex: &mut String, authors: &Vec<Author>)
    ensures
        final(tex)@ == old(tex)@ + affiliations_tex(authors@),
{
    let ghost start = tex@;
    let mut i: usize = 0;
    while i < authors.len()
        invariant
            i <= authors.len(),
            tex@ == start + affiliations_tex(authors@.take(i as int)),
        decreases authors.len() - i,
    {
        tex.append(AFFILIATION_MARK);
        let n = decimal(i + 1);
        tex.append(n.as_str());
        tex.append(". ");
        push_escaped(tex, authors[i].affiliation.as_str());
        tex.append(AFFILIATION_CLOSE);
        proof {
            assert(authors@.take(i + 1).drop_last() =~= authors@.take(i as int));
        }
        i = i + 1;
    }
    proof {
        assert(authors@.take(authors.len() as int) =~= authors@);
    }
}

fn push_section(tex: &mut String, s: &Section)
    ensures
        final(tex)@ == old(tex)@ + section_tex(*s),
{
    tex.append(SECTION_OPEN);
    push_escaped(tex, s.heading.as_str());
    tex.append(SECTION_CLOSE);
    let ghost mid = tex@;
    let ghost ps = strings(s.paragraphs@);
    let mut i: usize = 0;
    while i < s.paragraphs.len()
        invariant
            i <= s.paragraphs.len(),
            ps == strings(s.paragraphs@),
            tex@ == mid + paragraphs_tex(ps.take(i as int)),
        decreases s.paragraphs.len() - i,
    {
        push_escaped(tex, s.paragraphs[i].as_str());
        tex.append(BLANK_LINE);
        proof {
            assert(ps.take(i + 1).drop_last() =~= ps.take(i as int));
        }
        i = i + 1;
    }
    proof {
        assert(ps.take(s.paragraphs.len() as int) =~= ps);
    }
    let ghost mid2 = tex@;
    let ghost qs = strings(s.blockquotes@);
    let mut j: usize = 0;
    while j < s.blockquotes.len()
        invariant
            j <= s.blockquotes.len(),
            qs == strings(s.blockquotes@),
            tex@ == mid2 + quotes_tex(qs.take(j as int)),
        decreases s.blockquotes.len() - j,
    {
        tex.append(QUOTE_OPEN);
        push_escaped(tex, s.blockquotes[j].as_str());
        tex.append(QUOTE_CLOSE);
        proof {
            assert(qs.take(j + 1).drop_last() =~= qs.take(j as int));
        }
        j = j + 1;
    }
    proof {
        assert(qs.take(s.blockquotes.len() as int) =~= qs);
    }
}

fn push_sections(tex: &mut String, sections: &Vec<Section>)
    ensures
        final(tex)@ == old(tex)@ + sections_tex(sections@),
{
    let ghost start = tex@;
    let mut i: usize = 0;
    while i < sections.len()
        invariant
            i <= sections.len(),
            tex@ == start + sections_tex(sections@.take(i as int)),
        decreases sections.len() - i,
    {
        push_section(tex, &sections[i]);
        proof {
            assert(sections@.take(i + 1).drop_last() =~= sections@.take(i as int));
        }
        i = i + 1;
    }
    proof {
        assert(sections@.take(sections.len() as int) =~= sections@);
    }
}

fn push_bibitems(tex: &mut String, refs: &Vec<String>)
    ensures
        final(tex)@ == old(tex)@ + bibitems_tex(strings(refs@)),
{
    let ghost start = tex@;
    let ghost rs = strings(refs@);
    let mut i: usize = 0;
    while i < refs.len()
        invariant
            i <= refs.len(),
            rs == strings(refs@),
            tex@ == start + bibitems_tex(rs.take(i as int)),
        decreases refs.len() - i,
    {
        tex.append(BIBITEM_OPEN);
        let n = decimal(i + 1);
        tex.append(n.as_str());
        tex.append(BIBITEM_CLOSE);
        push_escaped(tex, refs[i].as_str());
        tex.append(LINE_END);
        proof {
            assert(rs.take(i + 1).drop_last() =~= rs.take(i as int));
        }
        i = i + 1;
    }
    proof {
        assert(rs.take(refs.len() as int) =~= rs);
    }
}

fn header_text(paper: &PaperData) -> (r: String)
    ensures
        r@ == header_tex(*paper),
{
    let mut r = JOURNAL_HEADER_OPEN.to_owned();
    push_escaped(&mut r, paper.journal.as_str());
    r.append(VOLUME_OPEN);
    push_escaped(&mut r, paper.volume.as_str());
    r.append(ISSUE_OPEN);
    push_escaped(&mut r, paper.issue.as_str());
    r.append(VENUE_OPEN);
    push_escaped(&mut r, paper.journal.as_str());
    r.append(DOI_OPEN);
    push_escaped(&mut r, paper.doi.as_str());
    r.append(RECEIVED_OPEN);
    push_escaped(&mut r, paper.received.as_str());
    r.append(ACCEPTED_OPEN);
    push_escaped(&mut r, paper.accepted.as_str());
    r.append(CLOSE_PARAGRAPH);
    r
}

fn correspondence_text(paper: &PaperData) -> (r: String)
    requires
        paper.authors@.len() > 0,
    ensures
        r@ == correspondence_tex(*paper),
{
    let mut r = String::new();
    if paper.authors.len() > 1 {
        r.append(CORRESPONDENCE);
    }
    let ghost lead = r@;
    proof {
        assert(lead =~= (if paper.authors@.len() > 1 {
            CORRESPONDENCE@
        } else {
            Seq::empty()
        }));
    }
    r.append(EMAIL_OPEN);
    push_escaped(&mut r, paper.authors[0].email.as_str());
    r.append(CLOSE_PARAGRAPH);
    r
}

fn keywords_text(paper: &PaperData) -> (r: String)
    ensures
        r@ == keywords_tex(*paper),
{
    let mut kws: Vec<Vec<char>> = Vec::new();
    let ghost all = strings(paper.keywords@);
    let mut i: usize = 0;
    while i < paper.keywords.len()
        invariant
            i <= paper.keywords.len(),
            all == strings(paper.keywords@),
            texts(kws@) == all.take(i as int),
        decreases paper.keywords.len() - i,
    {
        let ghost before = texts(kws@);
        let k = chars_of(paper.keywords[i].as_str());
        kws.push(k);
        proof {
            assert(texts(kws@) =~= before.push(all[i as int]));
            assert(all.take(i + 1) =~= all.take(i as int).push(all[i as int]));
        }
        i = i + 1;
    }
    proof {
        assert(all.take(paper.keywords.len() as int) =~= all);
    }
    let joined = string_of(&join_pieces(&kws, "; "));
    let mut r = KEYWORDS_OPEN.to_owned();
    push_escaped(&mut r, joined.as_str());
    r.append(BLANK_LINE);
    r
}

fn abstract_text(paper: &PaperData) -> (r: String)
    ensures
        r@ == abstract_tex(*paper),
{
    let mut r = ABSTRACT_OPEN.to_owned();
    push_escaped(&mut r, paper.abstract_sections.background.as_str());
    r.append(METHODS_LABEL);
    push_escaped(&mut r, paper.abstract_sections.methods.as_str());
    r.append(RESULTS_LABEL);
    push_escaped(&mut r, paper.abstract_sections.results.as_str());
    r.append(CONCLUSIONS_LABEL);
    push_escaped(&mut r, paper.abstract_sections.conclusions.as_str());
    r.append(ABSTRACT_CLOSE);
    r
}

fn front_matter_text(paper: &PaperData) -> (r: String)
    requires
        paper.authors@.len() > 0,
    ensures
        r@ == front_matter_tex(*paper),
{
    let mut r = header_text(paper);
    push_authors(&mut r, &paper.authors);
    r.append(AUTHORS_SPACING);
    push_affiliations(&mut r, &paper.authors);
    let c = correspondence_text(paper);
    r.append(c.as_str());
    let k = keywords_text(paper);
    r.append(k.as_str());
    r
}

/// The LaTeX document for `paper` laid out by `template`: preamble, journal
/// header, metadata, authors and affiliations, keywords, abstract, sections,
/// back matter, bibliography and postamble.
pub fn render_tex(paper: &PaperData, template: &str) -> (r: String)
    requires
        paper.authors@.len() > 0,
    ensures
        r@ == tex_spec(*paper, template@),
{
    let mut tex = get_preamble(template, paper.title.as_str(), paper.author_line.as_str());
    let front = front_matter_text(paper);
    tex.append(front.as_str());
    let abs = abstract_text(paper);
    tex.append(abs.as_str());
    push_sections(&mut tex, &paper.sections);
    tex.append(BACK_MATTER);
    push_bibitems(&mut tex, &paper.references);
    tex.append(BIBLIOGRAPHY_CLOSE);
    tex.append(get_postamble());
    tex.append(LINE_END);
    tex
}

// ---------------------------------------------------------------------------
// Laws
// ---------------------------------------------------------------------------

/// A rendered document begins with its template's preamble (which opens the
/// document) and ends by closing it, followed by a newline.
pub proof fn law_document_is_complete(p: PaperData, template: Seq<char>)
    ensures
        tex_spec(p, template).take(preamble_spec(template, p.title@, p.author_line@).len() as int)
            == preamble_spec(template, p.title@, p.author_line@),
        tex_spec(p, template).len() >= POSTAMBLE@.len() + LINE_END@.len(),
        tex_spec(p, template).skip(
            tex_spec(p, template).len() - POSTAMBLE@.len() - LINE_END@.len(),
        ) == POSTAMBLE@ + LINE_END@,
{
    let t = tex_spec(p, template);
    let pre = preamble_spec(template, p.title@, p.author_line@);
    let tail = POSTAMBLE@ + LINE_END@;
    let body = front_matter_tex(p) + abstract_tex(p) + sections_tex(p.sections@) + BACK_MATTER@
        + bibitems_tex(strings(p.references@)) + BIBLIOGRAPHY_CLOSE@;
    assert(t =~= pre + body + tail);
    assert(t.take(pre.len() as int) =~= pre);
    assert(t.skip(t.len() - tail.len()) =~= tail);
}

} // verus!
