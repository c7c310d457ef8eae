//! The journal templates: their names, and the LaTeX preamble and postamble
//! each one puts around a paper.
use vstd::prelude::*;
use vstd::string::StringExecFns;
use crate::text::{chars_of, str_eq};

verus! {

/// A journal template offered to the user.
pub struct Template {
    pub name: &'static str,
    pub description: &'static str,
}

impl View for Template {
    type V = (Seq<char>, Seq<char>);

    open spec fn view(&self) -> (Seq<char>, Seq<char>) {
        (self.name@, self.description@)
    }
}

/// The templates, in the order they are offered: name and description.
pub open spec fn templates_spec() -> Seq<(Seq<char>, Seq<char>)> {
    seq![
        ("default"@, "Two-column, Times Roman"@),
        ("nature"@, "Single-column Nature style"@),
        ("ieee"@, "IEEE Transactions style"@),
    ]
}

/// The name of each template, in order.
pub open spec fn template_names() -> Seq<Seq<char>> {
    seq!["default"@, "nature"@, "ieee"@]
}

/// The available templates.
pub fn list() -> (r: Vec<Template>)
    ensures
        r@.len() == 3,
        forall|i: int| 0 <= i < 3 ==> #[trigger] r@[i]@ == templates_spec()[i],
{
    let mut r = Vec::new();
    r.push(Template { name: "default", description: "Two-column, Times Roman" });
    r.push(Template { name: "nature", description: "Single-column Nature style" });
    r.push(Template { name: "ieee", description: "IEEE Transactions style" });
    r
}

/// Whether `name` is the name of a template.
pub fn validate(name: &str) -> (r: bool)
    ensures
        r == template_names().contains(name@),
{
    let r = str_eq(name, "default") || str_eq(name, "nature") || str_eq(name, "ieee");
    proof {
        if template_names().contains(name@) {
            let k = choose|k: int| 0 <= k < 3 && template_names()[k] == name@;
            assert(k == 0 || k == 1 || k == 2);
        }
        assert(template_names()[0] == "default"@);
        assert(template_names()[1] == "nature"@);
        assert(template_names()[2] == "ieee"@);
    }
    r
}

// ---------------------------------------------------------------------------
// Escaping
// ---------------------------------------------------------------------------

/// The characters that LaTeX reads as commands of their own in running text
/// (`&`, `%`, `$`, `#` and `_`); a backslash in front makes each print as
/// itself.
pub open spec fn is_tex_special(c: char) -> bool {
    c == '&' || c == '%' || c == '$' || c == '#' || c == '_'
}

/// `s` with a backslash written in front of every special character, so
/// that LaTeX prints the text as it is.
pub open spec fn escape_tex(s: Seq<char>) -> Seq<char>
    decreases s.len(),
{
    if s.len() == 0 {
        s
    } else if is_tex_special(s.last()) {
        escape_tex(s.drop_last()) + seq!['\\', s.last()]
    } else {
        escape_tex(s.drop_last()).push(s.last())
    }
}

fn is_special_char(c: char) -> (r: bool)
    ensures
        r == is_tex_special(c),
{
    c == '&' || c == '%' || c == '$' || c == '#' || c == '_'
}

/// Appends `s` to `tex` with every special character escaped.
pub fn push_escaped(tex: &mut String, s: &str)
    ensures
        final(tex)@ == old(tex)@ + escape_tex(s@),
{
    let c = chars_of(s);
    let ghost start = tex@;
    let mut i: usize = 0;
    while i < c.len()
        invariant
            i <= c.len(),
            c@ == s@,
            tex@ == start + escape_tex(c@.take(i as int)),
        decreases c.len() - i,
    {
        proof {
            assert(c@.take(i + 1).drop_last() == c@.take(i as int));
        }
        if is_special_char(c[i]) {
            tex.push('\\');
            tex.push(c[i]);
        } else {
            tex.push(c[i]);
        }
        i = i + 1;
    }
    proof {
        assert(c@.take(c.len() as int) == c@);
    }
}

/// `s` with every special character escaped.
pub fn escape_specials(s: &str) -> (r: String)
    ensures
        r@ == escape_tex(s@),
{
    let mut r = String::new();
    push_escaped(&mut r, s);
    r
}

// ---------------------------------------------------------------------------
// Preambles
// ---------------------------------------------------------------------------

/// Start of the default (two-column, Times Roman) preamble, up to the
/// running title.
pub const DEFAULT_HEAD: &'static str = "\\documentclass[twocolumn,11pt]{article}\n\
    \\usepackage{geometry}\n\
    \\geometry{margin=1in}\n\
    \\usepackage{setspace}\n\
    \\usepackage{fancyhdr}\n\
    \\usepackage{hyperref}\n\
    \\usepackage{titlesec}\n\
    \\usepackage{caption}\n\
    \\usepackage{natbib}\n\
    \\usepackage{microtype}\n\
    \\usepackage{times}\n\
    \\usepackage{xcolor}\n\
    \n\
    \\pagestyle{fancy}\n\
    \\fancyhead[LE,LO]{";

/// Start of the Nature-style preamble, up to the running title.
pub const NATURE_HEAD: &'static str = "\\documentclass[11pt]{article}\n\
    \\usepackage{geometry}\n\
    \\geometry{margin=1in}\n\
    \\usepackage{setspace}\n\
    \\onehalfspacing\n\
    \\usepackage{fancyhdr}\n\
    \\usepackage{hyperref}\n\
    \\usepackage{titlesec}\n\
    \\usepackage{caption}\n\
    \\usepackage{natbib}\n\
    \\usepackage{microtype}\n\
    \\usepackage{xcolor}\n\
    \n\
    \\pagestyle{fancy}\n\
    \\fancyhead[LE,LO]{";

/// Start of the IEEE preamble, up to the title.
pub const IEEE_HEAD: &'static str = "\\documentclass[10pt,conference]{IEEEtran}\n\
    \\usepackage{hyperref}\n\
    \\usepackage{cite}\n\
    \\usepackage{amsmath}\n\
    \\usepackage{microtype}\n\
    \\usepackage{xcolor}\n\
    \\usepackage{fancyhdr}\n\
    \n\
    \\title{";

/// Between the running title and the running author.
pub const RUNNING_AUTHOR: &'static str = "}\n\\fancyhead[RE,RO]{";

/// Between the running author and the title, with a 0.4pt header rule.
pub const DEFAULT_RULE: &'static str = "}\n\\fancyfoot[C]{\\thepage}\n\
    \\renewcommand{\\headrulewidth}{0.4pt}\n\
    \n\
    \\title{";

/// Between the running author and the title, with no header rule.
pub const NATURE_RULE: &'static str = "}\n\\fancyfoot[C]{\\thepage}\n\
    \\renewcommand{\\headrulewidth}{0pt}\n\
    \n\
    \\title{";

/// Between the title and the author.
pub const AUTHOR_FIELD: &'static str = "}\n\\author{";

/// After the author: an empty date, and the start of the document.
pub const BEGIN_DOCUMENT: &'static str = "}\n\\date{}\n\n\\begin{document}\n\\maketitle\n";

/// The end of every document.
pub const POSTAMBLE: &'static str = "\\end{document}";

/// The two-column preamble for an (escaped) title and author.
pub open spec fn default_preamble_spec(t: Seq<char>, a: Seq<char>) -> Seq<char> {
    DEFAULT_HEAD@ + t + RUNNING_AUTHOR@ + a + DEFAULT_RULE@ + t + AUTHOR_FIELD@ + a
        + BEGIN_DOCUMENT@
}

/// The Nature-style preamble for an (escaped) title and author.
pub open spec fn nature_preamble_spec(t: Seq<char>, a: Seq<char>) -> Seq<char> {
    NATURE_HEAD@ + t + RUNNING_AUTHOR@ + a + NATURE_RULE@ + t + AUTHOR_FIELD@ + a
        + BEGIN_DOCUMENT@
}

/// The IEEE preamble for an (escaped) title and author.
pub open spec fn ieee_preamble_spec(t: Seq<char>, a: Seq<char>) -> Seq<char> {
    IEEE_HEAD@ + t + AUTHOR_FIELD@ + a + BEGIN_DOCUMENT@
}

/// The preamble of template `name`; a name that is neither `nature` nor
/// `ieee` gets the default one.
pub open spec fn preamble_spec(name: Seq<char>, title: Seq<char>, author: Seq<char>) -> Seq<
    char,
> {
    let t = escape_tex(title);
    let a = escape_tex(author);
    if name == "nature"@ {
        nature_preamble_spec(t, a)
    } else if name == "ieee"@ {
        ieee_preamble_spec(t, a)
    } else {
        default_preamble_spec(t, a)
    }
}

/// The LaTeX preamble of `template` for a paper with the given title and
/// author line.
pub fn get_preamble(template: &str, title: &str, author: &str) -> (r: String)
    ensures
        r@ == preamble_spec(template@, title@, author@),
{
    if str_eq(template, "nature") {
        nature_preamble(title, author)
    } else if str_eq(template, "ieee") {
        ieee_preamble(title, author)
    } else {
        default_preamble(title, author)
    }
}

fn default_preamble(title: &str, author: &str) -> (r: String)
    ensures
        r@ == default_preamble_spec(escape_tex(title@), escape_tex(author@)),
{
    let t = escape_specials(title);
    let a = escape_specials(author);
    let mut r = String::new();
    r.append(DEFAULT_HEAD);
    r.append(t.as_str());
    r.append(RUNNING_AUTHOR);
    r.append(a.as_str());
    r.append(DEFAULT_RULE);
    r.append(t.as_str());
    r.append(AUTHOR_FIELD);
    r.append(a.as_str());
    r.append(BEGIN_DOCUMENT);
    r
}

fn nature_preamble(title: &str, author: &str) -> (r: String)
    ensures
        r@ == nature_preamble_spec(escape_tex(title@), escape_tex(author@)),
{
    let t = escape_specials(title);
    let a = escape_specials(author);
    let mut r = String::new();
    r.append(NATURE_HEAD);
    r.append(t.as_str());
    r.append(RUNNING_AUTHOR);
    r.append(a.as_str());
    r.append(NATURE_RULE);
    r.append(t.as_str());
    r.append(AUTHOR_FIELD);
    r.append(a.as_str());
    r.append(BEGIN_DOCUMENT);
    r
}

fn ieee_preamble(title: &str, author: &str) -> (r: String)
    ensures
        r@ == ieee_preamble_spec(escape_tex(title@), escape_tex(author@)),
{
    let t = escape_specials(title);
    let a = escape_specials(author);
    let mut r = String::new();
    r.append(IEEE_HEAD);
    r.append(t.as_str());
    r.append(AUTHOR_FIELD);
    r.append(a.as_str());
    r.append(BEGIN_DOCUMENT);
    r
}

/// The LaTeX that ends every document.
pub fn get_postamble() -> (r: &'static str)
    ensures
        r@ == POSTAMBLE@,
{
    POSTAMBLE
}

// ---------------------------------------------------------------------------
// Laws
// ---------------------------------------------------------------------------

/// A name passes `validate` exactly when `list` offers a template of that
/// name.
pub proof fn law_validate_matches_list(name: Seq<char>)
    ensures
        template_names().contains(name) <==> exists|i: int|
            0 <= i < templates_spec().len() && #[trigger] templates_spec()[i].0 == name,
{
    if template_names().contains(name) {
        let k = choose|k: int| 0 <= k < 3 && template_names()[k] == name;
        assert(templates_spec()[k].0 == name);
    }
    if exists|i: int| 0 <= i < templates_spec().len() && #[trigger] templates_spec()[i].0 == name {
        let i = choose|i: int|
            0 <= i < templates_spec().len() && #[trigger] templates_spec()[i].0 == name;
        assert(template_names()[i] == name);
    }
}

/// Every template's preamble ends by opening the document and setting the
/// title, so that the body and the postamble complete a LaTeX document.
pub proof fn law_preamble_opens_document(name: Seq<char>, title: Seq<char>, author: Seq<char>)
    ensures
        preamble_spec(name, title, author).len() >= BEGIN_DOCUMENT@.len(),
        preamble_spec(name, title, author).skip(
            preamble_spec(name, title, author).len() - BEGIN_DOCUMENT@.len(),
        ) == BEGIN_DOCUMENT@,
{
    let p = preamble_spec(name, title, author);
    let b = BEGIN_DOCUMENT@;
    assert(p.skip(p.len() - b.len()) =~= b);
}

/// `t` with the backslash in front of each special character taken out
/// again.
pub open spec fn unescape_tex(t: Seq<char>) -> Seq<char>
    decreases t.len(),
{
    if t.len() == 0 {
        t
    } else if t.len() >= 2 && is_tex_special(t.last()) && t[t.len() - 2] == '\\' {
        unescape_tex(t.take(t.len() - 2)).push(t.last())
    } else {
        unescape_tex(t.drop_last()).push(t.last())
    }
}

/// After escaping, every special character has a backslash in front of it,
/// so that LaTeX prints it; and taking those backslashes out gives the text
/// back.
pub proof fn law_escape_specials(s: Seq<char>)
    ensures
        forall|i: int|
            0 <= i < escape_tex(s).len() && is_tex_special(#[trigger] escape_tex(s)[i]) ==> i
                >= 1 && escape_tex(s)[i - 1] == '\\',
        unescape_tex(escape_tex(s)) == s,
    decreases s.len(),
{
    if s.len() > 0 {
        let r = s.drop_last();
        law_escape_specials(r);
        let e = escape_tex(r);
        if is_tex_special(s.last()) {
            let t = e + seq!['\\', s.last()];
            assert(t.take(t.len() - 2) =~= e);
        } else {
            let t = e.push(s.last());
            assert(t.drop_last() =~= e);
        }
        assert(unescape_tex(escape_tex(s)) =~= s);
    }
}

} // verus!
