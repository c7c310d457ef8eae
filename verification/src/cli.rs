//! The command line: its arguments, which task they ask for, and the names
//! and labels the program derives from them.
use vstd::prelude::*;
use vstd::string::StringExecFns;
use crate::config::Config;
use crate::numfmt::{dec, decimal};
use crate::text::str_eq;

verus! {

/// The command-line arguments.
pub struct Args {
    /// Input PDF file or directory (for batch mode)
    pub input: Option<String>,
    /// Output path
    pub output: Option<String>,
    /// Journal template
    pub template: Option<String>,
    /// Output format (tex or pdf)
    pub format: Option<String>,
    /// Override auto-generated title
    pub title: Option<String>,
    /// Override author name
    pub author: Option<String>,
    /// Use OCR for scanned PDFs
    pub ocr: bool,
    /// Open the result after generation
    pub open: bool,
    /// Show text statistics instead of transforming
    pub stats: bool,
    /// List available templates and exit
    pub list_templates: bool,
    /// Show current configuration
    pub show_config: bool,
    /// Set a config value (KEY VALUE)
    pub config_set: Option<Vec<String>>,
    /// Reset config to defaults
    pub config_reset: bool,
}

/// What the program is asked to do.
#[derive(Clone, Copy, PartialEq, Eq, Debug)]
pub enum Action {
    /// Start the interactive browser.
    Interactive,
    ListTemplates,
    ShowConfig,
    SetConfig,
    ResetConfig,
    /// Turn the input file, or every PDF of the input directory, into a paper.
    Process,
}

/// The task the arguments ask for: the interactive browser when there is no
/// input and no other request; otherwise the first request in the order
/// listing, showing, setting, resetting the settings; otherwise processing
/// the input.
pub open spec fn action_spec(a: Args) -> Action {
    if a.input is None && !a.list_templates && !a.show_config && a.config_set is None
        && !a.config_reset {
        Action::Interactive
    } else if a.list_templates {
        Action::ListTemplates
    } else if a.show_config {
        Action::ShowConfig
    } else if a.config_set is Some {
        Action::SetConfig
    } else if a.config_reset {
        Action::ResetConfig
    } else {
        Action::Process
    }
}

impl Args {
    /// The task these arguments ask for.
    pub fn action(&self) -> (r: Action)
        ensures
            r == action_spec(*self),
    {
        if self.input.is_none() && !self.list_templates && !self.show_config
            && self.config_set.is_none() && !self.config_reset {
            Action::Interactive
        } else if self.list_templates {
            Action::ListTemplates
        } else if self.show_config {
            Action::ShowConfig
        } else if self.config_set.is_some() {
            Action::SetConfig
        } else if self.config_reset {
            Action::ResetConfig
        } else {
            Action::Process
        }
    }

    /// The output format: the one given on the command line, else the one
    /// in the settings.
    pub fn output_format(&self, cfg: &Config) -> (r: String)
        ensures
            r@ == match self.format {
                Some(f) => f@,
                None => cfg.format@,
            },
    {
        match &self.format {
            Some(f) => f.clone(),
            None => cfg.format.clone(),
        }
    }
}

/// The extension of the output file: `pdf` for the PDF format, `tex` for any
/// other.
pub open spec fn extension_spec(fmt: Seq<char>) -> Seq<char> {
    if fmt == "pdf"@ {
        "pdf"@
    } else {
        "tex"@
    }
}

/// The name of the output file for an input file with stem `stem`, such as
/// `novel_academic.tex`.
pub open spec fn academic_name_spec(stem: Seq<char>, fmt: Seq<char>) -> Seq<char> {
    stem + "_academic."@ + extension_spec(fmt)
}

/// The file name the output is written to, next to the input, when no
/// output path is given.
pub fn academic_file_name(stem: &str, fmt: &str) -> (r: String)
    ensures
        r@ == academic_name_spec(stem@, fmt@),
{
    let mut r = stem.to_owned();
    r.append("_academic.");
    if str_eq(fmt, "pdf") {
        r.append("pdf");
    } else {
        r.append("tex");
    }
    r
}

/// How the results report describes the output format.
pub open spec fn format_label_spec(
    output_fmt: Seq<char>,
    requested_fmt: Seq<char>,
    page_count: usize,
) -> Seq<char> {
    if output_fmt == "pdf"@ {
        "PDF ("@ + dec(page_count as nat) + "p)"@
    } else if requested_fmt == "pdf"@ && output_fmt == "tex"@ {
        "LaTeX (pdflatex not found)"@
    } else {
        "LaTeX"@
    }
}

/// The description of the output format in the results report: a PDF with
/// its page count, or LaTeX (noting when a PDF was asked for but could not
/// be made).
pub fn format_label(output_fmt: &str, requested_fmt: &str, page_count: usize) -> (r: String)
    ensures
        r@ == format_label_spec(output_fmt@, requested_fmt@, page_count),
{
    if str_eq(output_fmt, "pdf") {
        let mut r = "PDF (".to_owned();
        let n = decimal(page_count);
        r.append(n.as_str());
        r.append("p)");
        r
    } else if str_eq(requested_fmt, "pdf") && str_eq(output_fmt, "tex") {
        "LaTeX (pdflatex not found)".to_owned()
    } else {
        "LaTeX".to_owned()
    }
}

// ---------------------------------------------------------------------------
// Laws
// ---------------------------------------------------------------------------

/// The browser is started exactly when there is no input and no other
/// request; setting or resetting the settings is never mistaken for it.
/// Listing the templates comes first, then showing the settings, then
/// setting one, then resetting them; with none of these, the input is
/// processed.
pub proof fn law_action_dispatch(a: Args)
    ensures
        (action_spec(a) == Action::Interactive) <==> (a.input is None && !a.list_templates
            && !a.show_config && a.config_set is None && !a.config_reset),
        a.list_templates ==> action_spec(a) == Action::ListTemplates,
        !a.list_templates && a.show_config ==> action_spec(a) == Action::ShowConfig,
        !a.list_templates && !a.show_config && a.config_set is Some ==> action_spec(a)
            == Action::SetConfig,
        !a.list_templates && !a.show_config && a.config_set is None && a.config_reset
            ==> action_spec(a) == Action::ResetConfig,
        a.input is Some && !a.list_templates && !a.show_config && a.config_set is None
            && !a.config_reset ==> action_spec(a) == Action::Process,
{
}

} // verus!
