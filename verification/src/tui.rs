//! The state of the interactive browser and the rules it follows: how keys
//! move the selection and change the options, which work a key asks for,
//! what the status line says after that work, and what each panel shows.
//!
//! The program owns the terminal, the file system and the paths; it performs
//! the work that the state asks for and reports the outcome back.
use vstd::prelude::*;
use vstd::string::StringExecFns;
use crate::numfmt::{dec, decimal};
use crate::templates::{list, templates_spec};
use crate::text::{cuttable, newlines_to_spaces, starts_with, truncate, truncate_spec};
use crate::transformer::{PaperData, opt_view};

verus! {

/// Which panel the browser shows.
#[derive(Clone, Copy, PartialEq, Eq, Structural, Debug)]
pub enum AppMode {
    /// The file browser.
    Browse,
    /// The preview of the generated paper, with the options.
    Preview,
}

/// A key press, as far as the browser distinguishes keys.
#[derive(Clone, Copy, PartialEq, Eq, Debug)]
pub enum Key {
    Up,
    Down,
    Left,
    Right,
    Enter,
    Backspace,
    Esc,
    Char(char),
    Other,
}

/// The work a key press asks the program for.
#[derive(Clone, Copy, PartialEq, Eq, Debug)]
pub enum Request {
    /// Nothing beyond the change of state.
    Nothing,
    /// Leave the browser.
    Quit,
    /// List the directory of entry `i` and enter it.
    EnterDir(usize),
    /// List the parent of the current directory and enter it.
    GoUp,
    /// Generate the paper of the selected file again.
    GeneratePaper,
    /// Write the paper of the selected file.
    GenerateOutput,
}

/// An entry of the current directory: a subdirectory or a PDF file.
pub struct Entry {
    pub name: String,
    pub is_dir: bool,
}

/// The output formats offered.
pub open spec fn format_names() -> Seq<Seq<char>> {
    seq!["LaTeX (.tex)"@, "PDF (via LaTeX)"@]
}

pub fn format_name(i: usize) -> (r: &'static str)
    requires
        i < 2,
    ensures
        r@ == format_names()[i as int],
{
    if i == 0 {
        "LaTeX (.tex)"
    } else {
        "PDF (via LaTeX)"
    }
}

/// The state of the browser.
pub struct App {
    entries: Vec<Entry>,
    selected_index: usize,
    selected_file: Option<String>,
    paper: Option<PaperData>,
    raw_text: Option<String>,
    template_index: usize,
    author_override: String,
    output_format: usize,
    status: String,
    generating: bool,
    done: bool,
    mode: AppMode,
}

/// What the program must write when the user asks for the output.
pub enum OutputRequest {
    /// Nothing can be written; the status line says why.
    Nothing,
    /// Render the paper in this template, and compile it to PDF if `pdf`.
    Render { template: &'static str, pdf: bool },
}

/// How the status line is coloured.
#[derive(Clone, Copy, PartialEq, Eq, Debug)]
pub enum Tone {
    Success,
    Failure,
    Busy,
    Neutral,
}

/// A line of the preview panel.
pub enum PreviewLine {
    /// A labelled property of the paper.
    Field { label: &'static str, value: String },
    Blank,
    /// The heading of a group of lines.
    Heading { text: &'static str },
    /// An indented, labelled part of the abstract.
    Detail { label: &'static str, value: String },
    /// A section of the paper.
    SectionItem { entry: String },
    /// The paper is being generated.
    Generating,
    /// No paper yet.
    Placeholder,
}

/// An option offered in the options panel.
pub struct Choice {
    pub marker: &'static str,
    pub label: &'static str,
    pub selected: bool,
}

/// An entry of the file browser as listed.
pub struct BrowserItem {
    pub text: String,
    pub is_dir: bool,
    pub selected: bool,
}

impl App {
    /// The selection is on an entry (or at 0 when there is none) and the
    /// template and format indices name offered options.
    pub closed spec fn wf(&self) -> bool {
        &&& (self.entries@.len() == 0 ==> self.selected_index == 0)
        &&& (self.entries@.len() > 0 ==> self.selected_index < self.entries@.len())
        &&& self.template_index < 3
        &&& self.output_format < 2
    }

    pub closed spec fn spec_mode(&self) -> AppMode {
        self.mode
    }

    pub closed spec fn spec_selected_index(&self) -> usize {
        self.selected_index
    }

    pub closed spec fn spec_template_index(&self) -> usize {
        self.template_index
    }

    pub closed spec fn spec_output_format(&self) -> usize {
        self.output_format
    }

    pub closed spec fn spec_entries_len(&self) -> nat {
        self.entries@.len()
    }

    pub closed spec fn spec_status(&self) -> Seq<char> {
        self.status@
    }

    pub closed spec fn spec_has_file(&self) -> bool {
        self.selected_file is Some
    }

    pub closed spec fn spec_has_paper(&self) -> bool {
        self.paper is Some
    }

    pub closed spec fn spec_done(&self) -> bool {
        self.done
    }

    pub closed spec fn spec_raw_text(&self) -> Option<Seq<char>> {
        opt_view(self.raw_text)
    }

    /// `self` and `other` show the same browser: the same entries, selection,
    /// selected file, options, author override, panel and done flag.
    pub closed spec fn same_browser(&self, other: &App) -> bool {
        &&& self.entries@ == other.entries@
        &&& self.selected_index == other.selected_index
        &&& self.selected_file == other.selected_file
        &&& self.template_index == other.template_index
        &&& self.output_format == other.output_format
        &&& self.author_override == other.author_override
        &&& self.mode == other.mode
        &&& self.done == other.done
    }

    /// `self` and `other` differ at most in the status line.
    pub open spec fn same_but_status(&self, other: &App) -> bool {
        &&& self.same_browser(other)
        &&& self.spec_paper() == other.spec_paper()
        &&& self.spec_raw_text() == other.spec_raw_text()
        &&& self.spec_generating() == other.spec_generating()
    }

    /// The browser on a directory with the given entries, nothing selected.
    pub fn new(entries: Vec<Entry>) -> (r: App)
        ensures
            r.wf(),
            r.spec_mode() == AppMode::Browse,
            r.spec_selected_index() == 0,
            r.spec_template_index() == 0,
            r.spec_output_format() == 0,
            r.spec_entries_len() == entries@.len(),
            r.spec_entries() == entries@,
            r.spec_status() == Seq::<char>::empty(),
            !r.spec_has_file(),
            !r.spec_has_paper(),
            !r.spec_done(),
            r.spec_author_override()@ == Seq::<char>::empty(),
            !r.spec_generating(),
            r.spec_raw_text() is None,
    {
        App {
            entries,
            selected_index: 0,
            selected_file: None,
            paper: None,
            raw_text: None,
            template_index: 0,
            author_override: String::new(),
            output_format: 0,
            status: String::new(),
            generating: false,
            done: false,
            mode: AppMode::Browse,
        }
    }

    /// The state after a key press (`q` quits, Esc leaves the preview),
    /// and the work it asks for.
    pub open spec fn key_spec(self, key: Key) -> Request {
        match key {
            Key::Char('q') => Request::Quit,
            Key::Esc => Request::Nothing,
            _ => match self.spec_mode() {
                AppMode::Browse => match key {
                    Key::Enter => if self.spec_entries_len() == 0 {
                        Request::Nothing
                    } else if self.spec_entry_is_dir(self.spec_selected_index() as int) {
                        Request::EnterDir(self.spec_selected_index())
                    } else {
                        Request::GeneratePaper
                    },
                    Key::Backspace => Request::GoUp,
                    _ => Request::Nothing,
                },
                AppMode::Preview => match key {
                    Key::Up | Key::Char('k') => if self.spec_template_index() > 0
                        && self.spec_has_file() {
                        Request::GeneratePaper
                    } else {
                        Request::Nothing
                    },
                    Key::Down | Key::Char('j') => if self.spec_template_index() < 2
                        && self.spec_has_file() {
                        Request::GeneratePaper
                    } else {
                        Request::Nothing
                    },
                    Key::Enter => Request::GenerateOutput,
                    Key::Char('r') => if self.spec_has_file() {
                        Request::GeneratePaper
                    } else {
                        Request::Nothing
                    },
                    _ => Request::Nothing,
                },
            },
        }
    }

    pub closed spec fn spec_entry_is_dir(&self, i: int) -> bool {
        self.entries@[i].is_dir
    }

    /// The selection index after a navigation key in the file browser.
    pub open spec fn browse_index_spec(index: usize, len: nat, key: Key) -> usize {
        match key {
            Key::Up | Key::Char('k') => if index > 0 {
                (index - 1) as usize
            } else {
                index
            },
            Key::Down | Key::Char('j') => if index + 1 < len {
                (index + 1) as usize
            } else {
                index
            },
            Key::Char('g') => 0,
            Key::Char('G') => if len > 0 {
                (len - 1) as usize
            } else {
                index
            },
            _ => index,
        }
    }

    /// Handles a key press: moves the selection, changes the options or the
    /// panel, and returns the work the key asks for.
    pub fn on_key(&mut self, key: Key) -> (r: Request)
        requires
            old(self).wf(),
        ensures
            final(self).wf(),
            r == old(self).key_spec(key),
            old(self).spec_mode() == AppMode::Browse && key != Key::Enter && key != Key::Char('q') ==> final(self).spec_selected_index() == App::browse_index_spec(
                old(self).spec_selected_index(),
                old(self).spec_entries_len(),
                key,
            ),
            old(self).spec_mode() == AppMode::Preview && (key == Key::Up || key == Key::Char('k'))
                ==> final(self).spec_template_index() == if old(self).spec_template_index() > 0 {
                (old(self).spec_template_index() - 1) as usize
            } else {
                old(self).spec_template_index()
            },
            old(self).spec_mode() == AppMode::Preview && (key == Key::Down || key == Key::Char('j')) ==> final(self).spec_template_index() == if old(self).spec_template_index() < 2 {
                (old(self).spec_template_index() + 1) as usize
            } else {
                old(self).spec_template_index()
            },
            old(self).spec_mode() == AppMode::Preview && (key == Key::Left || key == Key::Char('h')) ==> final(self).spec_output_format() == 0,
            old(self).spec_mode() == AppMode::Preview && (key == Key::Right || key == Key::Char('l')) ==> final(self).spec_output_format() == 1,
            key == Key::Esc ==> final(self).spec_mode() == AppMode::Browse,
            key == Key::Esc && old(self).spec_mode() == AppMode::Preview ==> final(self).spec_status() == Seq::<char>::empty(),
            r == Request::GeneratePaper && old(self).spec_mode() == AppMode::Browse ==> final(self).spec_mode() == AppMode::Preview && final(self).spec_has_file(),
            old(self).spec_mode() == AppMode::Browse && key == Key::Enter
                && old(self).spec_entries_len() > 0 && !old(self).spec_entries()[old(self).spec_selected_index() as int].is_dir ==> {
                let name = old(self).spec_entries()[old(self).spec_selected_index() as int].name@;
                &&& opt_view(final(self).spec_selected_file()) == Some(name)
                &&& final(self).spec_status() == "📄 Selected: "@ + name
                &&& final(self).spec_mode() == AppMode::Preview
                &&& final(self).spec_entries() == old(self).spec_entries()
                &&& final(self).spec_selected_index() == old(self).spec_selected_index()
                &&& final(self).spec_paper() == old(self).spec_paper()
                &&& final(self).spec_raw_text() == old(self).spec_raw_text()
            },
            r is Quit || r is EnterDir || r is GoUp ==> *final(self) == *old(self),
            final(self).spec_entries() == old(self).spec_entries(),
            final(self).spec_paper() == old(self).spec_paper(),
            final(self).spec_raw_text() == old(self).spec_raw_text(),
            final(self).spec_author_override() == old(self).spec_author_override(),
            final(self).spec_generating() == old(self).spec_generating(),
            final(self).spec_done() == old(self).spec_done(),
            old(self).spec_mode() == AppMode::Browse ==> final(self).spec_template_index()
                == old(self).spec_template_index() && final(self).spec_output_format() == old(self).spec_output_format(),
            old(self).spec_mode() == AppMode::Browse && key == Key::Enter ==> final(self).spec_selected_index() == old(self).spec_selected_index(),
            old(self).spec_mode() == AppMode::Browse && !(key == Key::Enter
                && old(self).spec_entries_len() > 0 && !old(self).spec_entries()[old(self).spec_selected_index() as int].is_dir) ==> final(self).spec_selected_file() == old(self).spec_selected_file() && final(self).spec_status() == old(self).spec_status()
                && final(self).spec_mode() == AppMode::Browse,
            old(self).spec_mode() == AppMode::Preview ==> final(self).spec_selected_index()
                == old(self).spec_selected_index() && final(self).spec_selected_file() == old(self).spec_selected_file(),
            old(self).spec_mode() == AppMode::Preview && key != Key::Esc ==> final(self).spec_status() == old(self).spec_status() && final(self).spec_mode()
                == AppMode::Preview,
            old(self).spec_mode() == AppMode::Preview && !(key == Key::Up || key == Key::Down
                || key == Key::Char('k') || key == Key::Char('j')) ==> final(self).spec_template_index() == old(self).spec_template_index(),
            old(self).spec_mode() == AppMode::Preview && !(key == Key::Left || key == Key::Right
                || key == Key::Char('h') || key == Key::Char('l')) ==> final(self).spec_output_format() == old(self).spec_output_format(),
    {
        match key {
            Key::Char('q') => {
                return Request::Quit;
            },
            Key::Esc => {
                if self.mode == AppMode::Preview {
                    self.mode = AppMode::Browse;
                    self.status = String::new();
                }
                return Request::Nothing;
            },
            _ => {},
        }
        match self.mode {
            AppMode::Browse => match key {
                Key::Up | Key::Char('k') => {
                    if self.selected_index > 0 {
                        self.selected_index = self.selected_index - 1;
                    }
                    Request::Nothing
                },
                Key::Down | Key::Char('j') => {
                    let n = self.entries.len();
                    if self.selected_index + 1 < n {
                        self.selected_index = self.selected_index + 1;
                    }
                    Request::Nothing
                },
                Key::Enter => self.select_current(),
                Key::Backspace => Request::GoUp,
                Key::Char('g') => {
                    self.selected_index = 0;
                    Request::Nothing
                },
                Key::Char('G') => {
                    if self.entries.len() > 0 {
                        self.selected_index = self.entries.len() - 1;
                    }
                    Request::Nothing
                },
                _ => Request::Nothing,
            },
            AppMode::Preview => match key {
                Key::Up | Key::Char('k') => {
                    if self.template_index > 0 {
                        self.template_index = self.template_index - 1;
                        if self.selected_file.is_some() {
                            return Request::GeneratePaper;
                        }
                    }
                    Request::Nothing
                },
                Key::Down | Key::Char('j') => {
                    if self.template_index < 2 {
                        self.template_index = self.template_index + 1;
                        if self.selected_file.is_some() {
                            return Request::GeneratePaper;
                        }
                    }
                    Request::Nothing
                },
                Key::Left | Key::Char('h') => {
                    if self.output_format > 0 {
                        self.output_format = self.output_format - 1;
                    }
                    Request::Nothing
                },
                Key::Right | Key::Char('l') => {
                    if self.output_format + 1 < 2 {
                        self.output_format = self.output_format + 1;
                    }
                    Request::Nothing
                },
                Key::Enter => Request::GenerateOutput,
                Key::Char('r') => {
                    if self.selected_file.is_some() {
                        Request::GeneratePaper
                    } else {
                        Request::Nothing
                    }
                },
                _ => Request::Nothing,
            },
        }
    }

    /// Enter on an entry: a directory is to be entered; a file is selected,
    /// the preview shown, and its paper is to be generated.
    fn select_current(&mut self) -> (r: Request)
        requires
            old(self).wf(),
            old(self).mode == AppMode::Browse,
        ensures
            final(self).wf(),
            final(self).selected_index == old(self).selected_index,
            final(self).template_index == old(self).template_index,
            final(self).output_format == old(self).output_format,
            r == (if old(self).entries@.len() == 0 {
                Request::Nothing
            } else if old(self).entries@[old(self).selected_index as int].is_dir {
                Request::EnterDir(old(self).selected_index)
            } else {
                Request::GeneratePaper
            }),
            r == Request::GeneratePaper ==> final(self).mode == AppMode::Preview
                && final(self).selected_file is Some,
            r != Request::GeneratePaper ==> *final(self) == *old(self),
            r == Request::GeneratePaper ==> {
                let name = old(self).entries@[old(self).selected_index as int].name@;
                &&& opt_view(final(self).selected_file) == Some(name)
                &&& final(self).status@ == "📄 Selected: "@ + name
                &&& final(self).entries@ == old(self).entries@
                &&& final(self).paper == old(self).paper
                &&& final(self).raw_text == old(self).raw_text
                &&& final(self).author_override == old(self).author_override
                &&& final(self).generating == old(self).generating
                &&& final(self).done == old(self).done
            },
    {
        if self.entries.len() == 0 {
            return Request::Nothing;
        }
        let i = self.selected_index;
        if self.entries[i].is_dir {
            Request::EnterDir(i)
        } else {
            let name = self.entries[i].name.clone();
            let mut status = "📄 Selected: ".to_owned();
            status.append(name.as_str());
            self.selected_file = Some(name);
            self.status = status;
            self.mode = AppMode::Preview;
            Request::GeneratePaper
        }
    }

    /// The browser after entering a directory, labelled `dir_label`, that
    /// holds `entries`.
    pub fn enter_dir(&mut self, dir_label: &str, entries: Vec<Entry>)
        requires
            old(self).wf(),
        ensures
            final(self).wf(),
            final(self).spec_entries_len() == entries@.len(),
            final(self).spec_selected_index() == 0,
            final(self).spec_mode() == AppMode::Browse,
            final(self).spec_status() == "📂 "@ + dir_label@,
            final(self).spec_template_index() == old(self).spec_template_index(),
            final(self).spec_output_format() == old(self).spec_output_format(),
            final(self).spec_entries() == entries@,
            final(self).spec_selected_file() == old(self).spec_selected_file(),
            final(self).spec_author_override() == old(self).spec_author_override(),
            final(self).spec_done() == old(self).spec_done(),
            final(self).spec_paper() == old(self).spec_paper(),
            final(self).spec_raw_text() == old(self).spec_raw_text(),
            final(self).spec_generating() == old(self).spec_generating(),
    {
        self.entries = entries;
        self.selected_index = 0;
        self.mode = AppMode::Browse;
        let mut status = "📂 ".to_owned();
        status.append(dir_label);
        self.status = status;
    }

    /// The author the paper is generated for: the override typed in the
    /// browser, or else the one in the settings.
    pub fn paper_author(&self, config_author: Option<String>) -> (r: Option<String>)
        ensures
            r == (if self.spec_author_override()@.len() == 0 {
                config_author
            } else {
                Some(self.spec_author_override())
            }),
    {
        if self.author_override.as_str().is_empty() {
            config_author
        } else {
            Some(self.author_override.clone())
        }
    }

    /// Marks the start of the generation of a paper.
    pub fn begin_generation(&mut self)
        requires
            old(self).wf(),
        ensures
            final(self).wf(),
            final(self).spec_status() == "⏳ Extracting text..."@,
            final(self).spec_generating(),
            final(self).same_browser(old(self)),
            final(self).spec_paper() == old(self).spec_paper(),
            final(self).spec_raw_text() == old(self).spec_raw_text(),
    {
        self.generating = true;
        self.status = "⏳ Extracting text...".to_owned();
    }

    /// Records a generated paper, from a text of `word_count` words.
    pub fn paper_generated(&mut self, paper: PaperData, raw_text: String, word_count: usize)
        requires
            old(self).wf(),
        ensures
            final(self).wf(),
            final(self).spec_has_paper(),
            final(self).spec_paper() == Some(paper),
            final(self).spec_raw_text() == Some(raw_text@),
            !final(self).spec_generating(),
            final(self).same_browser(old(self)),
            final(self).spec_status() == "✅ Generated: "@ + dec(word_count as nat) + " words, "@
                + dec(paper.sections@.len()) + " sections"@,
    {
        let mut status = "✅ Generated: ".to_owned();
        let w = decimal(word_count);
        status.append(w.as_str());
        status.append(" words, ");
        let s = decimal(paper.sections.len());
        status.append(s.as_str());
        status.append(" sections");
        self.paper = Some(paper);
        self.raw_text = Some(raw_text);
        self.status = status;
        self.generating = false;
    }

    /// Records that the text could not be extracted; the previous paper, if
    /// any, stays.
    pub fn paper_failed(&mut self, message: &str)
        requires
            old(self).wf(),
        ensures
            final(self).wf(),
            final(self).spec_has_paper() == old(self).spec_has_paper(),
            final(self).spec_paper() == old(self).spec_paper(),
            final(self).spec_raw_text() == old(self).spec_raw_text(),
            !final(self).spec_generating(),
            final(self).same_browser(old(self)),
            final(self).spec_status() == "❌ Error: "@ + message@,
    {
        let mut status = "❌ Error: ".to_owned();
        status.append(message);
        self.status = status;
        self.generating = false;
    }

    /// What writing the output requires: a paper and a selected file, or
    /// else the status line says which is missing.
    pub fn output_request(&mut self) -> (r: OutputRequest)
        requires
            old(self).wf(),
        ensures
            final(self).wf(),
            final(self).same_but_status(old(self)),
            !old(self).spec_has_paper() ==> r is Nothing && final(self).spec_status()
                == "⚠️ No paper data. Select a PDF first."@,
            old(self).spec_has_paper() && !old(self).spec_has_file() ==> r is Nothing && final(self).spec_status() == "⚠️ No file selected."@,
            old(self).spec_has_paper() && old(self).spec_has_file() ==> match r {
                OutputRequest::Render { template, pdf } => template@ == templates_spec()[old(self).spec_template_index() as int].0 && pdf == (old(self).spec_output_format()
                    != 0) && final(self).spec_status() == "⏳ Generating LaTeX..."@,
                OutputRequest::Nothing => false,
            },
    {
        if self.paper.is_none() {
            self.status = "⚠️ No paper data. Select a PDF first.".to_owned();
            return OutputRequest::Nothing;
        }
        if self.selected_file.is_none() {
            self.status = "⚠️ No file selected.".to_owned();
            return OutputRequest::Nothing;
        }
        let templates = list();
        let template = templates[self.template_index].name;
        proof {
            assert(templates@[self.template_index as int]@ == templates_spec()[self.template_index as int]);
        }
        self.status = "⏳ Generating LaTeX...".to_owned();
        OutputRequest::Render { template, pdf: self.output_format != 0 }
    }

    /// Marks the start of the compilation of the written LaTeX to PDF.
    pub fn begin_compile(&mut self)
        requires
            old(self).wf(),
        ensures
            final(self).wf(),
            final(self).same_but_status(old(self)),
            final(self).spec_status() == "⏳ Compiling with pdflatex..."@,
    {
        self.status = "⏳ Compiling with pdflatex...".to_owned();
    }

    /// Records that the output of a file with stem `stem` was written:
    /// `compiled` is `None` for LaTeX, and for PDF whether `pdflatex` made
    /// one.
    pub fn output_saved(&mut self, stem: &str, compiled: Option<bool>)
        requires
            old(self).wf(),
        ensures
            final(self).wf(),
            final(self).spec_done(),
            final(self).spec_paper() == old(self).spec_paper(),
            final(self).spec_raw_text() == old(self).spec_raw_text(),
            final(self).spec_generating() == old(self).spec_generating(),
            final(self).spec_entries() == old(self).spec_entries(),
            final(self).spec_selected_index() == old(self).spec_selected_index(),
            final(self).spec_selected_file() == old(self).spec_selected_file(),
            final(self).spec_template_index() == old(self).spec_template_index(),
            final(self).spec_output_format() == old(self).spec_output_format(),
            final(self).spec_author_override() == old(self).spec_author_override(),
            final(self).spec_mode() == old(self).spec_mode(),
            final(self).spec_status() == match compiled {
                Some(true) => "✅ Saved: "@ + stem@ + "_academic.pdf"@,
                Some(false) => "✅ Saved: "@ + stem@ + "_academic.tex (no pdflatex)"@,
                None => "✅ Saved: "@ + stem@ + "_academic.tex"@,
            },
    {
        let mut status = "✅ Saved: ".to_owned();
        status.append(stem);
        match compiled {
            Some(true) => status.append("_academic.pdf"),
            Some(false) => status.append("_academic.tex (no pdflatex)"),
            None => status.append("_academic.tex"),
        }
        self.status = status;
        self.done = true;
    }

    /// The status line and its colour: `Ready` when there is no status; the
    /// colour follows the symbol the status starts with.
    pub fn status_line(&self) -> (r: (String, Tone))
        ensures
            r.0@ == (if self.spec_status().len() == 0 {
                "Ready"@
            } else {
                self.spec_status()
            }),
            r.1 == tone_spec(self.spec_status()),
    {
        let text = if self.status.as_str().is_empty() {
            "Ready".to_owned()
        } else {
            self.status.clone()
        };
        let s = self.status.as_str();
        let tone = if starts_with(s, "✅") {
            Tone::Success
        } else if starts_with(s, "❌") || starts_with(s, "⚠️") {
            Tone::Failure
        } else if starts_with(s, "⏳") {
            Tone::Busy
        } else {
            Tone::Neutral
        };
        (text, tone)
    }

    /// The key help of the current panel.
    pub fn help_text(&self) -> (r: &'static str)
        ensures
            r@ == (match self.spec_mode() {
                AppMode::Browse => "↑↓ Navigate  |  Enter Select  |  Backspace Up  |  q Quit"@,
                AppMode::Preview => "↑↓ Template  |  ←→ Format  |  Enter Generate  |  r Regenerate  |  Esc Back  |  q Quit"@,
            }),
    {
        match self.mode {
            AppMode::Browse => "↑↓ Navigate  |  Enter Select  |  Backspace Up  |  q Quit",
            AppMode::Preview => "↑↓ Template  |  ←→ Format  |  Enter Generate  |  r Regenerate  |  Esc Back  |  q Quit",
        }
    }

    /// The name of the selected file, or `No file selected`.
    pub fn file_label(&self) -> (r: String)
        ensures
            r@ == match self.spec_selected_file() {
                Some(f) => f@,
                None => "No file selected"@,
            },
    {
        match &self.selected_file {
            Some(f) => f.clone(),
            None => "No file selected".to_owned(),
        }
    }

    /// The entries of the file browser: a folder or document symbol and the
    /// name, and whether the entry is the selected one.
    pub fn browser_items(&self) -> (r: Vec<BrowserItem>)
        ensures
            r@.len() == self.spec_entries().len(),
            forall|i: int|
                0 <= i < r@.len() ==> (#[trigger] r@[i]).text@ == (if self.spec_entries()[i].is_dir {
                    "📁 "@
                } else {
                    "📄 "@
                }) + self.spec_entries()[i].name@ && r@[i].is_dir == self.spec_entries()[i].is_dir
                    && r@[i].selected == (i == self.spec_selected_index()),
    {
        let mut r: Vec<BrowserItem> = Vec::new();
        let mut i: usize = 0;
        while i < self.entries.len()
            invariant
                i <= self.entries@.len(),
                r@.len() == i,
                forall|j: int|
                    0 <= j < i ==> (#[trigger] r@[j]).text@ == (if self.entries@[j].is_dir {
                        "📁 "@
                    } else {
                        "📄 "@
                    }) + self.entries@[j].name@ && r@[j].is_dir == self.entries@[j].is_dir
                        && r@[j].selected == (j == self.selected_index),
            decreases self.entries.len() - i,
        {
            let e = &self.entries[i];
            let mut text = if e.is_dir {
                "📁 ".to_owned()
            } else {
                "📄 ".to_owned()
            };
            text.append(e.name.as_str());
            r.push(BrowserItem { text, is_dir: e.is_dir, selected: i == self.selected_index });
            i = i + 1;
        }
        r
    }

    /// The templates and formats offered, with the chosen ones marked.
    pub fn choices(&self) -> (r: (Vec<Choice>, Vec<Choice>))
        requires
            self.wf(),
        ensures
            r.0@.len() == 3,
            r.1@.len() == 2,
            forall|i: int|
                0 <= i < 3 ==> (#[trigger] r.0@[i]).label@ == templates_spec()[i].0
                    && r.0@[i].selected == (i == self.spec_template_index()) && r.0@[i].marker@
                    == (if i == self.spec_template_index() {
                    "▸ "@
                } else {
                    "  "@
                }),
            forall|i: int|
                0 <= i < 2 ==> (#[trigger] r.1@[i]).label@ == format_names()[i]
                    && r.1@[i].selected == (i == self.spec_output_format()) && r.1@[i].marker@
                    == (if i == self.spec_output_format() {
                    "▸ "@
                } else {
                    "  "@
                }),
    {
        let templates = list();
        let mut ts: Vec<Choice> = Vec::new();
        let mut i: usize = 0;
        while i < 3
            invariant
                i <= 3,
                templates@.len() == 3,
                forall|k: int| 0 <= k < 3 ==> #[trigger] templates@[k]@ == templates_spec()[k],
                ts@.len() == i,
                forall|j: int|
                    0 <= j < i ==> (#[trigger] ts@[j]).label@ == templates_spec()[j].0
                        && ts@[j].selected == (j == self.template_index) && ts@[j].marker@ == (if j
                        == self.template_index {
                        "▸ "@
                    } else {
                        "  "@
                    }),
            decreases 3 - i,
        {
            let chosen = i == self.template_index;
            let marker = if chosen {
                "▸ "
            } else {
                "  "
            };
            proof {
                assert(templates@[i as int]@ == templates_spec()[i as int]);
            }
            ts.push(Choice { marker, label: templates[i].name, selected: chosen });
            i = i + 1;
        }
        let mut fs: Vec<Choice> = Vec::new();
        let mut j: usize = 0;
        while j < 2
            invariant
                j <= 2,
                fs@.len() == j,
                forall|k: int|
                    0 <= k < j ==> (#[trigger] fs@[k]).label@ == format_names()[k]
                        && fs@[k].selected == (k == self.output_format) && fs@[k].marker@ == (if k
                        == self.output_format {
                        "▸ "@
                    } else {
                        "  "@
                    }),
            decreases 2 - j,
        {
            let chosen = j == self.output_format;
            let marker = if chosen {
                "▸ "
            } else {
                "  "
            };
            fs.push(Choice { marker, label: format_name(j), selected: chosen });
            j = j + 1;
        }
        (ts, fs)
    }

    /// Whether the parts of the abstract that the preview shows can be cut
    /// to 120 bytes (or there is no paper).
    pub open spec fn preview_cuttable(&self) -> bool {
        match self.spec_paper() {
            Some(p) => cuttable(newlines_to_spaces(p.abstract_sections.background@), 120)
                && cuttable(newlines_to_spaces(p.abstract_sections.methods@), 120) && cuttable(
                newlines_to_spaces(p.abstract_sections.results@),
                120,
            ),
            None => true,
        }
    }

    pub closed spec fn spec_selected_file(&self) -> Option<String> {
        self.selected_file
    }

    pub closed spec fn spec_entries(&self) -> Seq<Entry> {
        self.entries@
    }

    pub closed spec fn spec_author_override(&self) -> String {
        self.author_override
    }

    pub closed spec fn spec_paper(&self) -> Option<PaperData> {
        self.paper
    }

    pub closed spec fn spec_generating(&self) -> bool {
        self.generating
    }

    /// The lines of the preview panel: title, authors, word and reference
    /// counts, the first three parts of the abstract cut to 120 bytes, and
    /// the section headings; or a notice when there is no paper yet.
    pub fn preview_lines(&self) -> (r: Vec<PreviewLine>)
        requires
            self.preview_cuttable(),
        ensures
            match self.spec_paper() {
                Some(p) => {
                    &&& r@.len() == 11 + p.sections@.len()
                    &&& r@[0] matches PreviewLine::Field { label, value } && label@ == "Title: "@
                        && value@ == p.title@
                    &&& r@[1] matches PreviewLine::Field { label, value } && label@
                        == "Authors: "@ && value@ == p.author_line@
                    &&& r@[2] matches PreviewLine::Field { label, value } && label@ == "Words: "@
                        && value@ == dec(p.word_count as nat)
                    &&& r@[3] matches PreviewLine::Field { label, value } && label@ == "Refs: "@
                        && value@ == dec(p.references@.len())
                    &&& r@[4] is Blank
                    &&& r@[5] matches PreviewLine::Heading { text } && text@ == "Abstract"@
                    &&& r@[6] matches PreviewLine::Detail { label, value } && label@
                        == "  Background: "@ && value@ == truncate_spec(
                        p.abstract_sections.background@,
                        120,
                    )
                    &&& r@[7] matches PreviewLine::Detail { label, value } && label@
                        == "  Methods: "@ && value@ == truncate_spec(
                        p.abstract_sections.methods@,
                        120,
                    )
                    &&& r@[8] matches PreviewLine::Detail { label, value } && label@
                        == "  Results: "@ && value@ == truncate_spec(
                        p.abstract_sections.results@,
                        120,
                    )
                    &&& r@[9] is Blank
                    &&& r@[10] matches PreviewLine::Heading { text } && text@ == "Sections"@
                    &&& forall|i: int|
                        0 <= i < p.sections@.len() ==> ((#[trigger] r@[11 + i]) matches PreviewLine::SectionItem { entry }
                            && entry@ == "  📄 "@ + p.sections@[i].heading@)
                },
                None => {
                    &&& r@.len() == 1
                    &&& if self.spec_generating() {
                        r@[0] is Generating
                    } else {
                        r@[0] is Placeholder
                    }
                },
            },
    {
        let mut r: Vec<PreviewLine> = Vec::new();
        match &self.paper {
            Some(p) => {
                r.push(PreviewLine::Field { label: "Title: ", value: p.title.clone() });
                r.push(PreviewLine::Field { label: "Authors: ", value: p.author_line.clone() });
                r.push(PreviewLine::Field { label: "Words: ", value: decimal(p.word_count) });
                r.push(PreviewLine::Field { label: "Refs: ", value: decimal(p.references.len()) });
                r.push(PreviewLine::Blank);
                r.push(PreviewLine::Heading { text: "Abstract" });
                r.push(
                    PreviewLine::Detail {
                        label: "  Background: ",
                        value: truncate(p.abstract_sections.background.as_str(), 120),
                    },
                );
                r.push(
                    PreviewLine::Detail {
                        label: "  Methods: ",
                        value: truncate(p.abstract_sections.methods.as_str(), 120),
                    },
                );
                r.push(
                    PreviewLine::Detail {
                        label: "  Results: ",
                        value: truncate(p.abstract_sections.results.as_str(), 120),
                    },
                );
                r.push(PreviewLine::Blank);
                r.push(PreviewLine::Heading { text: "Sections" });
                let mut i: usize = 0;
                while i < p.sections.len()
                    invariant
                        i <= p.sections@.len(),
                        r@.len() == 11 + i,
                        r@[0] matches PreviewLine::Field { label, value } && label@ == "Title: "@
                            && value@ == p.title@,
                        r@[1] matches PreviewLine::Field { label, value } && label@
                            == "Authors: "@ && value@ == p.author_line@,
                        r@[2] matches PreviewLine::Field { label, value } && label@
                            == "Words: "@ && value@ == dec(p.word_count as nat),
                        r@[3] matches PreviewLine::Field { label, value } && label@ == "Refs: "@
                            && value@ == dec(p.references@.len()),
                        r@[4] is Blank,
                        r@[5] matches PreviewLine::Heading { text } && text@ == "Abstract"@,
                        r@[6] matches PreviewLine::Detail { label, value } && label@
                            == "  Background: "@ && value@ == truncate_spec(
                            p.abstract_sections.background@,
                            120,
                        ),
                        r@[7] matches PreviewLine::Detail { label, value } && label@
                            == "  Methods: "@ && value@ == truncate_spec(
                            p.abstract_sections.methods@,
                            120,
                        ),
                        r@[8] matches PreviewLine::Detail { label, value } && label@
                            == "  Results: "@ && value@ == truncate_spec(
                            p.abstract_sections.results@,
                            120,
                        ),
                        r@[9] is Blank,
                        r@[10] matches PreviewLine::Heading { text } && text@ == "Sections"@,
                        forall|j: int|
                            0 <= j < i ==> ((#[trigger] r@[11 + j]) matches PreviewLine::SectionItem { entry }
                                && entry@ == "  📄 "@ + p.sections@[j].heading@),
                    decreases p.sections.len() - i,
                {
                    let mut text = "  📄 ".to_owned();
                    text.append(p.sections[i].heading.as_str());
                    r.push(PreviewLine::SectionItem { entry: text });
                    i = i + 1;
                }
            },
            None => {
                if self.generating {
                    r.push(PreviewLine::Generating);
                } else {
                    r.push(PreviewLine::Placeholder);
                }
            },
        }
        r
    }

    /// The paper shown in the preview, if any.
    pub fn paper(&self) -> (r: Option<&PaperData>)
        ensures
            r == match self.spec_paper() {
                Some(p) => Some(&p),
                None => None,
            },
    {
        match &self.paper {
            Some(p) => Some(p),
            None => None,
        }
    }

    /// The index of the selected entry.
    pub fn selected_index(&self) -> (r: usize)
        ensures
            r == self.spec_selected_index(),
    {
        self.selected_index
    }

    /// The panel shown.
    pub fn mode(&self) -> (r: AppMode)
        ensures
            r == self.spec_mode(),
    {
        self.mode
    }

    /// Whether an output has been written.
    pub fn done(&self) -> (r: bool)
        ensures
            r == self.spec_done(),
    {
        self.done
    }
}

/// The colour of a status line.
pub open spec fn tone_spec(status: Seq<char>) -> Tone {
    if begins_with(status, "✅"@) {
        Tone::Success
    } else if begins_with(status, "❌"@) || begins_with(status, "⚠️"@) {
        Tone::Failure
    } else if begins_with(status, "⏳"@) {
        Tone::Busy
    } else {
        Tone::Neutral
    }
}

/// Whether `s` begins with `prefix`.
pub open spec fn begins_with(s: Seq<char>, prefix: Seq<char>) -> bool {
    prefix.len() <= s.len() && s.take(prefix.len() as int) == prefix
}

// ---------------------------------------------------------------------------
// Directory listings
// ---------------------------------------------------------------------------

/// What an entry of a directory is ordered by: whether it is a directory,
/// and the bytes of its file name.
pub struct EntryKey {
    pub is_dir: bool,
    pub name: Vec<u8>,
}

/// Lexicographic order on byte strings (a prefix comes first).
pub open spec fn bytes_le(a: Seq<u8>, b: Seq<u8>) -> bool
    decreases a.len(),
{
    if a.len() == 0 {
        true
    } else if b.len() == 0 {
        false
    } else if a[0] < b[0] {
        true
    } else if a[0] > b[0] {
        false
    } else {
        bytes_le(a.skip(1), b.skip(1))
    }
}

/// The order of a listing: directories first, then by file name.
pub open spec fn key_le(a: EntryKey, b: EntryKey) -> bool {
    (a.is_dir && !b.is_dir) || (a.is_dir == b.is_dir && bytes_le(a.name@, b.name@))
}

/// `order` lists each index of `keys` once, in the listing order, entries
/// that compare equal keeping their original order.
pub open spec fn is_listing_order(keys: Seq<EntryKey>, order: Seq<usize>) -> bool {
    &&& order.len() == keys.len()
    &&& forall|m: int| 0 <= m < order.len() ==> #[trigger] order[m] < keys.len()
    &&& forall|a: int, b: int| 0 <= a < b < order.len() ==> order[a] != order[b]
    &&& forall|a: int, b: int|
        0 <= a < b < order.len() ==> key_le(keys[order[a] as int], keys[order[b] as int])
    &&& forall|a: int, b: int|
        0 <= a < b < order.len() && key_le(keys[order[b] as int], keys[order[a] as int])
            ==> order[a] < order[b]
}

proof fn lemma_bytes_le_total(a: Seq<u8>, b: Seq<u8>)
    ensures
        bytes_le(a, b) || bytes_le(b, a),
    decreases a.len(),
{
    if a.len() > 0 && b.len() > 0 && a[0] == b[0] {
        lemma_bytes_le_total(a.skip(1), b.skip(1));
    }
}

proof fn lemma_bytes_le_trans(a: Seq<u8>, b: Seq<u8>, c: Seq<u8>)
    requires
        bytes_le(a, b),
        bytes_le(b, c),
    ensures
        bytes_le(a, c),
    decreases a.len(),
{
    if a.len() > 0 && b.len() > 0 && c.len() > 0 && a[0] == b[0] && b[0] == c[0] {
        lemma_bytes_le_trans(a.skip(1), b.skip(1), c.skip(1));
    }
}

proof fn lemma_key_le_total(a: EntryKey, b: EntryKey)
    ensures
        key_le(a, b) || key_le(b, a),
{
    lemma_bytes_le_total(a.name@, b.name@);
}

proof fn lemma_key_le_trans(a: EntryKey, b: EntryKey, c: EntryKey)
    requires
        key_le(a, b),
        key_le(b, c),
    ensures
        key_le(a, c),
{
    if a.is_dir == b.is_dir && b.is_dir == c.is_dir {
        lemma_bytes_le_trans(a.name@, b.name@, c.name@);
    }
}

fn bytes_le_exec(a: &Vec<u8>, b: &Vec<u8>) -> (r: bool)
    ensures
        r == bytes_le(a@, b@),
{
    let mut i: usize = 0;
    proof {
        assert(a@.skip(0) =~= a@);
        assert(b@.skip(0) =~= b@);
    }
    while i < a.len() && i < b.len() && a[i] == b[i]
        invariant
            i <= a.len(),
            i <= b.len(),
            bytes_le(a@, b@) == bytes_le(a@.skip(i as int), b@.skip(i as int)),
        decreases a.len() - i,
    {
        proof {
            assert(a@.skip(i as int).skip(1) =~= a@.skip(i + 1));
            assert(b@.skip(i as int).skip(1) =~= b@.skip(i + 1));
        }
        i = i + 1;
    }
    proof {
        if i < a.len() {
            assert(a@.skip(i as int)[0] == a@[i as int]);
        }
        if i < b.len() {
            assert(b@.skip(i as int)[0] == b@[i as int]);
        }
    }
    if i == a.len() {
        true
    } else if i == b.len() {
        false
    } else {
        a[i] < b[i]
    }
}

fn key_le_exec(a: &EntryKey, b: &EntryKey) -> (r: bool)
    ensures
        r == key_le(*a, *b),
{
    (a.is_dir && !b.is_dir) || (a.is_dir == b.is_dir && bytes_le_exec(&a.name, &b.name))
}

/// The order in which the entries of a directory are listed: the indices of
/// `keys`, directories first, then by file name (a stable sort).
pub fn listing_order(keys: &Vec<EntryKey>) -> (r: Vec<usize>)
    ensures
        is_listing_order(keys@, r@),
{
    let mut out: Vec<usize> = Vec::new();
    let mut i: usize = 0;
    while i < keys.len()
        invariant
            i <= keys.len(),
            out@.len() == i,
            forall|m: int| 0 <= m < out@.len() ==> #[trigger] out@[m] < i,
            forall|a: int, b: int| 0 <= a < b < out@.len() ==> out@[a] != out@[b],
            forall|a: int, b: int|
                0 <= a < b < out@.len() ==> key_le(keys@[out@[a] as int], keys@[out@[b] as int]),
            forall|a: int, b: int|
                0 <= a < b < out@.len() && key_le(keys@[out@[b] as int], keys@[out@[a] as int])
                    ==> out@[a] < out@[b],
        decreases keys.len() - i,
    {
        let mut j: usize = out.len();
        while j > 0 && !key_le_exec(&keys[out[j - 1]], &keys[i])
            invariant
                j <= out@.len(),
                out@.len() == i,
                i < keys.len(),
                forall|m: int| 0 <= m < out@.len() ==> #[trigger] out@[m] < i,
                forall|m: int|
                    j <= m < out@.len() ==> !key_le(keys@[out@[m] as int], keys@[i as int]),
            decreases j,
        {
            j = j - 1;
        }
        let ghost before = out@;
        proof {
            assert forall|m: int| j <= m < before.len() implies key_le(
                keys@[i as int],
                #[trigger] keys@[before[m] as int],
            ) by {
                lemma_key_le_total(keys@[i as int], keys@[before[m] as int]);
            }
            if j > 0 {
                assert forall|m: int| 0 <= m < j implies key_le(
                    #[trigger] keys@[before[m] as int],
                    keys@[i as int],
                ) by {
                    if m < j - 1 {
                        lemma_key_le_trans(
                            keys@[before[m] as int],
                            keys@[before[j - 1] as int],
                            keys@[i as int],
                        );
                    }
                }
            }
        }
        out.insert(j, i);
        proof {
            let now = out@;
            assert(now =~= before.insert(j as int, i));
            assert forall|a: int, b: int| 0 <= a < b < now.len() implies key_le(
                keys@[now[a] as int],
                keys@[now[b] as int],
            ) by {
                if b < j {
                } else if b == j {
                    assert(now[b] == i);
                    assert(now[a] == before[a]);
                } else if a == j {
                    assert(now[b] == before[b - 1]);
                } else if a < j {
                    assert(now[b] == before[b - 1]);
                    assert(now[a] == before[a]);
                    lemma_key_le_trans(
                        keys@[before[a] as int],
                        keys@[i as int],
                        keys@[before[b - 1] as int],
                    );
                } else {
                    assert(now[a] == before[a - 1]);
                    assert(now[b] == before[b - 1]);
                }
            }
            assert forall|a: int, b: int|
                0 <= a < b < now.len() && key_le(keys@[now[b] as int], keys@[now[a] as int])
                    implies now[a] < now[b] by {
                if b < j {
                } else if b == j {
                    assert(now[a] == before[a]);
                } else if a == j {
                    assert(now[b] == before[b - 1]);
                    assert(!key_le(keys@[before[b - 1] as int], keys@[i as int]));
                } else if a < j {
                    assert(now[b] == before[b - 1]);
                    assert(now[a] == before[a]);
                } else {
                    assert(now[a] == before[a - 1]);
                    assert(now[b] == before[b - 1]);
                }
            }
            assert forall|m: int| 0 <= m < now.len() implies #[trigger] now[m] < i + 1 by {
                if m < j {
                    assert(now[m] == before[m]);
                } else if m > j {
                    assert(now[m] == before[m - 1]);
                }
            }
            assert forall|a: int, b: int| 0 <= a < b < now.len() implies now[a] != now[b] by {
                if b < j {
                } else if b == j {
                    assert(now[a] == before[a]);
                } else if a == j {
                    assert(now[b] == before[b - 1]);
                } else if a < j {
                    assert(now[b] == before[b - 1]);
                    assert(now[a] == before[a]);
                } else {
                    assert(now[a] == before[a - 1]);
                    assert(now[b] == before[b - 1]);
                }
            }
        }
        i = i + 1;
    }
    out
}

// ---------------------------------------------------------------------------
// Laws
// ---------------------------------------------------------------------------

/// Moving through the file browser never takes the selection off the list.
pub proof fn law_browse_stays_in_range(index: usize, len: nat, key: Key)
    requires
        len > 0 ==> index < len,
        len == 0 ==> index == 0,
    ensures
        len > 0 ==> App::browse_index_spec(index, len, key) < len,
        len == 0 ==> App::browse_index_spec(index, len, key) == 0,
{
}

/// Up then down (or down then up) in the file browser comes back to the same
/// entry, except at the ends of the list.
pub proof fn law_up_down_roundtrip(index: usize, len: nat)
    requires
        len <= usize::MAX,
        0 < index,
        index < len,
    ensures
        App::browse_index_spec(App::browse_index_spec(index, len, Key::Up), len, Key::Down)
            == index,
        index + 1 < len ==> App::browse_index_spec(
            App::browse_index_spec(index, len, Key::Down),
            len,
            Key::Up,
        ) == index,
{
}

} // verus!
