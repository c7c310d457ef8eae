//! The text of a PDF and its statistics, its page count, and the metadata
//! written into a generated PDF. The program reads and writes the files,
//! runs `pdf-extract` (which can panic on damaged documents) and the OCR
//! tool; the page count and the metadata are computed here with `lopdf`.
use vstd::prelude::*;
use vstd::string::StringExecFns;
use crate::text::{blank, chars_of, is_blank, split_words, words};

verus! {

/// The text of a PDF, with its word and character counts.
pub struct ExtractedText {
    pub text: String,
    pub word_count: usize,
    pub char_count: usize,
}

/// Why the text of a PDF could not be extracted.
pub enum ExtractError {
    /// `pdf-extract` failed; the detail is its description of the failure.
    PdfExtraction { detail: String },
}

impl ExtractError {
    /// The message shown for this error.
    pub fn message(&self) -> (r: String)
        ensures
            r@ == match self {
                ExtractError::PdfExtraction { detail } => "PDF extraction failed: "@ + detail@,
            },
    {
        match self {
            ExtractError::PdfExtraction { detail } => {
                let mut r = "PDF extraction failed: ".to_owned();
                r.append(detail.as_str());
                r
            },
        }
    }
}

/// Parses the PDF in `bytes` with `lopdf::Document::load_mem` and counts the
/// entries of the page map that `Document::get_pages` builds from the page
/// tree; `None` when parsing fails. Nothing is claimed of the outcome:
/// `lopdf` may load a document's object streams in parallel, and which copy
/// of an object that two streams hold is kept then depends on scheduling.
#[verifier::external_body]
fn lopdf_page_count(bytes: &[u8]) -> Option<usize> {
    match lopdf::Document::load_mem(bytes) {
        Ok(doc) => Some(doc.get_pages().len()),
        Err(_) => None,
    }
}

/// Parses the PDF in `pdf` with `lopdf::Document::load_mem`, sets the
/// trailer's `Info` entry to a dictionary of the three strings (as literal
/// PDF strings), and saves the document with `Document::save_to`; `None`
/// when parsing or saving fails. Nothing is claimed of the outcome, for the
/// reason given at `lopdf_page_count`.
#[verifier::external_body]
fn lopdf_set_info(pdf: &[u8], title: &str, author: &str, subject: &str) -> Option<Vec<u8>> {
    let mut doc = lopdf::Document::load_mem(pdf).ok()?;
    let info = lopdf::Dictionary::from_iter([
        ("Title", lopdf::Object::string_literal(title)),
        ("Author", lopdf::Object::string_literal(author)),
        ("Subject", lopdf::Object::string_literal(subject)),
    ]);
    doc.trailer.set("Info", lopdf::Object::Dictionary(info));
    let mut out: Vec<u8> = Vec::new();
    match doc.save_to(&mut out) {
        Ok(()) => Some(out),
        Err(_) => None,
    }
}

/// The author recorded in a generated PDF.
pub const METADATA_AUTHOR: &'static str = "PaperCoat";

/// The subject recorded in a generated PDF.
pub const METADATA_SUBJECT: &'static str =
    "Generated by PaperCoat - Computational Literary Analysis";

/// The text with its number of words (runs of non-whitespace characters) and
/// of characters.
pub fn extracted_from_text(text: String) -> (r: ExtractedText)
    ensures
        r.text@ == text@,
        r.word_count == words(text@).len(),
        r.char_count == text@.len(),
{
    let chars = chars_of(text.as_str());
    let word_count = split_words(&chars).len();
    ExtractedText { text, word_count, char_count: chars.len() }
}

/// Whether `s` holds something other than whitespace.
fn has_text(s: &String) -> (r: bool)
    ensures
        r == !is_blank(s@),
{
    let c = chars_of(s.as_str());
    !blank(&c)
}

/// The text a PDF is read as: its own text when that holds more than
/// whitespace; otherwise the OCR text of its page images when OCR was run
/// and recovered more than whitespace; otherwise its own (blank) text, or
/// nothing when it could not be extracted.
pub open spec fn text_read(pdf_text: Option<Seq<char>>, ocr_text: Option<Seq<char>>) -> Option<
    Seq<char>,
> {
    match pdf_text {
        Some(t) if !is_blank(t) => Some(t),
        _ => match ocr_text {
            Some(o) if !is_blank(o) => Some(o),
            _ => pdf_text,
        },
    }
}

/// The text of a PDF, with its word and character counts, from what
/// `pdf-extract` made of it (`Err` with the description of its failure) and
/// from the OCR of its page images (`None` when OCR was not asked for or
/// could not be run). OCR stands in for a missing or failed text layer, as
/// in a scanned document.
pub fn extract_text(extracted: Result<String, String>, ocr_text: Option<String>) -> (r: Result<
    ExtractedText,
    ExtractError,
>)
    ensures
        match r {
            Ok(e) => text_read(
                match extracted {
                    Ok(t) => Some(t@),
                    Err(_) => None,
                },
                match ocr_text {
                    Some(o) => Some(o@),
                    None => None,
                },
            ) == Some(e.text@) && e.word_count == words(e.text@).len() && e.char_count
                == e.text@.len(),
            Err(ExtractError::PdfExtraction { detail }) => extracted matches Err(d) && detail@
                == d@ && match ocr_text {
                Some(o) => is_blank(o@),
                None => true,
            },
        },
{
    match extracted {
        Ok(t) => {
            if has_text(&t) {
                return Ok(extracted_from_text(t));
            }
            match ocr_text {
                Some(o) => {
                    if has_text(&o) {
                        Ok(extracted_from_text(o))
                    } else {
                        Ok(extracted_from_text(t))
                    }
                },
                None => Ok(extracted_from_text(t)),
            }
        },
        Err(d) => match ocr_text {
            Some(o) => {
                if has_text(&o) {
                    Ok(extracted_from_text(o))
                } else {
                    Err(ExtractError::PdfExtraction { detail: d })
                }
            },
            None => Err(ExtractError::PdfExtraction { detail: d }),
        },
    }
}

/// The page count reported for a PDF from what `lopdf` found: the number of
/// pages, or 0 when the document could not be parsed.
pub fn page_count_or_zero(found: Option<usize>) -> (r: usize)
    ensures
        r == match found {
            Some(n) => n,
            None => 0,
        },
{
    match found {
        Some(n) => n,
        None => 0,
    }
}

/// The number of pages of the PDF in `bytes` as `lopdf` counts them, or 0
/// when it cannot be parsed (see `page_count_or_zero`).
pub fn estimate_page_count(bytes: &[u8]) -> usize {
    page_count_or_zero(lopdf_page_count(bytes))
}

/// The generated PDF `pdf` with its metadata set by `lopdf`: the title is
/// the stem of the output file, the author is `METADATA_AUTHOR` and the
/// subject `METADATA_SUBJECT`. `None` when the PDF cannot be parsed or
/// saved, and then the file is to be left as it is.
pub fn pdf_with_metadata(pdf: &[u8], stem: &str) -> Option<Vec<u8>> {
    lopdf_set_info(pdf, stem, METADATA_AUTHOR, METADATA_SUBJECT)
}

} // verus!
