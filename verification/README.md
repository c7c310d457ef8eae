# papercoat

Turns the text of a novel (taken from a PDF) into an academic-looking paper:
a title, authors with ORCIDs and affiliations, a structured abstract, six
sections with citations and block quotes, seven references and journal
metadata, rendered as a LaTeX document in one of three templates.

The library under `src/` is written in Verus. Its functions are proved
against their contracts, except for a few trusted items that Verus takes on
faith: the specification of `String::push`, the two wrappers that feed the
standard hasher (`transformer`), and the two wrappers that call `lopdf`
(`extractor`), of whose results nothing is claimed. The modules:

- `text`: splitting text into words, sentences and paragraphs, trimming,
  joining and truncating, over sequences of characters.
- `numfmt`: decimal digits, zero padding and thousands separators.
- `transformer`, `sections`, `wording`: the paper derived from a text and a
  seed, and the fixed wording it is made of.
- `templates`, `renderer`: the LaTeX preambles and the rendered document.
- `config`, `cli`: the stored settings, how command-line options override
  them, and which action a command line asks for.
- `extractor`: which text a PDF is read as (its own text, or OCR text
  where it has none), its page count and the metadata written into a
  generated PDF, through `lopdf`.
- `tui`: the state of the interactive browser, the keys it reacts to and
  what its panels show.

Each module states its laws as public proof functions (`law_*`).

`app/` holds the program around the library: argument parsing, files,
the terminal interface, `pdf-extract` (whose panics on damaged documents
are caught there), the OCR tools, `pdflatex`, and the floating-point
statistics.
`tests/` exercises the library on concrete values.
