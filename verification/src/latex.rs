//! The preamble store and the assembly of a typesetting document.

use vstd::prelude::*;
use vstd::string::*;

verus! {

/// Preamble used when the user has none: the three standard math-symbol packages.
pub const DEFAULT_PREAMBLE: &'static str =
    "\n    \\usepackage{amsmath}\n    \\usepackage{amssymb}\n    \\usepackage{amsfonts}\n";

/// Name of the user's preamble file inside the configuration directory.
pub const PREAMBLE_FILE_NAME: &'static str = "preamble.tex";

/// What stands before the preamble: document class and base encoding.
pub const DOCUMENT_HEAD: &'static str =
    "\n            \\documentclass[dvisvgm, preview, 12pt]{standalone}\n            \\usepackage[utf8]{inputenc}\n            % --- Preamble below ---\n            ";

/// What stands between the preamble and the math body.
pub const DOCUMENT_MIDDLE: &'static str =
    "\n            % --- Input below ---\n            \\begin{document}\n            ";

/// What stands after the math body.
pub const DOCUMENT_TAIL: &'static str = "\n            \\end{document}\n        ";

/// Name of the typesetting compiler.
pub const TYPESETTER: &'static str = "latex";

/// Name of the converter from the typesetter's output to a vector image.
pub const CONVERTER: &'static str = "dvisvgm";

/// Name of the typesetter's log inside the workspace.
pub const LOG_FILE_NAME: &'static str = "input.log";

/// The current preamble. The host keeps one value of this type for the whole
/// process, behind a lock: every reader sees the value of the latest
/// `set_preamble`, whole.
pub struct LatexSettings {
    preamble: String,
}

impl View for LatexSettings {
    type V = Seq<char>;

    closed spec fn view(&self) -> Seq<char> {
        self.preamble@
    }
}

impl LatexSettings {
    /// A store that holds `initial_content`.
    pub fn new(initial_content: String) -> (r: Self)
        ensures
            r@ == initial_content@,
    {
        LatexSettings { preamble: initial_content }
    }

    /// A copy of the current preamble.
    pub fn get_preamble(&self) -> (r: String)
        ensures
            r@ == self@,
    {
        self.preamble.clone()
    }

    /// Replaces the current preamble by `new_content`, whole.
    pub fn set_preamble(&mut self, new_content: String)
        ensures
            final(self)@ == new_content@,
    {
        self.preamble = new_content;
    }
}

/// What looking for the user's preamble file came to.
pub enum PreambleLookup {
    /// The configuration directory could not be resolved; holds the reason.
    Unresolved(String),
    /// The directory holds no preamble file.
    Missing,
    /// The file is there and could not be read.
    Unreadable,
    /// The file was read; holds its contents.
    Loaded(String),
}

/// The preamble that a lookup yields: the file's contents where it was read,
/// the default in every other case.
pub open spec fn preamble_of(lookup: PreambleLookup) -> Seq<char> {
    match lookup {
        PreambleLookup::Loaded(content) => content@,
        _ => DEFAULT_PREAMBLE@,
    }
}

/// The line to log for a lookup; none where the file was read.
pub open spec fn lookup_diagnostic(lookup: PreambleLookup) -> Option<Seq<char>> {
    match lookup {
        PreambleLookup::Unresolved(reason) => Some(
            "Could not resolve app config dir: "@ + reason@,
        ),
        PreambleLookup::Missing => Some("Preamble file not found"@),
        PreambleLookup::Unreadable => Some("Error reading preamble file"@),
        PreambleLookup::Loaded(_) => None,
    }
}

/// The view of an optional string.
pub open spec fn option_view(text: Option<String>) -> Option<Seq<char>> {
    match text {
        Some(s) => Some(s@),
        None => None,
    }
}

/// The preamble to use after a lookup.
pub fn read_preamble(lookup: PreambleLookup) -> (r: String)
    ensures
        r@ == preamble_of(lookup),
{
    match lookup {
        PreambleLookup::Loaded(content) => content,
        _ => String::from_str(DEFAULT_PREAMBLE),
    }
}

/// The line to log after a lookup, if it failed.
pub fn preamble_diagnostic(lookup: &PreambleLookup) -> (r: Option<String>)
    ensures
        option_view(r) == lookup_diagnostic(*lookup),
{
    match lookup {
        PreambleLookup::Unresolved(reason) => {
            let mut line = String::from_str("Could not resolve app config dir: ");
            line.append(reason.as_str());
            Some(line)
        },
        PreambleLookup::Missing => Some(String::from_str("Preamble file not found")),
        PreambleLookup::Unreadable => Some(String::from_str("Error reading preamble file")),
        PreambleLookup::Loaded(_) => None,
    }
}

/// Replaces the stored preamble by what the lookup yields. Only an
/// unresolved configuration directory is reported as a failure, and the store
/// holds the default even so.
pub fn reload_preamble_from_disk(settings: &mut LatexSettings, lookup: PreambleLookup) -> (r:
    Result<(), String>)
    ensures
        final(settings)@ == preamble_of(lookup),
        match r {
            Ok(_) => !(lookup is Unresolved),
            Err(message) => lookup is Unresolved && Some(message@) == lookup_diagnostic(lookup),
        },
{
    let diagnostic = preamble_diagnostic(&lookup);
    let failed = match &lookup {
        PreambleLookup::Unresolved(_) => true,
        _ => false,
    };
    settings.set_preamble(read_preamble(lookup));
    match diagnostic {
        Some(message) => {
            if failed {
                Err(message)
            } else {
                Ok(())
            }
        },
        None => Ok(()),
    }
}

/// The math body as it stands in the document: an inline snippet between two
/// dollar signs, a display snippet as it is.
pub open spec fn math_body(tex: Seq<char>, display_mode: bool) -> Seq<char> {
    if display_mode {
        tex
    } else {
        seq!['$'] + tex + seq!['$']
    }
}

/// The whole document: head, preamble, middle, math body, tail.
pub open spec fn document(tex: Seq<char>, display_mode: bool, preamble: Seq<char>) -> Seq<char> {
    DOCUMENT_HEAD@ + preamble + DOCUMENT_MIDDLE@ + math_body(tex, display_mode) + DOCUMENT_TAIL@
}

/// Index in a document at which the math body starts.
pub open spec fn body_offset(preamble: Seq<char>) -> int {
    (DOCUMENT_HEAD@.len() + preamble.len() + DOCUMENT_MIDDLE@.len()) as int
}

/// `part` stands in `text` at index `at`.
pub open spec fn occurs_at(text: Seq<char>, part: Seq<char>, at: int) -> bool {
    0 <= at && at + part.len() <= text.len() && text.subrange(at, at + part.len()) == part
}

/// `part` stands somewhere in `text`.
pub open spec fn contains(text: Seq<char>, part: Seq<char>) -> bool {
    exists|at: int| occurs_at(text, part, at)
}

/// Builds the math body of a snippet.
pub fn body_of(tex: &str, display_mode: bool) -> (r: String)
    ensures
        r@ == math_body(tex@, display_mode),
{
    if display_mode {
        String::from_str(tex)
    } else {
        proof {
            reveal_strlit("$");
        }
        let mut body = String::from_str("$");
        body.append(tex);
        body.append("$");
        assert(body@ =~= math_body(tex@, display_mode));
        body
    }
}

/// Builds the document to typeset for one snippet.
pub fn assemble_document(tex: &str, display_mode: bool, preamble: &str) -> (r: String)
    ensures
        r@ == document(tex@, display_mode, preamble@),
{
    let body = body_of(tex, display_mode);
    let mut doc = String::from_str(DOCUMENT_HEAD);
    doc.append(preamble);
    doc.append(DOCUMENT_MIDDLE);
    doc.append(body.as_str());
    doc.append(DOCUMENT_TAIL);
    doc
}

/// Inside the document the math body stands right after head, preamble and
/// middle, and the tail follows it at once.
pub proof fn lemma_document_body(tex: Seq<char>, display_mode: bool, preamble: Seq<char>)
    ensures
        occurs_at(
            document(tex, display_mode, preamble),
            math_body(tex, display_mode),
            body_offset(preamble),
        ),
        occurs_at(document(tex, display_mode, preamble), preamble, DOCUMENT_HEAD@.len() as int),
        document(tex, display_mode, preamble).len() == DOCUMENT_HEAD@.len() + preamble.len()
            + DOCUMENT_MIDDLE@.len() + math_body(tex, display_mode).len() + DOCUMENT_TAIL@.len(),
        display_mode ==> math_body(tex, display_mode) == tex,
        !display_mode ==> math_body(tex, display_mode) == seq!['$'] + tex + seq!['$'],
{
    let doc = document(tex, display_mode, preamble);
    let body = math_body(tex, display_mode);
    let at = body_offset(preamble);
    assert(doc.subrange(at, at + body.len()) =~= body);
    let head = DOCUMENT_HEAD@.len() as int;
    assert(doc.subrange(head, head + preamble.len()) =~= preamble);
}

/// A document shows which preamble it was built with: two documents for one
/// snippet are equal only where their preambles are.
pub proof fn lemma_document_reflects_preamble(
    tex: Seq<char>,
    display_mode: bool,
    first: Seq<char>,
    second: Seq<char>,
)
    requires
        document(tex, display_mode, first) == document(tex, display_mode, second),
    ensures
        first == second,
{
    lemma_document_body(tex, display_mode, first);
    lemma_document_body(tex, display_mode, second);
}

/// A reload shows in the next render and in none before it: a document built
/// from the store after the reload holds the reloaded preamble, one built
/// before holds the earlier preamble, and where the two preambles differ so
/// do the documents.
pub proof fn lemma_reload_is_reflected(
    earlier: Seq<char>,
    lookup: PreambleLookup,
    tex: Seq<char>,
    display_mode: bool,
)
    ensures
        occurs_at(
            document(tex, display_mode, preamble_of(lookup)),
            preamble_of(lookup),
            DOCUMENT_HEAD@.len() as int,
        ),
        occurs_at(document(tex, display_mode, earlier), earlier, DOCUMENT_HEAD@.len() as int),
        earlier != preamble_of(lookup) ==> document(tex, display_mode, earlier) != document(
            tex,
            display_mode,
            preamble_of(lookup),
        ),
{
    lemma_document_body(tex, display_mode, preamble_of(lookup));
    lemma_document_body(tex, display_mode, earlier);
    if document(tex, display_mode, earlier) == document(tex, display_mode, preamble_of(lookup)) {
        lemma_document_reflects_preamble(tex, display_mode, earlier, preamble_of(lookup));
    }
}

/// The default preamble declares the three standard math-symbol packages.
pub proof fn lemma_default_preamble_packages()
    ensures
        contains(DEFAULT_PREAMBLE@, "\\usepackage{amsmath}"@),
        contains(DEFAULT_PREAMBLE@, "\\usepackage{amssymb}"@),
        contains(DEFAULT_PREAMBLE@, "\\usepackage{amsfonts}"@),
{
    reveal_strlit(
        "\n    \\usepackage{amsmath}\n    \\usepackage{amssymb}\n    \\usepackage{amsfonts}\n",
    );
    reveal_strlit("\\usepackage{amsmath}");
    reveal_strlit("\\usepackage{amssymb}");
    reveal_strlit("\\usepackage{amsfonts}");
    let text = DEFAULT_PREAMBLE@;
    assert(text.subrange(5, 25) =~= "\\usepackage{amsmath}"@);
    assert(occurs_at(text, "\\usepackage{amsmath}"@, 5));
    assert(text.subrange(30, 50) =~= "\\usepackage{amssymb}"@);
    assert(occurs_at(text, "\\usepackage{amssymb}"@, 30));
    assert(text.subrange(55, 76) =~= "\\usepackage{amsfonts}"@);
    assert(occurs_at(text, "\\usepackage{amsfonts}"@, 55));
}

/// Whenever the file was not read, the preamble in use declares the three
/// standard math-symbol packages.
pub proof fn lemma_fallback_declares_packages(lookup: PreambleLookup)
    requires
        !(lookup is Loaded),
    ensures
        preamble_of(lookup) == DEFAULT_PREAMBLE@,
        contains(preamble_of(lookup), "\\usepackage{amsmath}"@),
        contains(preamble_of(lookup), "\\usepackage{amssymb}"@),
        contains(preamble_of(lookup), "\\usepackage{amsfonts}"@),
{
    lemma_default_preamble_packages();
}

/// Name of the source file of the render `id`.
pub fn source_file_name(id: &str) -> (r: String)
    ensures
        r@ == id@ + ".tex"@,
{
    let mut name = String::from_str(id);
    name.append(".tex");
    name
}

/// Name of the file that the typesetter leaves for the render `id`.
pub fn dvi_file_name(id: &str) -> (r: String)
    ensures
        r@ == id@ + ".dvi"@,
{
    let mut name = String::from_str(id);
    name.append(".dvi");
    name
}

/// The views of a list of strings, in order.
pub open spec fn views(list: Seq<String>) -> Seq<Seq<char>> {
    Seq::new(list.len(), |i: int| list[i]@)
}

/// Arguments of the typesetter: no interaction, every artifact into the
/// workspace, the source file last.
pub open spec fn typesetter_arguments(workspace: Seq<char>, source_path: Seq<char>) -> Seq<
    Seq<char>,
> {
    seq!["-interaction=nonstopmode"@, "-output-directory"@, workspace, source_path]
}

/// Arguments of the converter: the fixed zoom, a tight bounding box, the
/// image on standard output, the typesetter's output file last.
pub open spec fn converter_arguments(dvi_path: Seq<char>) -> Seq<Seq<char>> {
    seq!["--zoom=1.1"@, "--exact-bbox"@, "--stdout"@, dvi_path]
}

/// Builds the typesetter's arguments.
pub fn typesetter_args(workspace: &str, source_path: &str) -> (r: Vec<String>)
    ensures
        views(r@) == typesetter_arguments(workspace@, source_path@),
{
    let mut args: Vec<String> = Vec::new();
    args.push(String::from_str("-interaction=nonstopmode"));
    args.push(String::from_str("-output-directory"));
    args.push(String::from_str(workspace));
    args.push(String::from_str(source_path));
    assert(views(args@) =~= typesetter_arguments(workspace@, source_path@));
    args
}

/// Builds the converter's arguments.
pub fn converter_args(dvi_path: &str) -> (r: Vec<String>)
    ensures
        views(r@) == converter_arguments(dvi_path@),
{
    let mut args: Vec<String> = Vec::new();
    args.push(String::from_str("--zoom=1.1"));
    args.push(String::from_str("--exact-bbox"));
    args.push(String::from_str("--stdout"));
    args.push(String::from_str(dvi_path));
    assert(views(args@) =~= converter_arguments(dvi_path@));
    args
}

} // verus!
