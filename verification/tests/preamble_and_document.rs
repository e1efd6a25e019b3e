use glimpse::latex::{
    assemble_document, body_of, converter_args, dvi_file_name, preamble_diagnostic, read_preamble,
    reload_preamble_from_disk, source_file_name, typesetter_args, LatexSettings, PreambleLookup,
    CONVERTER, DEFAULT_PREAMBLE, LOG_FILE_NAME, PREAMBLE_FILE_NAME, TYPESETTER,
};

fn expected_document(preamble: &str, body: &str) -> String {
    format!(
        r#"
            \documentclass[dvisvgm, preview, 12pt]{{standalone}}
            \usepackage[utf8]{{inputenc}}
            % --- Preamble below ---
            {}
            % --- Input below ---
            \begin{{document}}
            {}
            \end{{document}}
        "#,
        preamble, body
    )
}

#[test]
fn default_preamble_declares_three_packages() {
    assert!(DEFAULT_PREAMBLE.contains("\\usepackage{amsmath}"));
    assert!(DEFAULT_PREAMBLE.contains("\\usepackage{amssymb}"));
    assert!(DEFAULT_PREAMBLE.contains("\\usepackage{amsfonts}"));
    assert_eq!(
        DEFAULT_PREAMBLE,
        r#"
    \usepackage{amsmath}
    \usepackage{amssymb}
    \usepackage{amsfonts}
"#
    );
}

#[test]
fn fixed_names() {
    assert_eq!(PREAMBLE_FILE_NAME, "preamble.tex");
    assert_eq!(LOG_FILE_NAME, "input.log");
    assert_eq!(TYPESETTER, "latex");
    assert_eq!(CONVERTER, "dvisvgm");
}

#[test]
fn store_returns_what_it_was_made_with() {
    let store = LatexSettings::new(String::from("\\usepackage{tikz}"));
    assert_eq!(store.get_preamble(), "\\usepackage{tikz}");
    assert_eq!(store.get_preamble(), "\\usepackage{tikz}");
}

#[test]
fn store_returns_the_latest_value() {
    let mut store = LatexSettings::new(String::from("first"));
    store.set_preamble(String::from("second"));
    assert_eq!(store.get_preamble(), "second");
    store.set_preamble(String::new());
    assert_eq!(store.get_preamble(), "");
}

#[test]
fn absent_file_yields_the_default() {
    assert_eq!(read_preamble(PreambleLookup::Missing), DEFAULT_PREAMBLE);
    let store = LatexSettings::new(read_preamble(PreambleLookup::Missing));
    assert!(store.get_preamble().contains("\\usepackage{amsmath}"));
    assert!(store.get_preamble().contains("\\usepackage{amssymb}"));
    assert!(store.get_preamble().contains("\\usepackage{amsfonts}"));
}

#[test]
fn unreadable_file_and_unresolved_directory_yield_the_default() {
    assert_eq!(read_preamble(PreambleLookup::Unreadable), DEFAULT_PREAMBLE);
    assert_eq!(
        read_preamble(PreambleLookup::Unresolved(String::from("no home"))),
        DEFAULT_PREAMBLE
    );
}

#[test]
fn loaded_file_is_returned_whole() {
    let content = String::from("\\newcommand{\\R}{\\mathbb{R}}\n");
    assert_eq!(
        read_preamble(PreambleLookup::Loaded(content.clone())),
        content
    );
    assert_eq!(read_preamble(PreambleLookup::Loaded(String::new())), "");
}

#[test]
fn every_failed_lookup_has_a_diagnostic() {
    assert_eq!(
        preamble_diagnostic(&PreambleLookup::Unresolved(String::from("no home"))),
        Some(String::from("Could not resolve app config dir: no home"))
    );
    assert_eq!(
        preamble_diagnostic(&PreambleLookup::Missing),
        Some(String::from("Preamble file not found"))
    );
    assert_eq!(
        preamble_diagnostic(&PreambleLookup::Unreadable),
        Some(String::from("Error reading preamble file"))
    );
    assert_eq!(
        preamble_diagnostic(&PreambleLookup::Loaded(String::from("x"))),
        None
    );
}

#[test]
fn reload_replaces_the_stored_value() {
    let mut store = LatexSettings::new(String::from("old"));
    let before = assemble_document("x", false, &store.get_preamble());
    let outcome = reload_preamble_from_disk(&mut store, PreambleLookup::Loaded(String::from("new")));
    assert_eq!(outcome, Ok(()));
    let after = assemble_document("x", false, &store.get_preamble());
    assert_eq!(before, expected_document("old", "$x$"));
    assert_eq!(after, expected_document("new", "$x$"));
    assert_ne!(before, after);
}

#[test]
fn reload_with_absent_file_is_no_error() {
    let mut store = LatexSettings::new(String::from("old"));
    assert_eq!(reload_preamble_from_disk(&mut store, PreambleLookup::Missing), Ok(()));
    assert_eq!(store.get_preamble(), DEFAULT_PREAMBLE);
    assert_eq!(reload_preamble_from_disk(&mut store, PreambleLookup::Unreadable), Ok(()));
    assert_eq!(store.get_preamble(), DEFAULT_PREAMBLE);
}

#[test]
fn reload_reports_an_unresolved_directory() {
    let mut store = LatexSettings::new(String::from("old"));
    let outcome =
        reload_preamble_from_disk(&mut store, PreambleLookup::Unresolved(String::from("no home")));
    assert_eq!(
        outcome,
        Err(String::from("Could not resolve app config dir: no home"))
    );
    assert_eq!(store.get_preamble(), DEFAULT_PREAMBLE);
}

#[test]
fn inline_body_is_wrapped_in_dollars() {
    assert_eq!(body_of("a^2 + b^2", false), "$a^2 + b^2$");
    assert_eq!(body_of("", false), "$$");
}

#[test]
fn display_body_is_verbatim() {
    assert_eq!(body_of("\\[ a^2 \\]", true), "\\[ a^2 \\]");
    assert_eq!(body_of("", true), "");
}

#[test]
fn inline_document_matches_the_template() {
    let doc = assemble_document("x + y", false, DEFAULT_PREAMBLE);
    assert_eq!(doc, expected_document(DEFAULT_PREAMBLE, "$x + y$"));
}

#[test]
fn display_document_matches_the_template() {
    let doc = assemble_document("$$\\int_0^1 f$$", true, "\\usepackage{amsmath}");
    assert_eq!(doc, expected_document("\\usepackage{amsmath}", "$$\\int_0^1 f$$"));
    assert!(doc.contains("\\documentclass[dvisvgm, preview, 12pt]{standalone}"));
    assert!(doc.contains("\\usepackage[utf8]{inputenc}"));
}

#[test]
fn document_keeps_non_ascii_text() {
    let doc = assemble_document("α ≤ β", false, "% é");
    assert_eq!(doc, expected_document("% é", "$α ≤ β$"));
}

#[test]
fn different_preambles_give_different_documents() {
    let first = assemble_document("x", false, "a");
    let second = assemble_document("x", false, "ab");
    assert_ne!(first, second);
}

#[test]
fn artifact_names_follow_the_id() {
    assert_eq!(source_file_name("eq-1"), "eq-1.tex");
    assert_eq!(dvi_file_name("eq-1"), "eq-1.dvi");
    assert_eq!(source_file_name(""), ".tex");
}

#[test]
fn typesetter_arguments_in_order() {
    assert_eq!(
        typesetter_args("/tmp/w", "/tmp/w/eq.tex"),
        vec![
            String::from("-interaction=nonstopmode"),
            String::from("-output-directory"),
            String::from("/tmp/w"),
            String::from("/tmp/w/eq.tex"),
        ]
    );
}

#[test]
fn converter_arguments_in_order() {
    assert_eq!(
        converter_args("/tmp/w/eq.dvi"),
        vec![
            String::from("--zoom=1.1"),
            String::from("--exact-bbox"),
            String::from("--stdout"),
            String::from("/tmp/w/eq.dvi"),
        ]
    );
}
