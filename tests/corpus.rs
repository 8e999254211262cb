use tree_crasher::{load_corpus, parse, CorpusError, SeedFile};
use tree_sitter::Language;

fn javascript() -> Language {
    tree_sitter_javascript::LANGUAGE.into()
}

fn file(name: &str, text: Option<&str>) -> SeedFile {
    (String::from(name), text.map(String::from))
}

#[test]
fn parse_gives_a_tree() {
    let tree = parse(&javascript(), "a+b;").unwrap();
    assert_eq!(tree.root_node().kind(), "program");
    assert!(tree.root_node().child_count() > 0);
}

#[test]
fn corpus_holds_each_readable_file() {
    let corpus = load_corpus(
        &javascript(),
        vec![
            file("seeds/a.js", Some("a+b")),
            file("seeds/b.js", None),
            file("seeds/c.js", Some("let x = 1;")),
        ],
    )
    .unwrap();
    assert_eq!(corpus.len(), 2);
    assert!(!corpus.is_empty());
    assert_eq!(corpus.name(0), "seeds/a.js");
    assert_eq!(corpus.bytes(0), &b"a+b".to_vec());
    assert_eq!(corpus.name(1), "seeds/c.js");
    assert_eq!(corpus.bytes(1), &b"let x = 1;".to_vec());
}

#[test]
fn corpus_keeps_utf8_bytes() {
    let corpus = load_corpus(&javascript(), vec![file("s.js", Some("\"é\""))]).unwrap();
    assert_eq!(corpus.bytes(0), &vec![b'"', 0xc3, 0xa9, b'"']);
}

#[test]
fn empty_directory_fails_to_load() {
    assert!(matches!(load_corpus(&javascript(), Vec::new()), Err(CorpusError::Empty)));
}

#[test]
fn directory_of_unreadable_files_fails_to_load() {
    let r = load_corpus(&javascript(), vec![file("a", None), file("b", None)]);
    assert!(matches!(r, Err(CorpusError::Empty)));
}

#[test]
fn syntax_errors_still_parse() {
    let corpus = load_corpus(&javascript(), vec![file("bad.js", Some("a +* ;("))]).unwrap();
    assert_eq!(corpus.len(), 1);
}

#[test]
fn grammar_is_accepted() {
    assert!(tree_crasher::LanguageParser::for_language(&javascript()).is_some());
}

#[test]
fn parses_of_one_text_agree() {
    let a = parse(&javascript(), "f(x);").unwrap();
    let b = parse(&javascript(), "f(x);").unwrap();
    assert_eq!(a.root_node().to_sexp(), b.root_node().to_sexp());
}

#[test]
fn corpus_knows_whether_it_can_be_spliced() {
    let corpus = load_corpus(&javascript(), vec![file("a.js", Some("a+b;"))]).unwrap();
    assert!(corpus.is_spliceable());
    let empty = load_corpus(&javascript(), vec![file("e.js", Some(""))]).unwrap();
    assert!(!empty.is_spliceable());
}
