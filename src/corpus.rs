use std::collections::HashMap;
use tree_sitter::{Language, Parser, Tree};
use vstd::prelude::*;
use vstd::string::StrSliceExecFns;
use vstd::utf8::encode_utf8;

verus! {

#[verifier::external_type_specification]
#[verifier::external_body]
pub struct ExLanguage(tree_sitter::Language);

#[verifier::external_type_specification]
#[verifier::external_body]
pub struct ExTree(tree_sitter::Tree);

#[verifier::external_type_specification]
#[verifier::external_body]
pub struct ExParser(tree_sitter::Parser);

#[verifier::external_type_specification]
#[verifier::external_body]
pub struct ExLanguageError(tree_sitter::LanguageError);

/// Relies on `tree_sitter::Parser::new`, which makes a parser without a
/// language.
pub assume_specification[ tree_sitter::Parser::new ]() -> tree_sitter::Parser;

/// Whether tree-sitter takes a grammar: its ABI version lies in the range
/// that this version of tree-sitter supports. This depends on the grammar
/// alone.
pub uninterp spec fn language_accepted(language: tree_sitter::Language) -> bool;

/// Relies on `tree_sitter::Parser::set_language`, which fails exactly when
/// the grammar's ABI version is out of the supported range.
pub assume_specification[ tree_sitter::Parser::set_language ](
    parser: &mut tree_sitter::Parser,
    language: &tree_sitter::Language,
) -> (r: Result<(), tree_sitter::LanguageError>)
    ensures
        r is Ok == language_accepted(*language),
;

/// A parser whose language was set. It can only be made by `for_language`.
pub struct LanguageParser {
    parser: Parser,
}

/// Relies on `tree_sitter::Parser::parse`: the syntax tree of the text in
/// the parser's language. It is `None` only for a parser without a
/// language, or after a timeout or a cancellation, none of which a
/// `LanguageParser` has.
#[verifier::external_body]
fn parse_text(parser: &mut LanguageParser, code: &str) -> (r: Option<Tree>)
    ensures
        r is Some,
{
    parser.parser.parse(code, None)
}

impl LanguageParser {
    /// A parser for the grammar, or `None` when tree-sitter does not take
    /// it.
    pub fn for_language(language: &Language) -> (r: Option<LanguageParser>)
        ensures
            r is Some <==> language_accepted(*language),
    {
        let mut parser = Parser::new();
        match parser.set_language(language) {
            Ok(()) => Some(LanguageParser { parser }),
            Err(_) => None,
        }
    }
}

/// Why a text could not be parsed.
#[derive(Clone, Copy, Debug, PartialEq, Eq, Structural)]
pub enum ParseError {
    /// The grammar does not fit this version of tree-sitter.
    IncompatibleLanguage,
}

/// Parses a text with a grammar. tree-sitter parses any text, giving error
/// nodes where it does not fit the grammar, so this fails only when the
/// grammar itself is refused; two calls with one grammar therefore both
/// succeed or both fail.
pub fn parse(language: &Language, code: &str) -> (r: Result<Tree, ParseError>)
    ensures
        r is Ok <==> language_accepted(*language),
        r is Err ==> r->Err_0 == ParseError::IncompatibleLanguage,
{
    match LanguageParser::for_language(language) {
        Some(mut parser) => Ok(parse_text(&mut parser, code).unwrap()),
        None => Err(ParseError::IncompatibleLanguage),
    }
}

/// Relies on `tree_sitter::Node::child_count` of the tree's root node.
#[verifier::external_body]
fn root_child_count(tree: &Tree) -> usize {
    tree.root_node().child_count()
}

/// A seed file: its name, its contents, and their syntax tree.
pub struct SeedEntry {
    pub name: String,
    pub bytes: Vec<u8>,
    pub tree: Tree,
    /// Number of children of the tree's root node.
    pub root_children: usize,
}

/// The seed corpus: the seed files that were read, each name once.
pub struct SeedCorpus {
    entries: Vec<SeedEntry>,
    files: HashMap<String, (Vec<u8>, Tree)>,
}

/// Relies on `Clone` for `tree_sitter::Tree`.
#[verifier::external_body]
fn clone_tree(tree: &Tree) -> Tree {
    tree.clone()
}

/// The seeds keyed by name, as the splicer takes them.
fn splice_map(entries: &Vec<SeedEntry>) -> HashMap<String, (Vec<u8>, Tree)> {
    let mut files: HashMap<String, (Vec<u8>, Tree)> = HashMap::new();
    let mut i: usize = 0;
    while i < entries.len()
        invariant
            0 <= i <= entries@.len(),
        decreases entries@.len() - i,
    {
        let e = &entries[i];
        files.insert(e.name.clone(), (e.bytes.clone(), clone_tree(&e.tree)));
        i = i + 1;
    }
    files
}

impl View for SeedCorpus {
    type V = Seq<(Seq<char>, Seq<u8>)>;

    closed spec fn view(&self) -> Seq<(Seq<char>, Seq<u8>)> {
        self.entries@.map_values(|e: SeedEntry| (e.name@, e.bytes@))
    }
}

/// A seed file as the loader gets it: its name, and its text if it could
/// be read.
pub type SeedFile = (String, Option<String>);

/// The names of the files are pairwise distinct.
pub open spec fn distinct_names(files: Seq<SeedFile>) -> bool {
    forall|i: int, j: int|
        0 <= i < files.len() && 0 <= j < files.len() && i != j ==> files[i].0@ != files[j].0@
}

/// The seeds that a list of files gives: each file that was read, in
/// order, with its text as UTF-8 bytes.
pub open spec fn readable_seeds(files: Seq<SeedFile>) -> Seq<(Seq<char>, Seq<u8>)>
    decreases files.len(),
{
    if files.len() == 0 {
        Seq::empty()
    } else {
        let rest = readable_seeds(files.drop_last());
        match files.last().1 {
            Some(text) => rest.push((files.last().0@, encode_utf8(text@))),
            None => rest,
        }
    }
}

/// The number of seed files that could be read.
pub open spec fn readable_count(files: Seq<SeedFile>) -> nat {
    files.filter(|f: SeedFile| f.1 is Some).len()
}

/// A loaded corpus holds exactly one seed for each seed file that could be
/// read, whatever the files that could not.
pub proof fn lemma_corpus_size(files: Seq<SeedFile>)
    ensures
        readable_seeds(files).len() == readable_count(files),
    decreases files.len(),
{
    reveal(Seq::filter);
    if files.len() > 0 {
        lemma_corpus_size(files.drop_last());
    }
}

/// A list with a file that could be read gives at least one seed.
proof fn lemma_readable_nonempty(files: Seq<SeedFile>, i: int)
    requires
        0 <= i < files.len(),
        files[i].1 is Some,
    ensures
        readable_seeds(files).len() > 0,
    decreases files.len(),
{
    if i < files.len() - 1 {
        lemma_readable_nonempty(files.drop_last(), i);
    }
}

/// Why the seed corpus could not be loaded.
#[derive(Clone, Debug)]
pub enum CorpusError {
    /// No seed file could be read.
    Empty,
    /// A seed file was read but could not be parsed.
    Unparsable { name: String, error: ParseError },
}

impl SeedCorpus {
    /// Number of seeds.
    pub fn len(&self) -> (r: usize)
        ensures
            r == self@.len(),
    {
        self.entries.len()
    }

    /// Whether there is no seed.
    pub fn is_empty(&self) -> (r: bool)
        ensures
            r == (self@.len() == 0),
    {
        self.entries.len() == 0
    }

    /// The name of the `i`-th seed.
    pub fn name(&self, i: usize) -> (r: &String)
        requires
            i < self@.len(),
        ensures
            r@ == self@[i as int].0,
    {
        &self.entries[i].name
    }

    /// The contents of the `i`-th seed.
    pub fn bytes(&self, i: usize) -> (r: &Vec<u8>)
        requires
            i < self@.len(),
        ensures
            r@ == self@[i as int].1,
    {
        &self.entries[i].bytes
    }

    /// Whether some seed's tree has a root with a child, which the splicer
    /// needs to work on the corpus.
    pub closed spec fn spliceable(&self) -> bool {
        exists|i: int| 0 <= i < self.entries@.len() && #[trigger] self.entries@[i].root_children > 0
    }

    /// Whether some seed's tree has a root with a child.
    pub fn is_spliceable(&self) -> (r: bool)
        ensures
            r == self.spliceable(),
    {
        let mut i: usize = 0;
        while i < self.entries.len()
            invariant
                0 <= i <= self.entries@.len(),
                forall|j: int| 0 <= j < i ==> #[trigger] self.entries@[j].root_children == 0,
            decreases self.entries@.len() - i,
        {
            if self.entries[i].root_children > 0 {
                return true;
            }
            i = i + 1;
        }
        false
    }

    /// The seeds keyed by name, as the splicer takes them.
    pub(crate) fn files(&self) -> &HashMap<String, (Vec<u8>, Tree)> {
        &self.files
    }
}

/// Builds the seed corpus from the seed files. A file that could not be
/// read is skipped; a file that was read but cannot be parsed fails the
/// whole load, and so does a directory where nothing could be read.
pub fn load_corpus(language: &Language, files: Vec<SeedFile>) -> (r: Result<
    SeedCorpus,
    CorpusError,
>)
    requires
        distinct_names(files@),
    ensures
        r is Ok ==> r->Ok_0@ == readable_seeds(files@) && r->Ok_0@.len() > 0,
        (r is Err && r->Err_0 is Empty) <==> readable_seeds(files@).len() == 0,
        readable_seeds(files@).len() > 0 && language_accepted(*language) ==> r is Ok,
        r is Err && r->Err_0 is Unparsable ==> {
            &&& !language_accepted(*language)
            &&& r->Err_0->Unparsable_error == ParseError::IncompatibleLanguage
            &&& exists|i: int|
                0 <= i < files@.len() && files@[i].1 is Some && files@[i].0@
                    == r->Err_0->Unparsable_name@
        },
{
    let mut entries: Vec<SeedEntry> = Vec::new();
    let mut i: usize = 0;
    while i < files.len()
        invariant
            0 <= i <= files@.len(),
            entries@.map_values(|e: SeedEntry| (e.name@, e.bytes@)) == readable_seeds(
                files@.subrange(0, i as int),
            ),
        decreases files@.len() - i,
    {
        proof {
            assert(files@.subrange(0, i + 1).drop_last() =~= files@.subrange(0, i as int));
        }
        let (name, text) = &files[i];
        match text {
            Some(s) => {
                match parse(language, s.as_str()) {
                    Ok(tree) => {
                        let bytes = s.as_str().as_bytes_vec();
                        let root_children = root_child_count(&tree);
                        let ghost before = entries@;
                        entries.push(SeedEntry { name: name.clone(), bytes, tree, root_children });
                        proof {
                            assert(entries@.map_values(|e: SeedEntry| (e.name@, e.bytes@))
                                =~= before.map_values(|e: SeedEntry| (e.name@, e.bytes@)).push(
                                (name@, encode_utf8(s@)),
                            ));
                        }
                    },
                    Err(error) => {
                        proof {
                            lemma_readable_nonempty(files@, i as int);
                        }
                        return Err(CorpusError::Unparsable { name: name.clone(), error });
                    },
                }
            },
            None => {},
        }
        i = i + 1;
    }
    proof {
        assert(files@.subrange(0, files@.len() as int) =~= files@);
    }
    if entries.len() == 0 {
        return Err(CorpusError::Empty);
    }
    let files = splice_map(&entries);
    Ok(SeedCorpus { entries, files })
}

} // verus!
