use crate::handling::{message_views, Message, MessageKind, MessageView};
use crate::lexer::{scanned, Lexer};
use crate::parser::grammar::{program, program_root};
use crate::parser::statements::{statements_model, Statement, StatementView};
use crate::parser::Parser;
use crate::state::{host_error, State};
use vstd::prelude::*;
use vstd::string::StringExecFns;

verus! {

/// Compiles the input files of a state, one source text at a time, and
/// gathers the diagnostics.
pub struct Compiler {
    pub state: State,
    pub output: Vec<Message>,
}

/// What compiling one source text gives.
pub ghost enum Compiled {
    /// The program's tree: the text has no diagnostic.
    Tree(StatementView),
    /// The diagnostics that stop the batch.
    Stopped(Seq<MessageView>),
}

/// What compiling `src` gives: where the scan has diagnostics, they stop the
/// batch and the text is not parsed; where the parse has one, it stops the
/// batch; else the tree.
pub open spec fn compiled(src: Seq<char>) -> Compiled {
    let scan = scanned(src);
    let parse = program(scan.tokens);
    if scan.diagnostics.len() != 0 {
        Compiled::Stopped(scan.diagnostics)
    } else if parse.diagnostics.len() != 0 {
        Compiled::Stopped(parse.diagnostics)
    } else {
        Compiled::Tree(program_root(parse.body))
    }
}

/// The error for a file that could not be read:
/// "Error reading file '<file>': <error>".
pub open spec fn reading_error(file: Seq<char>, error: Seq<char>) -> MessageView {
    host_error("Error reading file '"@ + file + "': "@ + error)
}

/// What reading one input file gave: its content, or the text of the
/// error that kept it from being read.
#[derive(Debug, PartialEq)]
pub enum Source {
    Content { file: String, content: String },
    Unreadable { file: String, error: String },
}

/// A source with its texts as sequences of characters.
pub ghost enum SourceView {
    Content { file: Seq<char>, content: Seq<char> },
    Unreadable { file: Seq<char>, error: Seq<char> },
}

impl View for Source {
    type V = SourceView;

    open spec fn view(&self) -> SourceView {
        match self {
            Source::Content { file, content } => SourceView::Content {
                file: file@,
                content: content@,
            },
            Source::Unreadable { file, error } => SourceView::Unreadable {
                file: file@,
                error: error@,
            },
        }
    }
}

/// The views of a sequence of sources, in order.
pub open spec fn source_views(sources: Seq<Source>) -> Seq<SourceView> {
    sources.map_values(|s: Source| s@)
}

/// What compiling a batch gives: the trees of the files compiled, in
/// order, and the diagnostics.
pub ghost struct Batch {
    pub trees: Seq<StatementView>,
    pub diagnostics: Seq<MessageView>,
}

/// The batch of the sources from `i` on, after `seen`. A file that could not
/// be read adds its error and is skipped. A file without a diagnostic adds
/// its tree. The first file with diagnostics adds them and ends the batch:
/// the files after it are not compiled.
pub open spec fn batch(sources: Seq<SourceView>, i: int, seen: Batch) -> Batch
    decreases sources.len() - i,
{
    if i < 0 || i >= sources.len() {
        seen
    } else {
        match sources[i] {
            SourceView::Unreadable { file, error } => batch(
                sources,
                i + 1,
                Batch {
                    trees: seen.trees,
                    diagnostics: seen.diagnostics.push(reading_error(file, error)),
                },
            ),
            SourceView::Content { content, .. } => match compiled(content) {
                Compiled::Tree(root) => batch(
                    sources,
                    i + 1,
                    Batch { trees: seen.trees.push(root), diagnostics: seen.diagnostics },
                ),
                Compiled::Stopped(diagnostics) => Batch {
                    trees: seen.trees,
                    diagnostics: seen.diagnostics + diagnostics,
                },
            },
        }
    }
}

impl Compiler {
    pub fn new(state: State) -> (compiler: Self)
        ensures
            compiler.state == state,
            compiler.output@.len() == 0,
    {
        Compiler { state, output: Vec::new() }
    }

    /// Compiles the sources in order, as `batch` says: the trees of the
    /// files compiled are returned, the diagnostics are gathered.
    pub fn compile(&mut self, sources: Vec<Source>) -> (trees: Vec<Statement>)
        ensures
            final(self).state == old(self).state,
            ({
                let all = batch(
                    source_views(sources@),
                    0,
                    Batch { trees: Seq::empty(), diagnostics: message_views(old(self).output@) },
                );
                &&& statements_model(trees) == all.trees
                &&& message_views(final(self).output@) == all.diagnostics
            }),
    {
        let mut trees: Vec<Statement> = Vec::new();
        let mut i: usize = 0;
        assert(statements_model(trees) =~= Seq::empty());
        while i < sources.len()
            invariant_except_break
                batch(
                    source_views(sources@),
                    i as int,
                    Batch {
                        trees: statements_model(trees),
                        diagnostics: message_views(self.output@),
                    },
                ) == batch(
                    source_views(sources@),
                    0,
                    Batch { trees: Seq::empty(), diagnostics: message_views(old(self).output@) },
                ),
            invariant
                i <= sources.len(),
                self.state == old(self).state,
            ensures
                (Batch { trees: statements_model(trees), diagnostics: message_views(self.output@) })
                    == batch(
                    source_views(sources@),
                    0,
                    Batch { trees: Seq::empty(), diagnostics: message_views(old(self).output@) },
                ),
            decreases sources.len() - i,
        {
            assert(source_views(sources@)[i as int] == sources@[i as int]@);
            match &sources[i] {
                Source::Unreadable { file, error } => {
                    self.reading_failed(file.as_str(), error.as_str());
                },
                Source::Content { content, .. } => {
                    match self.compile_source(content.clone()) {
                        Some(tree) => {
                            let ghost before = trees;
                            trees.push(tree);
                            assert(statements_model(trees) =~= statements_model(before).push(
                                tree@,
                            ));
                        },
                        None => {
                            break ;
                        },
                    }
                },
            }
            i = i + 1;
        }
        trees
    }

    /// Records that `file` could not be read, with the error's text. The
    /// batch goes on with the next file.
    pub fn reading_failed(&mut self, file: &str, error: &str)
        ensures
            final(self).state == old(self).state,
            message_views(final(self).output@) == message_views(old(self).output@).push(
                reading_error(file@, error@),
            ),
    {
        let mut text = String::from_str("Error reading file '");
        text.append(file);
        text.append("': ");
        text.append(error);
        let message = Message::new(MessageKind::Error, text, None);
        self.output.push(message);
        assert(message_views(self.output@) =~= message_views(old(self).output@).push(message@));
    }

    /// Compiles one source text. With no diagnostic the tree is returned and
    /// the batch goes on. Else the diagnostics are gathered, nothing is
    /// returned, and the batch stops.
    pub fn compile_source(&mut self, content: String) -> (tree: Option<Statement>)
        ensures
            final(self).state == old(self).state,
            match compiled(content@) {
                Compiled::Tree(root) => tree matches Some(t) && t@ == root && final(self).output
                    == old(self).output,
                Compiled::Stopped(diagnostics) => tree is None && message_views(
                    final(self).output@,
                ) == message_views(old(self).output@) + diagnostics,
            },
    {
        let mut lexer: Lexer = Lexer::new(content);
        lexer.lex();
        assert(message_views(lexer.output@) =~= scanned(content@).diagnostics);
        assert(crate::lexer::tokens::token_views(lexer.tokens@) =~= scanned(content@).tokens);
        if lexer.output.len() != 0 {
            self.collect_messages(lexer.output);
            return None;
        }
        proof {
            crate::lexer::lemma_scanned_shape(content@);
        }
        let mut parser: Parser = Parser::new(lexer.tokens);
        parser.parse();
        assert(message_views(parser.output@) =~= program(scanned(content@).tokens).diagnostics);
        if parser.output.len() != 0 {
            self.collect_messages(parser.output);
            return None;
        }
        Some(parser.ast)
    }

    /// Adds diagnostics to the compiler's own.
    pub fn collect_messages(&mut self, input: Vec<Message>)
        ensures
            final(self).state == old(self).state,
            message_views(final(self).output@) == message_views(old(self).output@) + message_views(
                input@,
            ),
    {
        let mut input = input;
        let ghost added = input@;
        self.output.append(&mut input);
        assert(message_views(self.output@) =~= message_views(old(self).output@) + message_views(
            added,
        ));
    }
}

} // verus!
