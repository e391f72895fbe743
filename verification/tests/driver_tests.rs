use rudin::compiler::{Compiler, Source};
use rudin::evaluator::{Evaluation, Evaluator};
use rudin::handling::MessageKind;
use rudin::internals::types::Types;
use rudin::internals::Position;
use rudin::lexer::tokens::TokenKind;
use rudin::parser::statements::{Expression, Statement};
use rudin::state::{CompilerFlags, State};

fn args(list: &[&str]) -> Vec<String> {
    list.iter().map(|s| s.to_string()).collect()
}

#[test]
fn new_state_asks_for_nothing() {
    let state = State::new();
    assert!(state.flags.is_empty());
    assert_eq!(state.output_file, "");
    assert!(state.input_files.is_empty());
    assert!(!state.show_help);
    assert!(!state.show_version);
    assert!(state.output.is_empty());
}

#[test]
fn no_arguments_ask_for_help() {
    let mut state = State::new();
    state.parse_args(vec![]);
    assert!(state.show_help);
    assert!(state.output.is_empty());
}

#[test]
fn help_and_version_flags() {
    for flag in ["-h", "--help"] {
        let mut state = State::new();
        state.parse_args(args(&[flag]));
        assert!(state.show_help && !state.show_version);
    }
    for flag in ["-v", "--version"] {
        let mut state = State::new();
        state.parse_args(args(&[flag]));
        assert!(state.show_version && !state.show_help);
    }
}

#[test]
fn output_takes_the_next_argument() {
    let mut state = State::new();
    state.parse_args(args(&["a.rd", "-o", "out", "b.rd", "--output", "-h"]));
    assert_eq!(state.input_files, vec!["a.rd", "b.rd"]);
    assert_eq!(state.output_file, "-h");
    assert!(!state.show_help);
    assert!(state.output.is_empty());
}

#[test]
fn output_without_a_file_is_an_error() {
    let mut state = State::new();
    state.parse_args(args(&["a.rd", "-o"]));
    assert_eq!(state.input_files, vec!["a.rd"]);
    assert_eq!(state.output.len(), 1);
    assert_eq!(state.output[0].kind, MessageKind::Error);
    assert_eq!(state.output[0].message, "Missing output file");
    assert_eq!(state.output[0].position, None);
}

#[test]
fn debug_flag_is_known() {
    let mut state = State::new();
    state.parse_args(args(&["-cdbg", "a.rd"]));
    assert_eq!(state.flags, vec![CompilerFlags::CompilerDebug]);
    assert_eq!(state.input_files, vec!["a.rd"]);
    assert!(state.output.is_empty());
}

#[test]
fn unknown_flag_stops_the_reading() {
    let mut state = State::new();
    state.parse_args(args(&["a.rd", "-x", "b.rd", "-h"]));
    assert_eq!(state.input_files, vec!["a.rd"]);
    assert!(!state.show_help);
    assert_eq!(state.output.len(), 1);
    assert_eq!(state.output[0].kind, MessageKind::Error);
    assert_eq!(state.output[0].message, "Unknown flag: -x");
    assert_eq!(state.output[0].position, None);
}

#[test]
fn set_flag_alone() {
    let mut state = State::new();
    assert!(state.set_flag("-cdbg".to_string()).is_none());
    assert_eq!(state.flags, vec![CompilerFlags::CompilerDebug]);
    let error = state.set_flag("--nope".to_string()).unwrap();
    assert_eq!(error.message, "Unknown flag: --nope");
    assert_eq!(state.flags, vec![CompilerFlags::CompilerDebug]);
    assert!(state.output.is_empty());
}

#[test]
fn compiler_returns_the_tree_of_a_clean_source() {
    let mut compiler = Compiler::new(State::new());
    assert!(compiler.output.is_empty());
    let tree = compiler.compile_source("var x: int = 5;".to_string());
    assert!(compiler.output.is_empty());
    assert_eq!(
        tree,
        Some(Statement::Program {
            start: Position::new(0, 0),
            body: Box::new(vec![Statement::VariableDeclaration {
                start: Position::new(0, 0),
                name: "x".to_string(),
                ty: Types::Int,
                value: Some(Expression::Literal { ty: TokenKind::Number, value: "5".to_string() }),
            }]),
        })
    );
}

#[test]
fn compiler_does_not_parse_after_scan_diagnostics() {
    let mut compiler = Compiler::new(State::new());
    let tree = compiler.compile_source("var ; $ @".to_string());
    assert_eq!(tree, None);
    assert_eq!(compiler.output.len(), 2);
    assert_eq!(compiler.output[0].message, "$ -> Undefined symbol");
    assert_eq!(compiler.output[1].message, "@ -> Undefined symbol");
}

#[test]
fn compiler_gathers_the_parse_diagnostic() {
    let mut compiler = Compiler::new(State::new());
    let tree = compiler.compile_source("var ;".to_string());
    assert_eq!(tree, None);
    assert_eq!(compiler.output.len(), 1);
    assert_eq!(compiler.output[0].message, "Expected an identifier but found ;");
}

#[test]
fn unreadable_file_is_a_host_error() {
    let mut compiler = Compiler::new(State::new());
    compiler.reading_failed("a.rd", "No such file or directory (os error 2)");
    assert_eq!(compiler.output.len(), 1);
    assert_eq!(compiler.output[0].kind, MessageKind::Error);
    assert_eq!(
        compiler.output[0].message,
        "Error reading file 'a.rd': No such file or directory (os error 2)"
    );
    assert_eq!(compiler.output[0].position, None);
    let tree = compiler.compile_source("var x: int;".to_string());
    assert!(tree.is_some());
    assert_eq!(compiler.output.len(), 1);
}

#[test]
fn collected_messages_keep_their_order() {
    let mut compiler = Compiler::new(State::new());
    compiler.reading_failed("a", "first");
    let mut other = Compiler::new(State::new());
    other.reading_failed("b", "second");
    other.reading_failed("c", "third");
    compiler.collect_messages(other.output);
    let texts: Vec<&str> = compiler.output.iter().map(|m| m.message.as_str()).collect();
    assert_eq!(
        texts,
        vec![
            "Error reading file 'a': first",
            "Error reading file 'b': second",
            "Error reading file 'c': third"
        ]
    );
}

fn tree_of(source: &str) -> Statement {
    let mut compiler = Compiler::new(State::new());
    compiler.compile_source(source.to_string()).unwrap()
}

#[test]
fn evaluator_steps_through_declarations() {
    let mut evaluator =
        Evaluator::new(tree_of("var a: int; func f() -> int; const c: int = 1; var b: int;"));
    assert!(evaluator.is_supported());
    let steps = evaluator.evaluate();
    assert_eq!(
        steps,
        vec![
            Evaluation::Variable(0),
            Evaluation::Function(1),
            Evaluation::Constant(2),
            Evaluation::Variable(3)
        ]
    );
    assert!(evaluator.output.is_empty());
}

#[test]
fn evaluator_rejects_a_tree_that_is_no_program() {
    let mut evaluator = Evaluator::new(Statement::Break { start: Position::new(0, 0) });
    assert!(evaluator.is_supported());
    let steps = evaluator.evaluate();
    assert!(steps.is_empty());
    assert_eq!(evaluator.output.len(), 1);
    assert_eq!(evaluator.output[0].kind, MessageKind::Error);
    assert_eq!(evaluator.output[0].message, "Invalid AST");
    assert_eq!(evaluator.output[0].position, None);
}

#[test]
fn evaluator_stops_at_a_statement_that_is_no_declaration() {
    let tree = Statement::Program {
        start: Position::new(0, 0),
        body: Box::new(vec![
            Statement::VariableDeclaration {
                start: Position::new(0, 0),
                name: "a".to_string(),
                ty: Types::Int,
                value: None,
            },
            Statement::Break { start: Position::new(1, 0) },
            Statement::VariableDeclaration {
                start: Position::new(2, 0),
                name: "b".to_string(),
                ty: Types::Int,
                value: None,
            },
        ]),
    };
    let mut evaluator = Evaluator::new(tree);
    assert!(evaluator.is_supported());
    let steps = evaluator.evaluate();
    assert_eq!(steps, vec![Evaluation::Variable(0)]);
    assert_eq!(evaluator.output.len(), 1);
    assert_eq!(evaluator.output[0].message, "Invalid AST");
}

#[test]
fn variable_alteration_is_not_supported() {
    let alteration = Statement::VariableAlteration {
        start: Position::new(1, 0),
        name: "a".to_string(),
        operator: TokenKind::OpAddAssign,
        value: Expression::Identifier("b".to_string()),
    };
    let tree = Statement::Program { start: Position::new(0, 0), body: Box::new(vec![alteration]) };
    assert!(!Evaluator::new(tree).is_supported());
    let unreached = Statement::Program {
        start: Position::new(0, 0),
        body: Box::new(vec![
            Statement::Continue { start: Position::new(0, 0) },
            Statement::VariableAlteration {
                start: Position::new(1, 0),
                name: "a".to_string(),
                operator: TokenKind::OpAssign,
                value: Expression::Identifier("b".to_string()),
            },
        ]),
    };
    assert!(Evaluator::new(unreached).is_supported());
}

fn content(file: &str, content: &str) -> Source {
    Source::Content { file: file.to_string(), content: content.to_string() }
}

fn unreadable(file: &str, error: &str) -> Source {
    Source::Unreadable { file: file.to_string(), error: error.to_string() }
}

#[test]
fn batch_compiles_every_clean_file() {
    let mut compiler = Compiler::new(State::new());
    let trees = compiler.compile(vec![
        content("a.rd", "var a: int;"),
        content("b.rd", ""),
        content("c.rd", "func f() -> void;"),
    ]);
    assert_eq!(trees.len(), 3);
    assert!(compiler.output.is_empty());
    assert_eq!(trees[1], Statement::Program { start: Position::new(0, 0), body: Box::new(vec![]) });
}

#[test]
fn batch_skips_an_unreadable_file_and_goes_on() {
    let mut compiler = Compiler::new(State::new());
    let trees = compiler.compile(vec![
        unreadable("a.rd", "denied"),
        content("b.rd", "var b: int;"),
        unreadable("c.rd", "missing"),
    ]);
    assert_eq!(trees.len(), 1);
    let texts: Vec<&str> = compiler.output.iter().map(|m| m.message.as_str()).collect();
    assert_eq!(
        texts,
        vec!["Error reading file 'a.rd': denied", "Error reading file 'c.rd': missing"]
    );
}

#[test]
fn batch_stops_at_the_first_file_with_diagnostics() {
    let mut compiler = Compiler::new(State::new());
    let trees = compiler.compile(vec![
        content("a.rd", "var a: int;"),
        content("b.rd", "var ;"),
        content("c.rd", "var c: int;"),
        unreadable("d.rd", "missing"),
    ]);
    assert_eq!(trees.len(), 1);
    assert_eq!(compiler.output.len(), 1);
    assert_eq!(compiler.output[0].message, "Expected an identifier but found ;");
}

#[test]
fn batch_keeps_the_diagnostics_it_had() {
    let mut compiler = Compiler::new(State::new());
    compiler.reading_failed("z", "first");
    let trees = compiler.compile(vec![content("a.rd", "$")]);
    assert!(trees.is_empty());
    assert_eq!(compiler.output.len(), 2);
    assert_eq!(compiler.output[1].message, "$ -> Undefined symbol");
}
