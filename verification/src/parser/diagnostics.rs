//! What holds of the diagnostics of every parse: each one is a code error
//! at a position, and a parse gives at most one.
use crate::lexer::tokens::{TokenKind, TokenView};
use crate::parser::grammar::{
    arguments, binary, binary_rest, block, block_items, block_statement, call, combine,
    declaration, expression, function_statement, function_tail, identifier,
    identifier_statement, is_operator, kind_at, levels, parameter_list, parameters, primary,
    program, program_items, remaining, top_statement, type_at, unary, Outcome,
};
use crate::parser::statements::{ExpressionView, FuncParamView, StatementView};
use vstd::prelude::*;

verus! {

/// Whether an outcome, where it is a failure, holds a code error with a position.
pub open spec fn fails_in_code<T>(outcome: Outcome<T>) -> bool {
    outcome matches Outcome::Failed { diagnostic } ==> diagnostic.is_code_error()
}

/// An argument list that is not parsed fails with a code error at a position.
pub proof fn lemma_arguments_fail_in_code(
    ts: Seq<TokenView>,
    origin: int,
    j: int,
    seen: Seq<ExpressionView>,
)
    ensures
        fails_in_code(arguments(ts, origin, j, seen)),
    decreases remaining(ts, j), 40nat,
{
    match kind_at(ts, j) {
        TokenKind::RightParen => {},
        TokenKind::Eof => {},
        TokenKind::Comma => lemma_arguments_fail_in_code(ts, origin, j + 1, seen),
        _ => {
            lemma_binary_fails_in_code(ts, j, levels());
            match binary(ts, j, levels()) {
                Outcome::Failed { .. } => {},
                Outcome::Done { value, span } => {
                    let next = j + span + 1;
                    if kind_at(ts, next) == TokenKind::Comma || kind_at(ts, next)
                        == TokenKind::RightParen {
                        lemma_arguments_fail_in_code(ts, origin, next, seen.push(value));
                    }
                },
            }
        },
    }
}

/// An identifier or call that is not parsed fails with a code error at a position.
pub proof fn lemma_identifier_fails_in_code(ts: Seq<TokenView>, i: int)
    ensures
        fails_in_code(identifier(ts, i)),
    decreases remaining(ts, i), 3nat,
{
    if kind_at(ts, i) == TokenKind::Identifier && kind_at(ts, i + 1) == TokenKind::LeftParen {
        lemma_arguments_fail_in_code(ts, i, i + 2, Seq::empty());
    }
}

/// A primary expression that is not parsed fails with a code error at a position.
pub proof fn lemma_primary_fails_in_code(ts: Seq<TokenView>, i: int)
    ensures
        fails_in_code(primary(ts, i)),
    decreases remaining(ts, i), 4nat,
{
    if kind_at(ts, i) == TokenKind::Identifier {
        lemma_identifier_fails_in_code(ts, i);
    }
}

/// A unary expression that is not parsed fails with a code error at a position.
pub proof fn lemma_unary_fails_in_code(ts: Seq<TokenView>, i: int)
    ensures
        fails_in_code(unary(ts, i)),
    decreases remaining(ts, i), 5nat,
{
    match kind_at(ts, i) {
        TokenKind::OpAdd | TokenKind::OpSub | TokenKind::OpNot => lemma_unary_fails_in_code(
            ts,
            i + 1,
        ),
        _ => lemma_primary_fails_in_code(ts, i),
    }
}

/// An expression of any level that is not parsed fails with a code error at a position.
pub proof fn lemma_binary_fails_in_code(ts: Seq<TokenView>, i: int, level: nat)
    ensures
        fails_in_code(binary(ts, i, level)),
    decreases remaining(ts, i), 11 + 2 * level,
{
    if level == 0 {
        lemma_unary_fails_in_code(ts, i);
    } else {
        lemma_binary_fails_in_code(ts, i, (level - 1) as nat);
        match binary(ts, i, (level - 1) as nat) {
            Outcome::Failed { .. } => {},
            Outcome::Done { value, span } => lemma_binary_rest_fails_in_code(
                ts,
                i,
                i + span,
                level,
                value,
            ),
        }
    }
}

/// The rest of an expression that is not parsed fails with a code error at a position.
pub proof fn lemma_binary_rest_fails_in_code(
    ts: Seq<TokenView>,
    origin: int,
    k: int,
    level: nat,
    left: ExpressionView,
)
    ensures
        fails_in_code(binary_rest(ts, origin, k, level, left)),
    decreases remaining(ts, k), 10 + 2 * level,
{
    if level >= 1 && is_operator(level, kind_at(ts, k + 1)) {
        lemma_binary_fails_in_code(ts, k + 2, (level - 1) as nat);
        match binary(ts, k + 2, (level - 1) as nat) {
            Outcome::Failed { .. } => {},
            Outcome::Done { value, span } => lemma_binary_rest_fails_in_code(
                ts,
                origin,
                k + 2 + span,
                level,
                combine(level, ts[k + 1].kind, left, value),
            ),
        }
    }
}

/// An expression that is not parsed fails with a code error at a position.
pub proof fn lemma_expression_fails_in_code(ts: Seq<TokenView>, i: int)
    ensures
        fails_in_code(expression(ts, i)),
        fails_in_code(call(ts, i)),
{
    lemma_binary_fails_in_code(ts, i, levels());
    lemma_arguments_fail_in_code(ts, i, i + 2, Seq::empty());
}

/// A declaration that is not parsed fails with a code error at a position.
pub proof fn lemma_declaration_fails_in_code(ts: Seq<TokenView>, i: int, constant: bool)
    ensures
        fails_in_code(declaration(ts, i, constant)),
{
    lemma_expression_fails_in_code(ts, i + 5);
}

/// A parameter list that is not parsed fails with a code error at a position.
pub proof fn lemma_parameters_fail_in_code(
    ts: Seq<TokenView>,
    origin: int,
    j: int,
    seen: Seq<FuncParamView>,
)
    ensures
        fails_in_code(parameters(ts, origin, j, seen)),
        fails_in_code(parameter_list(ts, j)),
    decreases remaining(ts, j),
{
    if kind_at(ts, j) == TokenKind::Identifier && kind_at(ts, j + 1) == TokenKind::Colon {
        match type_at(ts, j + 2) {
            Some(ty) => {
                if kind_at(ts, j + 3) == TokenKind::Comma {
                    lemma_parameters_fail_in_code(
                        ts,
                        origin,
                        j + 4,
                        seen.push(FuncParamView { name: ts[j].value, ty }),
                    );
                }
            },
            None => {},
        }
    }
    if kind_at(ts, j) == TokenKind::LeftParen && kind_at(ts, j + 1) != TokenKind::RightParen {
        lemma_parameters_fail_in_code(ts, j, j + 1, Seq::empty());
    }
}

/// A statement that begins with an identifier and is not parsed fails with
/// a code error at a position.
pub proof fn lemma_identifier_statement_fails_in_code(ts: Seq<TokenView>, i: int)
    ensures
        fails_in_code(identifier_statement(ts, i)),
    decreases remaining(ts, i),
{
    if kind_at(ts, i) == TokenKind::Identifier {
        if kind_at(ts, i + 1) == TokenKind::ColonColon {
            lemma_identifier_statement_fails_in_code(ts, i + 2);
        } else if kind_at(ts, i + 1) == TokenKind::LeftParen {
            lemma_expression_fails_in_code(ts, i);
        }
    }
}

/// The statements of a block that are not parsed fail with a code error at a position.
pub proof fn lemma_block_items_fail_in_code(
    ts: Seq<TokenView>,
    origin: int,
    j: int,
    seen: Seq<StatementView>,
)
    ensures
        fails_in_code(block_statement(ts, j)),
        fails_in_code(block_items(ts, origin, j, seen)),
    decreases remaining(ts, j),
{
    lemma_declaration_fails_in_code(ts, j, false);
    lemma_declaration_fails_in_code(ts, j, true);
    lemma_identifier_statement_fails_in_code(ts, j);
    match kind_at(ts, j) {
        TokenKind::RightBrace => {},
        TokenKind::Eof => {},
        _ => match block_statement(ts, j) {
            Outcome::Failed { .. } => {},
            Outcome::Done { value, span } => lemma_block_items_fail_in_code(
                ts,
                origin,
                j + span + 1,
                seen.push(value),
            ),
        },
    }
}

/// A block that is not parsed fails with a code error at a position.
pub proof fn lemma_block_fails_in_code(ts: Seq<TokenView>, i: int)
    ensures
        fails_in_code(block(ts, i)),
{
    lemma_block_items_fail_in_code(ts, i, i + 1, Seq::empty());
}

/// A top-level statement that is not parsed fails with a code error at a position.
pub proof fn lemma_top_statement_fails_in_code(ts: Seq<TokenView>, j: int)
    ensures
        fails_in_code(top_statement(ts, j)),
{
    lemma_declaration_fails_in_code(ts, j, false);
    lemma_declaration_fails_in_code(ts, j, true);
    lemma_parameters_fail_in_code(ts, j + 2, j + 2, Seq::empty());
    match parameter_list(ts, j + 2) {
        Outcome::Failed { .. } => {},
        Outcome::Done { value, span } => {
            let close = j + 2 + span;
            lemma_block_fails_in_code(ts, close + 3);
            assert(fails_in_code(function_tail(ts, j, close, value)));
        },
    }
    assert(fails_in_code(function_statement(ts, j)));
}

/// A parse stops at its first diagnostic: it gives none or one, a code
/// error at a position, and the statements parsed before it stay.
pub proof fn lemma_program_stops_at_first_error(
    ts: Seq<TokenView>,
    j: int,
    seen: Seq<StatementView>,
)
    ensures
        program_items(ts, j, seen).diagnostics.len() <= 1,
        forall|k: int|
            0 <= k < program_items(ts, j, seen).diagnostics.len() ==> (
            #[trigger] program_items(ts, j, seen).diagnostics[k]).is_code_error(),
        seen.len() <= program_items(ts, j, seen).body.len(),
        program_items(ts, j, seen).body.subrange(0, seen.len() as int) == seen,
    decreases remaining(ts, j),
{
    if kind_at(ts, j) == TokenKind::Eof {
        assert(seen.subrange(0, seen.len() as int) =~= seen);
    } else {
        lemma_top_statement_fails_in_code(ts, j);
        match top_statement(ts, j) {
            Outcome::Failed { .. } => {
                assert(seen.subrange(0, seen.len() as int) =~= seen);
            },
            Outcome::Done { value, span } => {
                let all = seen.push(value);
                lemma_program_stops_at_first_error(ts, j + span + 1, all);
                let found = program_items(ts, j + span + 1, all).body;
                assert(found.subrange(0, seen.len() as int) =~= found.subrange(
                    0,
                    all.len() as int,
                ).subrange(0, seen.len() as int));
                assert(all.subrange(0, seen.len() as int) =~= seen);
            },
        }
    }
}

/// The parse of any token sequence gives at most one diagnostic, and it
/// is a code error at a position.
pub proof fn lemma_parse_diagnostics(ts: Seq<TokenView>)
    ensures
        program(ts).diagnostics.len() <= 1,
        program(ts).diagnostics.len() == 1 ==> program(ts).diagnostics[0].is_code_error(),
{
    lemma_program_stops_at_first_error(ts, 0, Seq::empty());
}

} // verus!
