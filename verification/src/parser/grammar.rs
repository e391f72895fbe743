//! The grammar, as functions from a token sequence and the index of the
//! current token to what is parsed there.
//!
//! A construct begins at the current token. Where it is parsed, the outcome
//! says what it is and how many tokens follow its first one (its span), so
//! that it ends at the token `span` places after its first. Where it is not,
//! the outcome is the one diagnostic that says why.
use crate::handling::MessageView;
use crate::internals::types::TypesView;
use crate::internals::Position;
use crate::lexer::tokens::{TokenKind, TokenView};
use crate::parser::statements::{ExpressionView, FuncParamView, StatementView};
use vstd::prelude::*;

verus! {

/// What parsing one construct gives.
pub ghost enum Outcome<T> {
    /// The construct, and the number of tokens that follow its first one.
    Done { value: T, span: nat },
    /// The diagnostic that ended the parse.
    Failed { diagnostic: MessageView },
}

/// The kind of the token at `i`; past the last token every kind is `Eof`.
pub open spec fn kind_at(ts: Seq<TokenView>, i: int) -> TokenKind {
    if 0 <= i < ts.len() {
        ts[i].kind
    } else {
        TokenKind::Eof
    }
}

/// The number of tokens from `i` to the end of the sequence.
pub open spec fn remaining(ts: Seq<TokenView>, i: int) -> nat {
    if i < ts.len() {
        (ts.len() - i) as nat
    } else {
        0
    }
}

/// The type that the token at `i` names, if it names one: a built-in type by
/// its keyword, a custom type by an identifier.
pub open spec fn type_at(ts: Seq<TokenView>, i: int) -> Option<TypesView> {
    match kind_at(ts, i) {
        TokenKind::TyInt => Some(TypesView::Int),
        TokenKind::TyFloat => Some(TypesView::Float),
        TokenKind::TyDouble => Some(TypesView::Double),
        TokenKind::TyBool => Some(TypesView::Bool),
        TokenKind::TyChar => Some(TypesView::Char),
        TokenKind::TyString => Some(TypesView::String),
        TokenKind::TyVoid => Some(TypesView::Void),
        TokenKind::Identifier => Some(TypesView::Custom(ts[i].value)),
        _ => None,
    }
}

/// A type that a token names holds no function type, so it names no entry twice.
pub proof fn lemma_type_at_names_distinct(ts: Seq<TokenView>, i: int)
    ensures
        type_at(ts, i) matches Some(ty) ==> ty.names_distinct(),
{
}

/// The number of binary operator levels. Level 1 binds tightest.
pub open spec fn levels() -> nat {
    6
}

/// The level of a binary operator, 0 for any other kind: 1 is `* / %`,
/// 2 is `+ -`, 3 is `< <= > >=`, 4 is `== !=`, 5 is `&&`, 6 is `||`.
pub open spec fn operator_level(kind: TokenKind) -> nat {
    match kind {
        TokenKind::OpMul | TokenKind::OpDiv | TokenKind::OpMod => 1,
        TokenKind::OpAdd | TokenKind::OpSub => 2,
        TokenKind::OpLt | TokenKind::OpLe | TokenKind::OpGt | TokenKind::OpGe => 3,
        TokenKind::OpEq | TokenKind::OpNeq => 4,
        TokenKind::OpAnd => 5,
        TokenKind::OpOr => 6,
        _ => 0,
    }
}

/// Whether `kind` is a binary operator of the given level.
pub open spec fn is_operator(level: nat, kind: TokenKind) -> bool {
    level >= 1 && operator_level(kind) == level
}

/// The node for `left operator right` at the given level: arithmetic levels
/// make a `Binary` node, the others a `Logical` one.
pub open spec fn combine(
    level: nat,
    operator: TokenKind,
    left: ExpressionView,
    right: ExpressionView,
) -> ExpressionView {
    if level <= 2 {
        ExpressionView::Binary { operator, left: Box::new(left), right: Box::new(right) }
    } else {
        ExpressionView::Logical { operator, left: Box::new(left), right: Box::new(right) }
    }
}

/// The call node for a name and its parsed arguments: no arguments is `None`.
pub open spec fn finish_call(
    name: Seq<char>,
    arguments: Outcome<Seq<ExpressionView>>,
) -> Outcome<ExpressionView> {
    match arguments {
        Outcome::Failed { diagnostic } => Outcome::Failed { diagnostic },
        Outcome::Done { value, span } => Outcome::Done {
            value: ExpressionView::Call {
                name,
                arguments: if value.len() == 0 {
                    None
                } else {
                    Some(value)
                },
            },
            span,
        },
    }
}

/// The rest of an argument list whose call began at `origin`, with `j` the
/// current token and `seen` the arguments so far. The list ends at `)`;
/// commas separate, and stray commas are passed over.
pub open spec fn arguments(
    ts: Seq<TokenView>,
    origin: int,
    j: int,
    seen: Seq<ExpressionView>,
) -> Outcome<Seq<ExpressionView>>
    decreases remaining(ts, j), 40nat,
{
    match kind_at(ts, j) {
        TokenKind::RightParen => Outcome::Done { value: seen, span: (j - origin) as nat },
        TokenKind::Eof => Outcome::Failed { diagnostic: MessageView::expected("')'"@, ts[j]) },
        TokenKind::Comma => arguments(ts, origin, j + 1, seen),
        _ => match binary(ts, j, levels()) {
            Outcome::Failed { diagnostic } => Outcome::Failed { diagnostic },
            Outcome::Done { value, span } => {
                let next = j + span + 1;
                if kind_at(ts, next) == TokenKind::Comma || kind_at(ts, next)
                    == TokenKind::RightParen {
                    arguments(ts, origin, next, seen.push(value))
                } else {
                    Outcome::Failed { diagnostic: MessageView::expected("',' or ')'"@, ts[next]) }
                }
            },
        },
    }
}

/// An identifier: a call if `(` follows it, else the bare name.
pub open spec fn identifier(ts: Seq<TokenView>, i: int) -> Outcome<ExpressionView>
    decreases remaining(ts, i), 3nat,
{
    if kind_at(ts, i) == TokenKind::Identifier {
        if kind_at(ts, i + 1) == TokenKind::LeftParen {
            finish_call(ts[i].value, arguments(ts, i, i + 2, Seq::empty()))
        } else {
            Outcome::Done { value: ExpressionView::Identifier(ts[i].value), span: 0 }
        }
    } else {
        Outcome::Failed { diagnostic: MessageView::expected("identifier"@, ts[i]) }
    }
}

/// A primary expression: an identifier or call, or a literal.
pub open spec fn primary(ts: Seq<TokenView>, i: int) -> Outcome<ExpressionView>
    decreases remaining(ts, i), 4nat,
{
    match kind_at(ts, i) {
        TokenKind::Identifier => identifier(ts, i),
        TokenKind::Number => Outcome::Done {
            value: ExpressionView::Literal { ty: TokenKind::Number, value: ts[i].value },
            span: 0,
        },
        TokenKind::CharLiteral => Outcome::Done {
            value: ExpressionView::Literal { ty: TokenKind::CharLiteral, value: ts[i].value },
            span: 0,
        },
        TokenKind::StringLiteral => Outcome::Done {
            value: ExpressionView::Literal { ty: TokenKind::StringLiteral, value: ts[i].value },
            span: 0,
        },
        TokenKind::True | TokenKind::False => Outcome::Done {
            value: ExpressionView::Literal { ty: TokenKind::TyBool, value: ts[i].value },
            span: 0,
        },
        TokenKind::Eof => Outcome::Failed {
            diagnostic: MessageView::expected("end of expression"@, ts[i]),
        },
        _ => Outcome::Failed { diagnostic: MessageView::expected("an expression"@, ts[i]) },
    }
}

/// The outcome of an operand with one more token in front of it.
pub open spec fn prefixed(
    operator: Option<TokenKind>,
    operand: Outcome<ExpressionView>,
) -> Outcome<ExpressionView> {
    match operand {
        Outcome::Failed { diagnostic } => Outcome::Failed { diagnostic },
        Outcome::Done { value, span } => Outcome::Done {
            value: match operator {
                None => value,
                Some(operator) => ExpressionView::Unary { operator, operand: Box::new(value) },
            },
            span: span + 1,
        },
    }
}

/// A unary expression: a prefix `+` is dropped, a prefix `-` or `!` makes a
/// `Unary` node, anything else is a primary expression.
pub open spec fn unary(ts: Seq<TokenView>, i: int) -> Outcome<ExpressionView>
    decreases remaining(ts, i), 5nat,
{
    match kind_at(ts, i) {
        TokenKind::OpAdd => prefixed(None, unary(ts, i + 1)),
        TokenKind::OpSub => prefixed(Some(TokenKind::OpSub), unary(ts, i + 1)),
        TokenKind::OpNot => prefixed(Some(TokenKind::OpNot), unary(ts, i + 1)),
        _ => primary(ts, i),
    }
}

/// An expression of the given level that begins at `i`: one operand of the
/// next tighter level, then operators of this level with their right
/// operands, folded to the left. Level 0 is a unary expression.
pub open spec fn binary(ts: Seq<TokenView>, i: int, level: nat) -> Outcome<ExpressionView>
    decreases remaining(ts, i), 11 + 2 * level,
{
    if level == 0 {
        unary(ts, i)
    } else {
        match binary(ts, i, (level - 1) as nat) {
            Outcome::Failed { diagnostic } => Outcome::Failed { diagnostic },
            Outcome::Done { value, span } => binary_rest(ts, i, i + span, level, value),
        }
    }
}

/// The rest of an expression of the given level that began at `origin`,
/// with `left` parsed so far and ending at `k`.
pub open spec fn binary_rest(
    ts: Seq<TokenView>,
    origin: int,
    k: int,
    level: nat,
    left: ExpressionView,
) -> Outcome<ExpressionView>
    decreases remaining(ts, k), 10 + 2 * level,
{
    if level >= 1 && is_operator(level, kind_at(ts, k + 1)) {
        match binary(ts, k + 2, (level - 1) as nat) {
            Outcome::Failed { diagnostic } => Outcome::Failed { diagnostic },
            Outcome::Done { value, span } => binary_rest(
                ts,
                origin,
                k + 2 + span,
                level,
                combine(level, ts[k + 1].kind, left, value),
            ),
        }
    } else {
        Outcome::Done { value: left, span: (k - origin) as nat }
    }
}

/// An expression: the loosest level.
pub open spec fn expression(ts: Seq<TokenView>, i: int) -> Outcome<ExpressionView> {
    binary(ts, i, levels())
}

/// A call `name ( arguments )` that begins at `i`.
pub open spec fn call(ts: Seq<TokenView>, i: int) -> Outcome<ExpressionView> {
    finish_call(ts[i].value, arguments(ts, i, i + 2, Seq::empty()))
}

/// The declaration that the tokens from `i` on spell, after its keyword:
/// `name : type`, then `= expression ;`, or, for a variable, `;` alone.
/// The keyword is at `i`.
pub open spec fn declaration(
    ts: Seq<TokenView>,
    i: int,
    constant: bool,
) -> Outcome<StatementView> {
    let start = ts[i].position;
    let name = ts[i + 1].value;
    if kind_at(ts, i + 1) != TokenKind::Identifier {
        Outcome::Failed { diagnostic: MessageView::expected("an identifier"@, ts[i + 1]) }
    } else if kind_at(ts, i + 2) != TokenKind::Colon {
        Outcome::Failed { diagnostic: MessageView::expected("a colon"@, ts[i + 2]) }
    } else {
        match type_at(ts, i + 3) {
            None => Outcome::Failed { diagnostic: MessageView::expected("a type"@, ts[i + 3]) },
            Some(ty) => {
                if kind_at(ts, i + 4) == TokenKind::OpAssign {
                    match expression(ts, i + 5) {
                        Outcome::Failed { diagnostic } => Outcome::Failed { diagnostic },
                        Outcome::Done { value, span } => {
                            if kind_at(ts, i + 6 + span) != TokenKind::Semicolon {
                                Outcome::Failed {
                                    diagnostic: MessageView::expected(
                                        "end of statement"@,
                                        ts[i + 6 + span],
                                    ),
                                }
                            } else if constant {
                                Outcome::Done {
                                    value: StatementView::ConstantDeclaration {
                                        start,
                                        name,
                                        ty,
                                        value,
                                    },
                                    span: 6 + span,
                                }
                            } else {
                                Outcome::Done {
                                    value: StatementView::VariableDeclaration {
                                        start,
                                        name,
                                        ty,
                                        value: Some(value),
                                    },
                                    span: 6 + span,
                                }
                            }
                        },
                    }
                } else if !constant && kind_at(ts, i + 4) == TokenKind::Semicolon {
                    Outcome::Done {
                        value: StatementView::VariableDeclaration { start, name, ty, value: None },
                        span: 4,
                    }
                } else {
                    Outcome::Failed {
                        diagnostic: MessageView::expected(
                            "assignment operator or end of statement"@,
                            ts[i + 4],
                        ),
                    }
                }
            },
        }
    }
}

/// A variable declaration `var name : type ;` or `var name : type = expression ;`
/// whose `var` is at `i`.
pub open spec fn var_statement(ts: Seq<TokenView>, i: int) -> Outcome<StatementView> {
    declaration(ts, i, false)
}

/// A constant declaration `const name : type = expression ;` whose `const` is at `i`.
pub open spec fn const_statement(ts: Seq<TokenView>, i: int) -> Outcome<StatementView> {
    declaration(ts, i, true)
}

/// The rest of a parameter list that began at `origin`, with `j` the name of
/// the current parameter and `seen` the parameters so far. Each parameter is
/// `name : type`; a comma leads to the next one and `)` ends the list.
pub open spec fn parameters(
    ts: Seq<TokenView>,
    origin: int,
    j: int,
    seen: Seq<FuncParamView>,
) -> Outcome<Seq<FuncParamView>>
    decreases remaining(ts, j),
{
    if kind_at(ts, j) != TokenKind::Identifier {
        Outcome::Failed { diagnostic: MessageView::expected("Identifier"@, ts[j]) }
    } else if kind_at(ts, j + 1) != TokenKind::Colon {
        Outcome::Failed { diagnostic: MessageView::expected("':'"@, ts[j + 1]) }
    } else {
        match type_at(ts, j + 2) {
            None => Outcome::Failed { diagnostic: MessageView::expected("a type"@, ts[j + 2]) },
            Some(ty) => {
                let all = seen.push(FuncParamView { name: ts[j].value, ty });
                if kind_at(ts, j + 3) == TokenKind::RightParen {
                    Outcome::Done { value: all, span: (j + 3 - origin) as nat }
                } else if kind_at(ts, j + 3) == TokenKind::Comma {
                    parameters(ts, origin, j + 4, all)
                } else {
                    Outcome::Failed { diagnostic: MessageView::expected("',' or ')'"@, ts[j + 3]) }
                }
            },
        }
    }
}

/// A parameter list `( name : type , ... )` whose `(` is at `i`.
pub open spec fn parameter_list(ts: Seq<TokenView>, i: int) -> Outcome<Seq<FuncParamView>> {
    if kind_at(ts, i) != TokenKind::LeftParen {
        Outcome::Failed { diagnostic: MessageView::expected("'('"@, ts[i]) }
    } else if kind_at(ts, i + 1) == TokenKind::RightParen {
        Outcome::Done { value: Seq::empty(), span: 1 }
    } else {
        parameters(ts, i, i + 1, Seq::empty())
    }
}

/// A statement that begins with an identifier at `i`: a call followed by `;`,
/// or `name ::` followed by another such statement.
pub open spec fn identifier_statement(ts: Seq<TokenView>, i: int) -> Outcome<StatementView>
    decreases remaining(ts, i),
{
    if kind_at(ts, i) != TokenKind::Identifier {
        Outcome::Failed { diagnostic: MessageView::expected("an identifier"@, ts[i]) }
    } else if kind_at(ts, i + 1) == TokenKind::ColonColon {
        match identifier_statement(ts, i + 2) {
            Outcome::Failed { diagnostic } => Outcome::Failed { diagnostic },
            Outcome::Done { value, span } => Outcome::Done {
                value: StatementView::NamespacePush {
                    start: ts[i].position,
                    name: ts[i].value,
                    push: Box::new(value),
                },
                span: span + 2,
            },
        }
    } else if kind_at(ts, i + 1) == TokenKind::LeftParen {
        match call(ts, i) {
            Outcome::Failed { diagnostic } => Outcome::Failed { diagnostic },
            Outcome::Done { value, span } => {
                if kind_at(ts, i + span + 1) != TokenKind::Semicolon {
                    Outcome::Failed {
                        diagnostic: MessageView::expected("end of statement"@, ts[i + span + 1]),
                    }
                } else {
                    Outcome::Done {
                        value: StatementView::FunctionCall { start: ts[i].position, call: value },
                        span: span + 1,
                    }
                }
            },
        }
    } else {
        Outcome::Failed { diagnostic: MessageView::expected("'::' or '('"@, ts[i + 1]) }
    }
}

/// The statement of a block that begins at `j`.
pub open spec fn block_statement(ts: Seq<TokenView>, j: int) -> Outcome<StatementView> {
    match kind_at(ts, j) {
        TokenKind::KwVar => var_statement(ts, j),
        TokenKind::KwConst => const_statement(ts, j),
        TokenKind::Identifier => identifier_statement(ts, j),
        _ => Outcome::Failed { diagnostic: MessageView::expected("a statement"@, ts[j]) },
    }
}

/// The rest of a block that began at `origin`, with `j` the current token
/// and `seen` the statements so far. The block ends at `}`.
pub open spec fn block_items(
    ts: Seq<TokenView>,
    origin: int,
    j: int,
    seen: Seq<StatementView>,
) -> Outcome<Seq<StatementView>>
    decreases remaining(ts, j),
{
    match kind_at(ts, j) {
        TokenKind::RightBrace => Outcome::Done { value: seen, span: (j - origin) as nat },
        TokenKind::Eof => Outcome::Failed {
            diagnostic: MessageView::expected("end of block"@, ts[j]),
        },
        _ => match block_statement(ts, j) {
            Outcome::Failed { diagnostic } => Outcome::Failed { diagnostic },
            Outcome::Done { value, span } => block_items(
                ts,
                origin,
                j + span + 1,
                seen.push(value),
            ),
        },
    }
}

/// A block `{ statements }` whose `{` is at `i`.
pub open spec fn block(ts: Seq<TokenView>, i: int) -> Outcome<Seq<StatementView>> {
    if kind_at(ts, i) != TokenKind::LeftBrace {
        Outcome::Failed { diagnostic: MessageView::expected("start of block"@, ts[i]) }
    } else {
        block_items(ts, i, i + 1, Seq::empty())
    }
}

/// The parameters of a declaration: an empty list is `None`.
pub open spec fn some_parameters(params: Seq<FuncParamView>) -> Option<Seq<FuncParamView>> {
    if params.len() == 0 {
        None
    } else {
        Some(params)
    }
}

/// What follows the parameter list of a function declaration whose `func` is
/// at `i` and whose `)` is at `close`: `-> type`, then `;` for a prototype or
/// a block for a definition.
pub open spec fn function_tail(
    ts: Seq<TokenView>,
    i: int,
    close: int,
    params: Seq<FuncParamView>,
) -> Outcome<StatementView> {
    if kind_at(ts, close + 1) != TokenKind::OpArrow {
        Outcome::Failed { diagnostic: MessageView::expected("\"->\""@, ts[close + 1]) }
    } else {
        match type_at(ts, close + 2) {
            None => Outcome::Failed { diagnostic: MessageView::expected("a type"@, ts[close + 2]) },
            Some(ty) => {
                if kind_at(ts, close + 3) == TokenKind::Semicolon {
                    Outcome::Done {
                        value: StatementView::FunctionDeclaration {
                            start: ts[i].position,
                            name: ts[i + 1].value,
                            ty,
                            params: some_parameters(params),
                            body: None,
                        },
                        span: (close + 3 - i) as nat,
                    }
                } else if kind_at(ts, close + 3) == TokenKind::LeftBrace {
                    match block(ts, close + 3) {
                        Outcome::Failed { diagnostic } => Outcome::Failed { diagnostic },
                        Outcome::Done { value, span } => Outcome::Done {
                            value: StatementView::FunctionDeclaration {
                                start: ts[i].position,
                                name: ts[i + 1].value,
                                ty,
                                params: some_parameters(params),
                                body: Some(value),
                            },
                            span: (close + 3 + span - i) as nat,
                        },
                    }
                } else {
                    Outcome::Failed {
                        diagnostic: MessageView::expected(
                            "end of statement or code block"@,
                            ts[close + 3],
                        ),
                    }
                }
            },
        }
    }
}

/// A function declaration `func name ( parameters ) -> type`, followed by `;`
/// or by a block, whose `func` is at `i`.
pub open spec fn function_statement(ts: Seq<TokenView>, i: int) -> Outcome<StatementView> {
    if kind_at(ts, i + 1) != TokenKind::Identifier {
        Outcome::Failed { diagnostic: MessageView::expected("identifier"@, ts[i + 1]) }
    } else {
        match parameter_list(ts, i + 2) {
            Outcome::Failed { diagnostic } => Outcome::Failed { diagnostic },
            Outcome::Done { value, span } => function_tail(ts, i, i + 2 + span, value),
        }
    }
}

/// The top-level statement that begins at `j`: a declaration by its keyword.
pub open spec fn top_statement(ts: Seq<TokenView>, j: int) -> Outcome<StatementView> {
    match kind_at(ts, j) {
        TokenKind::KwVar => var_statement(ts, j),
        TokenKind::KwConst => const_statement(ts, j),
        TokenKind::KwFunc => function_statement(ts, j),
        _ => Outcome::Failed { diagnostic: MessageView::unexpected(ts[j]) },
    }
}

/// What parsing a whole token sequence gives: the statements parsed, in
/// order, and the diagnostics.
pub ghost struct Parse {
    pub body: Seq<StatementView>,
    pub diagnostics: Seq<MessageView>,
}

/// The rest of a program, with `j` the current token and `seen` the
/// statements so far. Parsing goes on to `Eof` and stops at the first
/// statement that fails, with its diagnostic.
pub open spec fn program_items(ts: Seq<TokenView>, j: int, seen: Seq<StatementView>) -> Parse
    decreases remaining(ts, j),
{
    if kind_at(ts, j) == TokenKind::Eof {
        Parse { body: seen, diagnostics: Seq::empty() }
    } else {
        match top_statement(ts, j) {
            Outcome::Failed { diagnostic } => Parse { body: seen, diagnostics: seq![diagnostic] },
            Outcome::Done { value, span } => program_items(ts, j + span + 1, seen.push(value)),
        }
    }
}

/// What parsing `ts` from its first token gives.
pub open spec fn program(ts: Seq<TokenView>) -> Parse {
    program_items(ts, 0, Seq::empty())
}

/// The root of the tree for a parsed body.
pub open spec fn program_root(body: Seq<StatementView>) -> StatementView {
    StatementView::Program { start: Position { line: 0, column: 0 }, body }
}

} // verus!
