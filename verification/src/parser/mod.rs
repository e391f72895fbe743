pub mod derivation;
pub mod diagnostics;
pub mod grammar;
pub mod statements;

use crate::handling::{message_views, Message, MessageView};
use crate::internals::types::Types;
use crate::internals::Position;
use crate::lexer::tokens::{token_views, Token, TokenKind, TokenView};
use crate::parser::grammar::{
    arguments, binary, binary_rest, block, block_items, call, declaration, expression,
    function_statement, identifier, identifier_statement, is_operator, kind_at,
    parameter_list, parameters, primary, program, program_items, program_root, type_at, unary,
    Outcome,
};
use crate::parser::statements::{
    block_model, expressions_model, optional_expressions_model, param_views, statements_model,
    Expression, ExpressionView, FuncParam, FuncParamView, Statement, StatementView,
};
use vstd::prelude::*;

verus! {

/// A parser over a token sequence that ends with `Eof`. It holds the
/// diagnostics and the tree parsed so far.
pub struct Parser {
    pub tokens: Vec<Token>,
    pub index: usize,
    pub output: Vec<Message>,
    pub ast: Statement,
}

/// The view of an optional expression.
pub open spec fn parsed_expression(value: Option<Expression>) -> Option<ExpressionView> {
    match value {
        None => None,
        Some(e) => Some(e@),
    }
}

/// Pushing onto a list of expressions pushes the view onto the list's views.
proof fn lemma_expressions_push(before: Vec<Expression>, after: Vec<Expression>, last: Expression)
    requires
        after@ == before@.push(last),
    ensures
        expressions_model(after) == expressions_model(before).push(last@),
{
    assert(expressions_model(after) =~= expressions_model(before).push(last@));
}

/// The view of an optional statement.
pub open spec fn parsed_statement(value: Option<Statement>) -> Option<StatementView> {
    match value {
        None => None,
        Some(s) => Some(s@),
    }
}

/// The views of an optional list of parameters.
pub open spec fn parsed_parameters(value: Option<Vec<FuncParam>>) -> Option<Seq<FuncParamView>> {
    match value {
        None => None,
        Some(list) => Some(param_views(list@)),
    }
}

/// The views of an optional block.
pub open spec fn parsed_block(value: Option<Box<Vec<Statement>>>) -> Option<Seq<StatementView>> {
    match value {
        None => None,
        Some(list) => Some(statements_model(*list)),
    }
}

/// Pushing onto a list of statements pushes the view onto the list's views.
proof fn lemma_statements_push(before: Vec<Statement>, after: Vec<Statement>, last: Statement)
    requires
        after@ == before@.push(last),
    ensures
        statements_model(after) == statements_model(before).push(last@),
{
    assert(statements_model(after) =~= statements_model(before).push(last@));
}

impl Parser {
    /// The tokens that the parser reads.
    pub open spec fn stream(&self) -> Seq<TokenView> {
        token_views(self.tokens@)
    }

    /// The index of the current token.
    pub open spec fn cursor(&self) -> int {
        self.index as int
    }

    /// The token sequence ends with `Eof`, the current token is one of its
    /// tokens, and the tree is a program.
    pub open spec fn wf(&self) -> bool {
        &&& self.tokens.len() > 0
        &&& self.tokens@.last().kind == TokenKind::Eof
        &&& self.index < self.tokens.len()
        &&& self.ast is Program
    }

    /// How the parser stands after parsing one construct, against what the
    /// grammar gives at the place where it stood before. Parsed: the value,
    /// the current token is the construct's last one, and no diagnostic is
    /// added. Not parsed: no value, and the diagnostic is added.
    pub open spec fn follows<V>(
        before: Parser,
        after: Parser,
        outcome: Outcome<V>,
        value: Option<V>,
    ) -> bool {
        &&& after.wf()
        &&& after.tokens == before.tokens
        &&& after.ast == before.ast
        &&& match outcome {
            Outcome::Done { value: parsed, span } => {
                &&& value == Some(parsed)
                &&& after.index == before.index + span
                &&& after.output == before.output
                &&& after.tokens@[after.index as int].kind != TokenKind::Eof
            },
            Outcome::Failed { diagnostic } => {
                &&& value is None
                &&& message_views(after.output@) == message_views(before.output@).push(diagnostic)
            },
        }
    }

    /// Creates a new parser instance, positioned on the first token, with
    /// an empty program and no diagnostics.
    pub fn new(tokens: Vec<Token>) -> (parser: Self)
        requires
            tokens.len() > 0,
            tokens@.last().kind == TokenKind::Eof,
        ensures
            parser.wf(),
            parser.tokens == tokens,
            parser.index == 0,
            parser.output@.len() == 0,
            parser.ast@ == program_root(Seq::empty()),
    {
        let body: Vec<Statement> = Vec::new();
        assert(statements_model(body) =~= Seq::empty());
        let ast = Statement::Program { start: Position::new(0, 0), body: Box::new(body) };
        Self { tokens, index: 0, output: Vec::new(), ast }
    }

    /// Parses the input tokens and constructs the AST: from the current
    /// token on, each top-level statement is added to the program, up to
    /// `Eof` or to the first statement that fails, whose diagnostic is added
    /// to the output.
    pub fn parse(&mut self)
        requires
            old(self).wf(),
        ensures
            final(self).wf(),
            final(self).stream() == old(self).stream(),
            ({
                let parse = program_items(
                    old(self).stream(),
                    old(self).cursor(),
                    old(self).ast@->Program_body,
                );
                &&& final(self).ast@ == (StatementView::Program {
                    start: old(self).ast@->Program_start,
                    body: parse.body,
                })
                &&& message_views(final(self).output@) == message_views(old(self).output@)
                    + parse.diagnostics
            }),
    {
        let ghost ts = self.stream();
        while self.current_kind() != TokenKind::Eof
            invariant
                self.wf(),
                self.tokens == old(self).tokens,
                self.output == old(self).output,
                ts == self.stream(),
                self.ast@->Program_start == old(self).ast@->Program_start,
                program_items(ts, self.index as int, self.ast@->Program_body) == program_items(
                    ts,
                    old(self).index as int,
                    old(self).ast@->Program_body,
                ),
            decreases self.tokens.len() - self.index,
        {
            let statement: Option<Statement> = match self.current_kind() {
                TokenKind::KwVar => self.parse_var_statement(),
                TokenKind::KwConst => self.parse_const_statement(),
                TokenKind::KwFunc => self.parse_function_statement(),
                _ => {
                    let message = Message::unexpected_error(self.current());
                    self.report(message);
                    None
                },
            };
            if let Some(statement) = statement {
                self.push_statement(statement);
            } else {
                assert(message_views(self.output@) =~= message_views(old(self).output@)
                    + program_items(
                    ts,
                    old(self).index as int,
                    old(self).ast@->Program_body,
                ).diagnostics);
                return ;
            }
            self.advance();
        }
        assert(message_views(self.output@) =~= message_views(old(self).output@)
            + Seq::<MessageView>::empty());
    }

    /// Pushes a statement onto the AST.
    fn push_statement(&mut self, statement: Statement)
        requires
            old(self).wf(),
        ensures
            final(self).wf(),
            final(self).tokens == old(self).tokens,
            final(self).index == old(self).index,
            final(self).output == old(self).output,
            final(self).ast@ == (StatementView::Program {
                start: old(self).ast@->Program_start,
                body: old(self).ast@->Program_body.push(statement@),
            }),
    {
        match &mut self.ast {
            Statement::Program { body, .. } => {
                let ghost before = **body;
                body.push(statement);
                proof {
                    lemma_statements_push(before, **body, statement);
                }
            },
            _ => {},
        }
    }

    /// Returns the current token.
    fn current(&self) -> (token: &Token)
        requires
            self.wf(),
        ensures
            *token == self.tokens@[self.index as int],
            token@ == self.stream()[self.cursor()],
    {
        &self.tokens[self.index]
    }

    /// Returns the kind of the current token.
    fn current_kind(&self) -> (kind: TokenKind)
        requires
            self.wf(),
        ensures
            kind == kind_at(self.stream(), self.cursor()),
    {
        self.tokens[self.index].kind
    }

    /// Moves to the next token; stays on `Eof`.
    fn advance(&mut self)
        requires
            old(self).wf(),
        ensures
            final(self).wf(),
            final(self).tokens == old(self).tokens,
            final(self).ast == old(self).ast,
            final(self).output == old(self).output,
            final(self).index == if kind_at(old(self).stream(), old(self).cursor())
                == TokenKind::Eof {
                old(self).index as int
            } else {
                old(self).index + 1
            },
    {
        match self.tokens[self.index].kind {
            TokenKind::Eof => {},
            _ => {
                self.index = self.index + 1;
            },
        }
    }

    /// Returns the kind of the token after the current one, `Eof` if there is none.
    fn peek_kind(&self) -> (kind: TokenKind)
        requires
            self.wf(),
        ensures
            kind == kind_at(self.stream(), self.cursor() + 1),
    {
        if self.index + 1 < self.tokens.len() {
            self.tokens[self.index + 1].kind
        } else {
            TokenKind::Eof
        }
    }

    /// Whether the current token is of the expected kind.
    fn peek_expect(&self, expected: TokenKind) -> (is: bool)
        requires
            self.wf(),
        ensures
            is == (kind_at(self.stream(), self.cursor()) == expected),
    {
        self.current_kind() == expected
    }

    /// Adds a diagnostic.
    fn report(&mut self, message: Message)
        ensures
            final(self).tokens == old(self).tokens,
            final(self).index == old(self).index,
            final(self).ast == old(self).ast,
            message_views(final(self).output@) == message_views(old(self).output@).push(message@),
    {
        self.output.push(message);
        assert(message_views(self.output@) =~= message_views(old(self).output@).push(message@));
    }

    /// Adds the diagnostic that `expected` was expected at the current token.
    fn report_expected(&mut self, expected: &str)
        requires
            old(self).wf(),
        ensures
            final(self).wf(),
            final(self).tokens == old(self).tokens,
            final(self).index == old(self).index,
            final(self).ast == old(self).ast,
            message_views(final(self).output@) == message_views(old(self).output@).push(
                MessageView::expected(expected@, old(self).stream()[old(self).cursor()]),
            ),
    {
        let message = Message::expected_error(expected, self.current());
        self.report(message);
    }

    /// Transforms the current token into a type.
    fn get_type(&mut self) -> (ty: Option<Types>)
        requires
            old(self).wf(),
        ensures
            final(self).wf(),
            final(self).tokens == old(self).tokens,
            final(self).index == old(self).index,
            final(self).ast == old(self).ast,
            match type_at(old(self).stream(), old(self).cursor()) {
                Some(named) => ty matches Some(t) && t@ == named && final(self).output == old(
                    self,
                ).output,
                None => ty is None && message_views(final(self).output@) == message_views(
                    old(self).output@,
                ).push(
                    MessageView::expected("a type"@, old(self).stream()[old(self).cursor()]),
                ),
            },
    {
        match self.current_kind() {
            TokenKind::TyInt => Some(Types::Int),
            TokenKind::TyFloat => Some(Types::Float),
            TokenKind::TyDouble => Some(Types::Double),
            TokenKind::TyBool => Some(Types::Bool),
            TokenKind::TyChar => Some(Types::Char),
            TokenKind::TyString => Some(Types::String),
            TokenKind::TyVoid => Some(Types::Void),
            TokenKind::Identifier => Some(Types::Custom(self.current().value.clone())),
            _ => {
                self.report_expected("a type");
                None
            },
        }
    }

    /// Parse a function call expression -> function_identifier(arguments)
    fn parse_function_call(&mut self) -> (parsed: Option<Expression>)
        requires
            old(self).wf(),
            kind_at(old(self).stream(), old(self).cursor()) == TokenKind::Identifier,
            kind_at(old(self).stream(), old(self).cursor() + 1) == TokenKind::LeftParen,
        ensures
            Self::follows(
                *old(self),
                *final(self),
                call(old(self).stream(), old(self).cursor()),
                parsed_expression(parsed),
            ),
        decreases old(self).tokens.len() - old(self).index, 2nat,
    {
        let ghost ts = self.stream();
        let ghost origin = self.cursor();
        let name: String = self.current().value.clone();
        self.advance();
        self.advance();
        let mut argument_vec: Vec<Expression> = Vec::new();
        assert(expressions_model(argument_vec) =~= Seq::empty());
        loop
            invariant
                self.wf(),
                self.tokens == old(self).tokens,
                self.ast == old(self).ast,
                self.output == old(self).output,
                ts == self.stream(),
                origin == old(self).index,
                origin + 2 <= self.index,
                arguments(ts, origin, self.index as int, expressions_model(argument_vec))
                    == arguments(ts, origin, origin + 2, Seq::empty()),
            ensures
                kind_at(ts, self.index as int) == TokenKind::RightParen,
            decreases self.tokens.len() - self.index,
        {
            if self.peek_expect(TokenKind::RightParen) {
                break ;
            }
            if self.peek_expect(TokenKind::Eof) {
                self.report_expected("')'");
                return None;
            }
            if self.peek_expect(TokenKind::Comma) {
                self.advance();
                continue ;
            }
            let expression = match self.parse_expression() {
                Some(expr) => expr,
                None => {
                    return None;
                },
            };
            let next = self.peek_kind();
            if next == TokenKind::Comma || next == TokenKind::RightParen {
                let ghost before = argument_vec;
                argument_vec.push(expression);
                proof {
                    lemma_expressions_push(before, argument_vec, expression);
                }
                self.advance();
            } else {
                self.advance();
                self.report_expected("',' or ')'");
                return None;
            }
        }
        proof {
            reveal_with_fuel(Expression::model, 2);
            reveal_with_fuel(optional_expressions_model, 2);
        }
        if argument_vec.len() == 0 {
            return Some(Expression::Call { name, arguments: None });
        }
        Some(Expression::Call { name, arguments: Some(Box::new(argument_vec)) })
    }

    /// Parse identifiers -> function calls, push identifier value...
    fn parse_identifier(&mut self) -> (parsed: Option<Expression>)
        requires
            old(self).wf(),
        ensures
            Self::follows(
                *old(self),
                *final(self),
                identifier(old(self).stream(), old(self).cursor()),
                parsed_expression(parsed),
            ),
        decreases old(self).tokens.len() - old(self).index, 3nat,
    {
        match self.current_kind() {
            TokenKind::Identifier => match self.peek_kind() {
                TokenKind::LeftParen => self.parse_function_call(),
                _ => Some(Expression::Identifier(self.current().value.clone())),
            },
            _ => {
                self.report_expected("identifier");
                None
            },
        }
    }

    /// Parse the primary expression.
    pub fn parse_primary_expression(&mut self) -> (parsed: Option<Expression>)
        requires
            old(self).wf(),
        ensures
            Self::follows(
                *old(self),
                *final(self),
                primary(old(self).stream(), old(self).cursor()),
                parsed_expression(parsed),
            ),
        decreases old(self).tokens.len() - old(self).index, 4nat,
    {
        match self.current_kind() {
            TokenKind::Identifier => self.parse_identifier(),
            TokenKind::Number => Some(
                Expression::Literal { ty: TokenKind::Number, value: self.current().value.clone() },
            ),
            TokenKind::CharLiteral => Some(
                Expression::Literal {
                    ty: TokenKind::CharLiteral,
                    value: self.current().value.clone(),
                },
            ),
            TokenKind::StringLiteral => Some(
                Expression::Literal {
                    ty: TokenKind::StringLiteral,
                    value: self.current().value.clone(),
                },
            ),
            TokenKind::True | TokenKind::False => Some(
                Expression::Literal { ty: TokenKind::TyBool, value: self.current().value.clone() },
            ),
            TokenKind::Eof => {
                self.report_expected("end of expression");
                None
            },
            _ => {
                self.report_expected("an expression");
                None
            },
        }
    }

    /// Parse unary expressions.
    pub fn parse_unary_expression(&mut self) -> (parsed: Option<Expression>)
        requires
            old(self).wf(),
        ensures
            Self::follows(
                *old(self),
                *final(self),
                unary(old(self).stream(), old(self).cursor()),
                parsed_expression(parsed),
            ),
        decreases old(self).tokens.len() - old(self).index, 5nat,
    {
        match self.current_kind() {
            TokenKind::OpAdd => {
                self.advance();
                self.parse_unary_expression()
            },
            TokenKind::OpSub => {
                self.advance();
                match self.parse_unary_expression() {
                    Some(expr) => Some(
                        Expression::Unary { operator: TokenKind::OpSub, operand: Box::new(expr) },
                    ),
                    None => None,
                }
            },
            TokenKind::OpNot => {
                self.advance();
                match self.parse_unary_expression() {
                    Some(expr) => Some(
                        Expression::Unary { operator: TokenKind::OpNot, operand: Box::new(expr) },
                    ),
                    None => None,
                }
            },
            _ => self.parse_primary_expression(),
        }
    }

    /// Whether `kind` is a binary operator of the given level.
    fn is_level_operator(level: u8, kind: TokenKind) -> (is: bool)
        ensures
            is == is_operator(level as nat, kind),
    {
        match level {
            1 => kind == TokenKind::OpMul || kind == TokenKind::OpDiv || kind == TokenKind::OpMod,
            2 => kind == TokenKind::OpAdd || kind == TokenKind::OpSub,
            3 => kind == TokenKind::OpLt || kind == TokenKind::OpLe || kind == TokenKind::OpGt
                || kind == TokenKind::OpGe,
            4 => kind == TokenKind::OpEq || kind == TokenKind::OpNeq,
            5 => kind == TokenKind::OpAnd,
            6 => kind == TokenKind::OpOr,
            _ => false,
        }
    }

    /// Parses an expression of the given level by the function that stands for it.
    fn parse_level(&mut self, level: u8) -> (parsed: Option<Expression>)
        requires
            old(self).wf(),
            level <= 6,
        ensures
            Self::follows(
                *old(self),
                *final(self),
                binary(old(self).stream(), old(self).cursor(), level as nat),
                parsed_expression(parsed),
            ),
        decreases old(self).tokens.len() - old(self).index, 12 + 3 * level,
    {
        match level {
            0 => self.parse_unary_expression(),
            1 => self.parse_multiplicative_expression(),
            2 => self.parse_plus_or_subtract_expression(),
            3 => self.parse_greater_or_smaller_expression(),
            4 => self.parse_comparision_expression(),
            5 => self.parse_and_expression(),
            _ => self.parse_or_expression(),
        }
    }

    /// Parses one operand of the next tighter level, then, while the next
    /// token is an operator of this level, the operator and its right
    /// operand, folding to the left.
    fn parse_left_associative(&mut self, level: u8) -> (parsed: Option<Expression>)
        requires
            old(self).wf(),
            1 <= level <= 6,
        ensures
            Self::follows(
                *old(self),
                *final(self),
                binary(old(self).stream(), old(self).cursor(), level as nat),
                parsed_expression(parsed),
            ),
        decreases old(self).tokens.len() - old(self).index, 10 + 3 * level,
    {
        let ghost ts = self.stream();
        let ghost origin = self.cursor();
        let mut left: Expression = match self.parse_level(level - 1) {
            Some(expr) => expr,
            None => {
                return None;
            },
        };
        while Self::is_level_operator(level, self.peek_kind())
            invariant
                self.wf(),
                self.tokens == old(self).tokens,
                self.ast == old(self).ast,
                self.output == old(self).output,
                ts == self.stream(),
                origin == old(self).index,
                origin <= self.index,
                1 <= level <= 6,
                self.tokens@[self.index as int].kind != TokenKind::Eof,
                binary(ts, origin, level as nat) == binary_rest(
                    ts,
                    origin,
                    self.index as int,
                    level as nat,
                    left@,
                ),
            decreases self.tokens.len() - self.index,
        {
            self.advance();
            let operator: TokenKind = self.current_kind();
            self.advance();
            let right: Expression = match self.parse_level(level - 1) {
                Some(expr) => expr,
                None => {
                    return None;
                },
            };
            left = if level <= 2 {
                Expression::Binary { operator, left: Box::new(left), right: Box::new(right) }
            } else {
                Expression::Logical { operator, left: Box::new(left), right: Box::new(right) }
            };
        }
        Some(left)
    }

    /// '*', '/' or '%' <- Multiplication, division or rest expression
    pub fn parse_multiplicative_expression(&mut self) -> (parsed: Option<Expression>)
        requires
            old(self).wf(),
        ensures
            Self::follows(
                *old(self),
                *final(self),
                binary(old(self).stream(), old(self).cursor(), 1),
                parsed_expression(parsed),
            ),
        decreases old(self).tokens.len() - old(self).index, 14nat,
    {
        self.parse_left_associative(1)
    }

    /// '+' or '-' <- Sum or subtraction expression
    pub fn parse_plus_or_subtract_expression(&mut self) -> (parsed: Option<Expression>)
        requires
            old(self).wf(),
        ensures
            Self::follows(
                *old(self),
                *final(self),
                binary(old(self).stream(), old(self).cursor(), 2),
                parsed_expression(parsed),
            ),
        decreases old(self).tokens.len() - old(self).index, 17nat,
    {
        self.parse_left_associative(2)
    }

    /// '<', '<=', '>' or '>=' <- Size expressions
    pub fn parse_greater_or_smaller_expression(&mut self) -> (parsed: Option<Expression>)
        requires
            old(self).wf(),
        ensures
            Self::follows(
                *old(self),
                *final(self),
                binary(old(self).stream(), old(self).cursor(), 3),
                parsed_expression(parsed),
            ),
        decreases old(self).tokens.len() - old(self).index, 20nat,
    {
        self.parse_left_associative(3)
    }

    /// '==' or '!=' <- Comparison expressions
    pub fn parse_comparision_expression(&mut self) -> (parsed: Option<Expression>)
        requires
            old(self).wf(),
        ensures
            Self::follows(
                *old(self),
                *final(self),
                binary(old(self).stream(), old(self).cursor(), 4),
                parsed_expression(parsed),
            ),
        decreases old(self).tokens.len() - old(self).index, 23nat,
    {
        self.parse_left_associative(4)
    }

    /// 'and' or '&&' <- Logical and expressions
    pub fn parse_and_expression(&mut self) -> (parsed: Option<Expression>)
        requires
            old(self).wf(),
        ensures
            Self::follows(
                *old(self),
                *final(self),
                binary(old(self).stream(), old(self).cursor(), 5),
                parsed_expression(parsed),
            ),
        decreases old(self).tokens.len() - old(self).index, 26nat,
    {
        self.parse_left_associative(5)
    }

    /// 'or' or '||' <- Logical or expressions
    pub fn parse_or_expression(&mut self) -> (parsed: Option<Expression>)
        requires
            old(self).wf(),
        ensures
            Self::follows(
                *old(self),
                *final(self),
                binary(old(self).stream(), old(self).cursor(), 6),
                parsed_expression(parsed),
            ),
        decreases old(self).tokens.len() - old(self).index, 29nat,
    {
        self.parse_left_associative(6)
    }

    /// Parses the expression that begins at the current token, by
    /// precedence climbing from the loosest level. Parsed: the expression,
    /// with its last token the current one. Not parsed: nothing, and the
    /// diagnostic is added to the output.
    pub fn parse_expression(&mut self) -> (parsed: Option<Expression>)
        requires
            old(self).wf(),
        ensures
            Self::follows(
                *old(self),
                *final(self),
                expression(old(self).stream(), old(self).cursor()),
                parsed_expression(parsed),
            ),
        decreases old(self).tokens.len() - old(self).index, 35nat,
    {
        self.parse_or_expression()
    }
    /// Parses a declaration after its keyword: `name : type`, then
    /// `= expression ;`, or, for a variable, `;` alone.
    fn parse_declaration(&mut self, constant: bool) -> (parsed: Option<Statement>)
        requires
            old(self).wf(),
            kind_at(old(self).stream(), old(self).cursor()) != TokenKind::Eof,
        ensures
            Self::follows(
                *old(self),
                *final(self),
                declaration(old(self).stream(), old(self).cursor(), constant),
                parsed_statement(parsed),
            ),
    {
        let start: Position = self.current().position;
        self.advance();
        let name: String = match self.current_kind() {
            TokenKind::Identifier => self.current().value.clone(),
            _ => {
                self.report_expected("an identifier");
                return None;
            },
        };
        self.advance();
        if let Some(message) = Message::expected_or_error(
            TokenKind::Colon,
            "a colon",
            self.current(),
        ) {
            self.report(message);
            return None;
        }
        self.advance();
        let ty: Types = match self.get_type() {
            Some(t) => t,
            None => {
                return None;
            },
        };
        self.advance();
        match self.current_kind() {
            TokenKind::OpAssign => {
                self.advance();
            },
            TokenKind::Semicolon => {
                if constant {
                    self.report_expected("assignment operator or end of statement");
                    return None;
                }
                return Some(Statement::VariableDeclaration { start, name, ty, value: None });
            },
            _ => {
                self.report_expected("assignment operator or end of statement");
                return None;
            },
        }
        let value: Expression = match self.parse_expression() {
            Some(expr) => expr,
            None => {
                return None;
            },
        };
        self.advance();
        if let Some(message) = Message::expected_or_error(
            TokenKind::Semicolon,
            "end of statement",
            self.current(),
        ) {
            self.report(message);
            return None;
        }
        if constant {
            Some(Statement::ConstantDeclaration { start, name, ty, value })
        } else {
            Some(Statement::VariableDeclaration { start, name, ty, value: Some(value) })
        }
    }

    /// Parse a variable statement (declaration)
    fn parse_var_statement(&mut self) -> (parsed: Option<Statement>)
        requires
            old(self).wf(),
            kind_at(old(self).stream(), old(self).cursor()) != TokenKind::Eof,
        ensures
            Self::follows(
                *old(self),
                *final(self),
                declaration(old(self).stream(), old(self).cursor(), false),
                parsed_statement(parsed),
            ),
    {
        self.parse_declaration(false)
    }

    /// Parse a constant statement (declaration)
    fn parse_const_statement(&mut self) -> (parsed: Option<Statement>)
        requires
            old(self).wf(),
            kind_at(old(self).stream(), old(self).cursor()) != TokenKind::Eof,
        ensures
            Self::follows(
                *old(self),
                *final(self),
                declaration(old(self).stream(), old(self).cursor(), true),
                parsed_statement(parsed),
            ),
    {
        self.parse_declaration(true)
    }

    /// Parse a block statement -> { ... statements ... }
    fn parse_block_statement(&mut self) -> (parsed: Option<Box<Vec<Statement>>>)
        requires
            old(self).wf(),
        ensures
            Self::follows(
                *old(self),
                *final(self),
                block(old(self).stream(), old(self).cursor()),
                parsed_block(parsed),
            ),
    {
        let ghost ts = self.stream();
        let ghost origin = self.cursor();
        if let Some(message) = Message::expected_or_error(
            TokenKind::LeftBrace,
            "start of block",
            self.current(),
        ) {
            self.report(message);
            return None;
        }
        self.advance();
        let mut statements: Vec<Statement> = Vec::new();
        assert(statements_model(statements) =~= Seq::empty());
        while !(self.peek_expect(TokenKind::RightBrace) || self.peek_expect(TokenKind::Eof))
            invariant
                self.wf(),
                self.tokens == old(self).tokens,
                self.ast == old(self).ast,
                self.output == old(self).output,
                ts == self.stream(),
                origin == old(self).index,
                origin < self.index,
                block(ts, origin) == block_items(ts, origin, origin + 1, Seq::empty()),
                block_items(ts, origin, self.index as int, statements_model(statements))
                    == block_items(ts, origin, origin + 1, Seq::empty()),
            decreases self.tokens.len() - self.index,
        {
            let statement: Option<Statement> = match self.current_kind() {
                TokenKind::KwVar => self.parse_var_statement(),
                TokenKind::KwConst => self.parse_const_statement(),
                TokenKind::Identifier => self.parse_identifier_statement(),
                _ => {
                    self.report_expected("a statement");
                    return None;
                },
            };
            if let Some(statement) = statement {
                let ghost before = statements;
                statements.push(statement);
                proof {
                    lemma_statements_push(before, statements, statement);
                }
            } else {
                return None;
            }
            self.advance();
        }
        match self.current_kind() {
            TokenKind::RightBrace => {},
            _ => {
                self.report_expected("end of block");
                return None;
            },
        }
        Some(Box::new(statements))
    }

    /// Parse the parameters inside parenthesis -> (param: type, other_param: type)
    fn parse_function_parameters_statement(&mut self) -> (parsed: Option<Vec<FuncParam>>)
        requires
            old(self).wf(),
        ensures
            Self::follows(
                *old(self),
                *final(self),
                parameter_list(old(self).stream(), old(self).cursor()),
                parsed_parameters(parsed),
            ),
    {
        let ghost ts = self.stream();
        let ghost origin = self.cursor();
        if let Some(message) = Message::expected_or_error(
            TokenKind::LeftParen,
            "'('",
            self.current(),
        ) {
            self.report(message);
            return None;
        }
        self.advance();
        let mut params: Vec<FuncParam> = Vec::new();
        assert(param_views(params@) =~= Seq::empty());
        if self.peek_expect(TokenKind::RightParen) {
            return Some(params);
        }
        loop
            invariant_except_break
                parameters(ts, origin, self.index as int, param_views(params@)) == parameters(
                    ts,
                    origin,
                    origin + 1,
                    Seq::empty(),
                ),
            invariant
                self.wf(),
                self.tokens == old(self).tokens,
                self.ast == old(self).ast,
                self.output == old(self).output,
                ts == self.stream(),
                origin == old(self).index,
                origin < self.index,
                parameter_list(ts, origin) == parameters(ts, origin, origin + 1, Seq::empty()),
            ensures
                self.wf(),
                self.tokens == old(self).tokens,
                self.ast == old(self).ast,
                self.output == old(self).output,
                origin < self.index,
                kind_at(ts, self.index as int) == TokenKind::RightParen,
                parameter_list(ts, origin) == (Outcome::Done {
                    value: param_views(params@),
                    span: (self.index - origin) as nat,
                }),
            decreases self.tokens.len() - self.index,
        {
            if !self.peek_expect(TokenKind::Identifier) {
                self.report_expected("Identifier");
                return None;
            }
            let name: String = self.current().value.clone();
            self.advance();
            if let Some(message) = Message::expected_or_error(
                TokenKind::Colon,
                "':'",
                self.current(),
            ) {
                self.report(message);
                return None;
            }
            self.advance();
            let ty: Types = match self.get_type() {
                Some(ty) => ty,
                None => {
                    return None;
                },
            };
            self.advance();
            let param = FuncParam { name, ty };
            let ghost before = params@;
            if self.peek_expect(TokenKind::RightParen) {
                params.push(param);
                assert(param_views(params@) =~= param_views(before).push(param@));
                break ;
            } else if self.peek_expect(TokenKind::Comma) {
                params.push(param);
                assert(param_views(params@) =~= param_views(before).push(param@));
                self.advance();
            } else {
                self.report_expected("',' or ')'");
                return None;
            }
        }
        Some(params)
    }

    /// Parse a function statement ->
    /// func identifier (parameters) -> return_type { ... statements ... }
    fn parse_function_statement(&mut self) -> (parsed: Option<Statement>)
        requires
            old(self).wf(),
            kind_at(old(self).stream(), old(self).cursor()) != TokenKind::Eof,
        ensures
            Self::follows(
                *old(self),
                *final(self),
                function_statement(old(self).stream(), old(self).cursor()),
                parsed_statement(parsed),
            ),
    {
        let ghost ts = self.stream();
        let ghost origin = self.cursor();
        let start: Position = self.current().position;
        self.advance();
        let name: String = match self.current_kind() {
            TokenKind::Identifier => self.current().value.clone(),
            _ => {
                self.report_expected("identifier");
                return None;
            },
        };
        self.advance();
        let params: Vec<FuncParam> = match self.parse_function_parameters_statement() {
            Some(params) => params,
            None => {
                return None;
            },
        };
        let ghost close = self.cursor();
        self.advance();
        if let Some(message) = Message::expected_or_error(
            TokenKind::OpArrow,
            "\"->\"",
            self.current(),
        ) {
            self.report(message);
            return None;
        }
        self.advance();
        let ty: Types = match self.get_type() {
            Some(t) => t,
            None => {
                return None;
            },
        };
        self.advance();
        proof {
            reveal_with_fuel(Statement::model, 2);
            reveal_with_fuel(block_model, 2);
        }
        match self.current_kind() {
            TokenKind::Semicolon => {
                return Some(
                    Statement::FunctionDeclaration {
                        start,
                        name,
                        params: if params.is_empty() {
                            None
                        } else {
                            Some(params)
                        },
                        ty,
                        body: None,
                    },
                );
            },
            TokenKind::LeftBrace => {},
            _ => {
                self.report_expected("end of statement or code block");
                return None;
            },
        }
        let body: Box<Vec<Statement>> = match self.parse_block_statement() {
            Some(body) => body,
            None => {
                return None;
            },
        };
        Some(
            Statement::FunctionDeclaration {
                start,
                name,
                params: if params.is_empty() {
                    None
                } else {
                    Some(params)
                },
                ty,
                body: Some(body),
            },
        )
    }

    /// Parses a statement that begins with an identifier: a call, or a
    /// namespace in front of another such statement.
    fn parse_identifier_statement(&mut self) -> (parsed: Option<Statement>)
        requires
            old(self).wf(),
        ensures
            Self::follows(
                *old(self),
                *final(self),
                identifier_statement(old(self).stream(), old(self).cursor()),
                parsed_statement(parsed),
            ),
        decreases old(self).tokens.len() - old(self).index,
    {
        match self.current_kind() {
            TokenKind::Identifier => match self.peek_kind() {
                TokenKind::ColonColon => {
                    let start: Position = self.current().position;
                    let namespace_name: String = self.current().value.clone();
                    self.advance();
                    self.advance();
                    let identifier_statement: Statement = match self.parse_identifier_statement() {
                        Some(identifier_statement) => identifier_statement,
                        None => return None,
                    };
                    Some(
                        Statement::NamespacePush {
                            start,
                            name: namespace_name,
                            push: Box::new(identifier_statement),
                        },
                    )
                },
                TokenKind::LeftParen => {
                    let start: Position = self.current().position;
                    let func_call: Expression = match self.parse_function_call() {
                        Some(func_call) => func_call,
                        None => return None,
                    };
                    self.advance();
                    if self.current_kind() != TokenKind::Semicolon {
                        self.report_expected("end of statement");
                        return None;
                    }
                    Some(Statement::FunctionCall { start, call: func_call })
                },
                _ => {
                    self.advance();
                    self.report_expected("'::' or '('");
                    None
                },
            },
            _ => {
                self.report_expected("an identifier");
                None
            },
        }
    }
}

} // verus!

verus! {

/// Parses a token sequence that ends with `Eof`: the program's tree and the
/// diagnostics.
pub fn parse(tokens: Vec<Token>) -> (parsed: (Statement, Vec<Message>))
    requires
        tokens.len() > 0,
        tokens@.last().kind == TokenKind::Eof,
    ensures
        parsed.0@ == program_root(program(token_views(tokens@)).body),
        message_views(parsed.1@) == program(token_views(tokens@)).diagnostics,
{
    let mut parser = Parser::new(tokens);
    parser.parse();
    assert(message_views(parser.output@) =~= program(token_views(tokens@)).diagnostics);
    (parser.ast, parser.output)
}

} // verus!
