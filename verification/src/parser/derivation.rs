//! Well-formed programs, and what parsing them gives.
//!
//! A shape says how a run of tokens is built from the grammar: which
//! construct it is and what its parts are. A token sequence spells a shape
//! at an index where its tokens, from there on, have the kinds that the
//! shape asks for. The lemmas show that the grammar functions parse every
//! construct that is spelled, to the tree that its tokens give.
use crate::lexer::tokens::{TokenKind, TokenView};
use crate::parser::grammar::{
    arguments, binary, binary_rest, block, block_items, block_statement, call, combine,
    declaration, expression, function_statement, function_tail, identifier,
    identifier_statement, is_operator, kind_at, operator_level, parameter_list, parameters,
    primary, program, program_items, some_parameters, top_statement, type_at, unary, Outcome,
    Parse,
};
use crate::parser::statements::{ExpressionView, FuncParamView, StatementView};
use vstd::prelude::*;

verus! {

/// The shape of an expression.
pub ghost enum Phrase {
    /// An identifier that is no call.
    Name,
    /// A number, a character, a string, `true` or `false`.
    Literal,
    /// A name, `(`, the arguments with a comma between two, and `)`.
    Call { arguments: Seq<Phrase> },
    /// A prefix `+`, `-` or `!` and its operand.
    Prefix { operand: Box<Phrase> },
    /// A left operand, a binary operator of the level, and a right operand.
    Infix { level: nat, left: Box<Phrase>, right: Box<Phrase> },
}

/// Whether a token of this kind is a literal.
pub open spec fn is_literal(kind: TokenKind) -> bool {
    kind == TokenKind::Number || kind == TokenKind::CharLiteral || kind == TokenKind::StringLiteral
        || kind == TokenKind::True || kind == TokenKind::False
}

/// The type that a literal node records for a literal token: the token's
/// kind, and the boolean type for `true` and `false`.
pub open spec fn literal_type(kind: TokenKind) -> TokenKind {
    if kind == TokenKind::True || kind == TokenKind::False {
        TokenKind::TyBool
    } else {
        kind
    }
}

/// Whether a token of this kind is a prefix operator.
pub open spec fn is_prefix(kind: TokenKind) -> bool {
    kind == TokenKind::OpAdd || kind == TokenKind::OpSub || kind == TokenKind::OpNot
}

/// The number of tokens of the arguments from `from` on, each with the
/// comma or the `)` after it.
pub open spec fn arguments_width(list: Seq<Phrase>, from: int) -> nat
    decreases list, list.len() - from,
{
    if 0 <= from < list.len() {
        list[from].width() + 1 + arguments_width(list, from + 1)
    } else {
        0
    }
}

/// Whether the tokens from `j` on spell the arguments from `from` on: each
/// is a phrase of any level, a comma follows each but the last, and `)`
/// follows the last.
pub open spec fn spells_arguments(list: Seq<Phrase>, from: int, ts: Seq<TokenView>, j: int) -> bool
    decreases list, list.len() - from,
{
    if 0 <= from < list.len() {
        let after = j + list[from].width();
        &&& list[from].spelled(ts, j)
        &&& if from == list.len() - 1 {
            kind_at(ts, after) == TokenKind::RightParen
        } else {
            kind_at(ts, after) == TokenKind::Comma && spells_arguments(
                list,
                from + 1,
                ts,
                after + 1,
            )
        }
    } else {
        true
    }
}

/// The trees of the arguments from `from` on, the first at `j`.
pub open spec fn argument_trees(list: Seq<Phrase>, from: int, ts: Seq<TokenView>, j: int) -> Seq<
    ExpressionView,
>
    decreases list, list.len() - from,
{
    if 0 <= from < list.len() {
        seq![list[from].tree(ts, j)] + argument_trees(
            list,
            from + 1,
            ts,
            j + list[from].width() + 1,
        )
    } else {
        Seq::empty()
    }
}

impl Phrase {
    /// The level of the phrase: of an infix phrase its operator's, of any other 0.
    pub open spec fn rank(self) -> nat {
        match self {
            Phrase::Infix { level, .. } => level,
            _ => 0,
        }
    }

    /// The number of tokens of the phrase.
    pub open spec fn width(self) -> nat
        decreases self, 0int,
    {
        match self {
            Phrase::Name => 1,
            Phrase::Literal => 1,
            Phrase::Call { arguments } => if arguments.len() == 0 {
                3
            } else {
                2 + arguments_width(arguments, 0)
            },
            Phrase::Prefix { operand } => 1 + operand.width(),
            Phrase::Infix { left, right, .. } => left.width() + 1 + right.width(),
        }
    }

    /// Whether the tokens from `i` on spell the phrase. The operands of an
    /// infix phrase are of its level or tighter on the left, and tighter
    /// on the right; the operand of a prefix is no infix phrase.
    pub open spec fn spelled(self, ts: Seq<TokenView>, i: int) -> bool
        decreases self, 0int,
    {
        match self {
            Phrase::Name => kind_at(ts, i) == TokenKind::Identifier && kind_at(ts, i + 1)
                != TokenKind::LeftParen,
            Phrase::Literal => is_literal(kind_at(ts, i)),
            Phrase::Call { arguments } => {
                &&& kind_at(ts, i) == TokenKind::Identifier
                &&& kind_at(ts, i + 1) == TokenKind::LeftParen
                &&& if arguments.len() == 0 {
                    kind_at(ts, i + 2) == TokenKind::RightParen
                } else {
                    spells_arguments(arguments, 0, ts, i + 2)
                }
            },
            Phrase::Prefix { operand } => {
                &&& is_prefix(kind_at(ts, i))
                &&& operand.rank() == 0
                &&& operand.spelled(ts, i + 1)
            },
            Phrase::Infix { level, left, right } => {
                &&& 1 <= level <= 6
                &&& left.rank() <= level
                &&& right.rank() < level
                &&& left.spelled(ts, i)
                &&& is_operator(level, kind_at(ts, i + left.width()))
                &&& right.spelled(ts, i + left.width() + 1)
            },
        }
    }

    /// The tree that the tokens from `i` on give for the phrase.
    pub open spec fn tree(self, ts: Seq<TokenView>, i: int) -> ExpressionView
        decreases self, 0int,
    {
        match self {
            Phrase::Name => ExpressionView::Identifier(ts[i].value),
            Phrase::Literal => ExpressionView::Literal {
                ty: literal_type(ts[i].kind),
                value: ts[i].value,
            },
            Phrase::Call { arguments } => ExpressionView::Call {
                name: ts[i].value,
                arguments: if arguments.len() == 0 {
                    None
                } else {
                    Some(argument_trees(arguments, 0, ts, i + 2))
                },
            },
            Phrase::Prefix { operand } => if ts[i].kind == TokenKind::OpAdd {
                operand.tree(ts, i + 1)
            } else {
                ExpressionView::Unary {
                    operator: ts[i].kind,
                    operand: Box::new(operand.tree(ts, i + 1)),
                }
            },
            Phrase::Infix { level, left, right } => combine(
                level,
                ts[i + left.width()].kind,
                left.tree(ts, i),
                right.tree(ts, i + left.width() + 1),
            ),
        }
    }
}

/// The shape of a statement.
pub ghost enum Sentence {
    /// `var name : type ;`, or `var name : type = expression ;`.
    Variable { value: Option<Phrase> },
    /// `const name : type = expression ;`.
    Constant { value: Phrase },
    /// `func name ( parameters ) -> type`, then `;` or a block of statements.
    Function { parameters: nat, body: Option<Seq<Sentence>> },
    /// A call and `;`.
    Invocation { call: Phrase },
    /// `name ::` and a call statement or another qualified one.
    Qualified { inner: Box<Sentence> },
}

/// The number of tokens of `n` parameters and the `)` after them.
pub open spec fn parameters_width(n: nat) -> nat {
    if n == 0 {
        1
    } else {
        4 * n
    }
}

/// Whether the tokens from `j` on spell `n` parameters, `n` at least 1:
/// each is `name : type`, a comma follows each but the last, and `)`
/// follows the last.
pub open spec fn spells_parameters(ts: Seq<TokenView>, j: int, n: nat) -> bool
    decreases n,
{
    &&& kind_at(ts, j) == TokenKind::Identifier
    &&& kind_at(ts, j + 1) == TokenKind::Colon
    &&& type_at(ts, j + 2) is Some
    &&& if n <= 1 {
        kind_at(ts, j + 3) == TokenKind::RightParen
    } else {
        kind_at(ts, j + 3) == TokenKind::Comma && spells_parameters(ts, j + 4, (n - 1) as nat)
    }
}

/// The `n` parameters that the tokens from `j` on give.
pub open spec fn parameter_trees(ts: Seq<TokenView>, j: int, n: nat) -> Seq<FuncParamView>
    decreases n,
{
    if n == 0 {
        Seq::empty()
    } else {
        seq![FuncParamView { name: ts[j].value, ty: type_at(ts, j + 2)->0 }] + parameter_trees(
            ts,
            j + 4,
            (n - 1) as nat,
        )
    }
}

/// The number of tokens of the statements from `from` on.
pub open spec fn sentences_width(list: Seq<Sentence>, from: int) -> nat
    decreases list, list.len() - from,
{
    if 0 <= from < list.len() {
        list[from].width() + sentences_width(list, from + 1)
    } else {
        0
    }
}

/// The kind of the token that ends a list of statements: `Eof` at the top
/// level, `}` in a block.
pub open spec fn closing(top: bool) -> TokenKind {
    if top {
        TokenKind::Eof
    } else {
        TokenKind::RightBrace
    }
}

/// Whether the tokens from `j` on spell the statements from `from` on,
/// each one that may stand there, and then the token that ends the list.
pub open spec fn spells_sentences(
    list: Seq<Sentence>,
    from: int,
    ts: Seq<TokenView>,
    j: int,
    top: bool,
) -> bool
    decreases list, list.len() - from,
{
    if 0 <= from < list.len() {
        &&& list[from].stands(top)
        &&& list[from].spelled(ts, j)
        &&& spells_sentences(list, from + 1, ts, j + list[from].width(), top)
    } else {
        kind_at(ts, j) == closing(top)
    }
}

/// The trees of the statements from `from` on, the first at `j`.
pub open spec fn sentence_trees(list: Seq<Sentence>, from: int, ts: Seq<TokenView>, j: int) -> Seq<
    StatementView,
>
    decreases list, list.len() - from,
{
    if 0 <= from < list.len() {
        seq![list[from].tree(ts, j)] + sentence_trees(list, from + 1, ts, j + list[from].width())
    } else {
        Seq::empty()
    }
}

impl Sentence {
    /// Whether the statement may stand at the top level (a declaration) or
    /// in a block (a variable, a constant, or a statement that begins with
    /// an identifier).
    pub open spec fn stands(self, top: bool) -> bool {
        if top {
            self is Variable || self is Constant || self is Function
        } else {
            self is Variable || self is Constant || self is Invocation || self is Qualified
        }
    }

    /// The number of tokens of the statement.
    pub open spec fn width(self) -> nat
        decreases self, 0int,
    {
        match self {
            Sentence::Variable { value: None } => 5,
            Sentence::Variable { value: Some(e) } => 6 + e.width(),
            Sentence::Constant { value } => 6 + value.width(),
            Sentence::Function { parameters, body: None } => 6 + parameters_width(parameters),
            Sentence::Function { parameters, body: Some(list) } => 7 + parameters_width(parameters)
                + sentences_width(list, 0),
            Sentence::Invocation { call } => call.width() + 1,
            Sentence::Qualified { inner } => 2 + inner.width(),
        }
    }

    /// Whether the tokens from `i` on spell the statement.
    pub open spec fn spelled(self, ts: Seq<TokenView>, i: int) -> bool
        decreases self, 0int,
    {
        match self {
            Sentence::Variable { value } => {
                &&& kind_at(ts, i) == TokenKind::KwVar
                &&& kind_at(ts, i + 1) == TokenKind::Identifier
                &&& kind_at(ts, i + 2) == TokenKind::Colon
                &&& type_at(ts, i + 3) is Some
                &&& match value {
                    None => kind_at(ts, i + 4) == TokenKind::Semicolon,
                    Some(e) => {
                        &&& kind_at(ts, i + 4) == TokenKind::OpAssign
                        &&& e.spelled(ts, i + 5)
                        &&& kind_at(ts, i + 5 + e.width()) == TokenKind::Semicolon
                    },
                }
            },
            Sentence::Constant { value } => {
                &&& kind_at(ts, i) == TokenKind::KwConst
                &&& kind_at(ts, i + 1) == TokenKind::Identifier
                &&& kind_at(ts, i + 2) == TokenKind::Colon
                &&& type_at(ts, i + 3) is Some
                &&& kind_at(ts, i + 4) == TokenKind::OpAssign
                &&& value.spelled(ts, i + 5)
                &&& kind_at(ts, i + 5 + value.width()) == TokenKind::Semicolon
            },
            Sentence::Function { parameters, body } => {
                let close = i + 2 + parameters_width(parameters);
                &&& kind_at(ts, i) == TokenKind::KwFunc
                &&& kind_at(ts, i + 1) == TokenKind::Identifier
                &&& kind_at(ts, i + 2) == TokenKind::LeftParen
                &&& if parameters == 0 {
                    kind_at(ts, i + 3) == TokenKind::RightParen
                } else {
                    spells_parameters(ts, i + 3, parameters)
                }
                &&& kind_at(ts, close + 1) == TokenKind::OpArrow
                &&& type_at(ts, close + 2) is Some
                &&& match body {
                    None => kind_at(ts, close + 3) == TokenKind::Semicolon,
                    Some(list) => {
                        &&& kind_at(ts, close + 3) == TokenKind::LeftBrace
                        &&& spells_sentences(list, 0, ts, close + 4, false)
                    },
                }
            },
            Sentence::Invocation { call } => {
                &&& call is Call
                &&& call.spelled(ts, i)
                &&& kind_at(ts, i + call.width()) == TokenKind::Semicolon
            },
            Sentence::Qualified { inner } => {
                &&& kind_at(ts, i) == TokenKind::Identifier
                &&& kind_at(ts, i + 1) == TokenKind::ColonColon
                &&& (*inner is Invocation || *inner is Qualified)
                &&& inner.spelled(ts, i + 2)
            },
        }
    }

    /// The tree that the tokens from `i` on give for the statement.
    pub open spec fn tree(self, ts: Seq<TokenView>, i: int) -> StatementView
        decreases self, 0int,
    {
        match self {
            Sentence::Variable { value } => StatementView::VariableDeclaration {
                start: ts[i].position,
                name: ts[i + 1].value,
                ty: type_at(ts, i + 3)->0,
                value: match value {
                    None => None,
                    Some(e) => Some(e.tree(ts, i + 5)),
                },
            },
            Sentence::Constant { value } => StatementView::ConstantDeclaration {
                start: ts[i].position,
                name: ts[i + 1].value,
                ty: type_at(ts, i + 3)->0,
                value: value.tree(ts, i + 5),
            },
            Sentence::Function { parameters, body } => {
                let close = i + 2 + parameters_width(parameters);
                StatementView::FunctionDeclaration {
                    start: ts[i].position,
                    name: ts[i + 1].value,
                    ty: type_at(ts, close + 2)->0,
                    params: some_parameters(parameter_trees(ts, i + 3, parameters)),
                    body: match body {
                        None => None,
                        Some(list) => Some(sentence_trees(list, 0, ts, close + 4)),
                    },
                }
            },
            Sentence::Invocation { call } => StatementView::FunctionCall {
                start: ts[i].position,
                call: call.tree(ts, i),
            },
            Sentence::Qualified { inner } => StatementView::NamespacePush {
                start: ts[i].position,
                name: ts[i].value,
                push: Box::new(inner.tree(ts, i + 2)),
            },
        }
    }
}

/// A phrase has at least one token.
pub proof fn lemma_width_positive(e: Phrase)
    ensures
        e.width() >= 1,
    decreases e,
{
    match e {
        Phrase::Prefix { operand } => lemma_width_positive(*operand),
        Phrase::Infix { left, right, .. } => {
            lemma_width_positive(*left);
            lemma_width_positive(*right);
        },
        _ => {},
    }
}

/// A phrase begins with an identifier, a literal or a prefix operator.
pub proof fn lemma_first_token(e: Phrase, ts: Seq<TokenView>, i: int)
    requires
        e.spelled(ts, i),
    ensures
        kind_at(ts, i) == TokenKind::Identifier || is_literal(kind_at(ts, i)) || is_prefix(
            kind_at(ts, i),
        ),
    decreases e,
{
    match e {
        Phrase::Infix { left, .. } => lemma_first_token(*left, ts, i),
        _ => {},
    }
}

/// A spelled phrase, followed by no operator of its level's reach, parses
/// at every level from its own on, to its tree and over all its tokens.
pub proof fn lemma_phrase(e: Phrase, ts: Seq<TokenView>, i: int, level: nat)
    requires
        e.spelled(ts, i),
        e.rank() <= level <= 6,
        operator_level(kind_at(ts, i + e.width())) == 0 || operator_level(
            kind_at(ts, i + e.width()),
        ) > level,
    ensures
        binary(ts, i, level) == (Outcome::Done {
            value: e.tree(ts, i),
            span: (e.width() - 1) as nat,
        }),
    decreases e, level, 1int,
{
    lemma_width_positive(e);
    if level == 0 {
        assert(binary(ts, i, 0) == unary(ts, i));
        match e {
            Phrase::Name => {
                assert(unary(ts, i) == primary(ts, i));
                assert(primary(ts, i) == identifier(ts, i));
            },
            Phrase::Literal => {
                assert(unary(ts, i) == primary(ts, i));
            },
            Phrase::Call { arguments } => {
                assert(unary(ts, i) == primary(ts, i));
                assert(primary(ts, i) == identifier(ts, i));
                if arguments.len() > 0 {
                    lemma_arguments(arguments, 0, ts, i, i + 2, Seq::empty());
                    assert(Seq::<ExpressionView>::empty() + argument_trees(arguments, 0, ts, i + 2)
                        =~= argument_trees(arguments, 0, ts, i + 2));
                    lemma_arguments_count(arguments, 0, ts, i + 2);
                }
            },
            Phrase::Prefix { operand } => {
                lemma_phrase(*operand, ts, i + 1, 0);
                assert(binary(ts, i + 1, 0) == unary(ts, i + 1));
            },
            Phrase::Infix { .. } => {},
        }
    } else {
        lemma_phrase_left(e, ts, i, level);
    }
}

/// A spelled phrase parses as the left part of an expression of a level
/// from its own on: what follows it is read as the rest of that level.
pub proof fn lemma_phrase_left(e: Phrase, ts: Seq<TokenView>, i: int, level: nat)
    requires
        e.spelled(ts, i),
        e.rank() <= level,
        1 <= level <= 6,
        operator_level(kind_at(ts, i + e.width())) == 0 || operator_level(
            kind_at(ts, i + e.width()),
        ) >= level,
    ensures
        binary(ts, i, level) == binary_rest(ts, i, i + e.width() - 1, level, e.tree(ts, i)),
    decreases e, level, 0int,
{
    lemma_width_positive(e);
    if e.rank() < level {
        lemma_phrase(e, ts, i, (level - 1) as nat);
    } else {
        match e {
            Phrase::Infix { level: own, left, right } => {
                lemma_width_positive(*left);
                lemma_width_positive(*right);
                lemma_phrase_left(*left, ts, i, level);
                lemma_phrase(*right, ts, i + left.width() + 1, (level - 1) as nat);
            },
            _ => {},
        }
    }
}

/// There are as many trees of arguments as arguments.
pub proof fn lemma_arguments_count(list: Seq<Phrase>, from: int, ts: Seq<TokenView>, j: int)
    requires
        0 <= from <= list.len(),
    ensures
        argument_trees(list, from, ts, j).len() == list.len() - from,
    decreases list.len() - from,
{
    if from < list.len() {
        lemma_arguments_count(list, from + 1, ts, j + list[from].width() + 1);
    }
}

/// Spelled arguments parse to their trees, after those seen, up to the `)`.
pub proof fn lemma_arguments(
    list: Seq<Phrase>,
    from: int,
    ts: Seq<TokenView>,
    origin: int,
    j: int,
    seen: Seq<ExpressionView>,
)
    requires
        0 <= from < list.len(),
        spells_arguments(list, from, ts, j),
    ensures
        arguments(ts, origin, j, seen) == (Outcome::Done {
            value: seen + argument_trees(list, from, ts, j),
            span: (j + arguments_width(list, from) - 1 - origin) as nat,
        }),
    decreases list, list.len() - from, 0int,
{
    let e = list[from];
    let after = j + e.width();
    lemma_width_positive(e);
    lemma_first_token(e, ts, j);
    lemma_rank(e, ts, j);
    lemma_phrase(e, ts, j, 6);
    let all = seen.push(e.tree(ts, j));
    assert(arguments(ts, origin, j, seen) == arguments(ts, origin, after, all));
    if from == list.len() - 1 {
        assert(argument_trees(list, from + 1, ts, after + 1) =~= Seq::empty());
        assert(seen + argument_trees(list, from, ts, j) =~= all);
        assert(arguments_width(list, from + 1) == 0);
        assert(arguments(ts, origin, after, all) == (Outcome::Done {
            value: all,
            span: (after - origin) as nat,
        }));
    } else {
        lemma_arguments(list, from + 1, ts, origin, after + 1, all);
        assert(arguments(ts, origin, after, all) == arguments(ts, origin, after + 1, all));
        assert(seen + argument_trees(list, from, ts, j) =~= all + argument_trees(
            list,
            from + 1,
            ts,
            after + 1,
        ));
    }
}

/// A spelled phrase that no binary operator follows parses as an
/// expression, to its tree and over all its tokens.
pub proof fn lemma_expression(e: Phrase, ts: Seq<TokenView>, i: int)
    requires
        e.spelled(ts, i),
        operator_level(kind_at(ts, i + e.width())) == 0,
    ensures
        expression(ts, i) == (Outcome::Done {
            value: e.tree(ts, i),
            span: (e.width() - 1) as nat,
        }),
{
    lemma_rank(e, ts, i);
    lemma_phrase(e, ts, i, 6);
}

/// The level of a spelled phrase is one of the grammar's.
pub proof fn lemma_rank(e: Phrase, ts: Seq<TokenView>, i: int)
    requires
        e.spelled(ts, i),
    ensures
        e.rank() <= 6,
{
}

/// Whether the token at `i` is an operand by itself: a literal, or an
/// identifier that is no call.
pub open spec fn is_operand(ts: Seq<TokenView>, i: int) -> bool {
    is_literal(kind_at(ts, i)) || (kind_at(ts, i) == TokenKind::Identifier && kind_at(ts, i + 1)
        != TokenKind::LeftParen)
}

/// The tree of the operand at `i`.
pub open spec fn operand_tree(ts: Seq<TokenView>, i: int) -> ExpressionView {
    if kind_at(ts, i) == TokenKind::Identifier {
        ExpressionView::Identifier(ts[i].value)
    } else {
        ExpressionView::Literal { ty: literal_type(ts[i].kind), value: ts[i].value }
    }
}

/// Precedence: in `a + b * c` the product is the right operand of the sum.
/// Where three operands stand with an operator of a looser level between
/// the first two and one of a tighter level between the last two, and no
/// operator of the looser level's reach follows, the expression of the
/// looser level is the looser operator over the first operand and the
/// tighter operator's node, never the tighter operator over the looser one's.
pub proof fn lemma_tighter_operator_is_right_operand(
    ts: Seq<TokenView>,
    i: int,
    looser: nat,
    tighter: nat,
)
    requires
        1 <= tighter < looser <= 6,
        is_operand(ts, i),
        is_operator(looser, kind_at(ts, i + 1)),
        is_operand(ts, i + 2),
        is_operator(tighter, kind_at(ts, i + 3)),
        is_operand(ts, i + 4),
        operator_level(kind_at(ts, i + 5)) == 0 || operator_level(kind_at(ts, i + 5)) > looser,
    ensures
        binary(ts, i, looser) == (Outcome::Done {
            value: combine(
                looser,
                ts[i + 1].kind,
                operand_tree(ts, i),
                combine(tighter, ts[i + 3].kind, operand_tree(ts, i + 2), operand_tree(ts, i + 4)),
            ),
            span: 4,
        }),
{
    let leaf = |k: int|
        if kind_at(ts, k) == TokenKind::Identifier {
            Phrase::Name
        } else {
            Phrase::Literal
        };
    let product = Phrase::Infix {
        level: tighter,
        left: Box::new(leaf(i + 2)),
        right: Box::new(leaf(i + 4)),
    };
    let sum = Phrase::Infix { level: looser, left: Box::new(leaf(i)), right: Box::new(product) };
    assert(leaf(i).spelled(ts, i) && leaf(i).width() == 1);
    assert(leaf(i + 2).spelled(ts, i + 2) && leaf(i + 2).width() == 1);
    assert(leaf(i + 4).spelled(ts, i + 4) && leaf(i + 4).width() == 1);
    assert(product.width() == 3);
    assert(product.spelled(ts, i + 2));
    assert(sum.width() == 5);
    assert(sum.spelled(ts, i));
    assert(leaf(i).tree(ts, i) == operand_tree(ts, i));
    assert(leaf(i + 2).tree(ts, i + 2) == operand_tree(ts, i + 2));
    assert(leaf(i + 4).tree(ts, i + 4) == operand_tree(ts, i + 4));
    assert(product.tree(ts, i + 2) == combine(
        tighter,
        ts[i + 3].kind,
        operand_tree(ts, i + 2),
        operand_tree(ts, i + 4),
    ));
    lemma_phrase(sum, ts, i, looser);
}

/// Precedence of `*` over `+`: the sum is the root, the product its right operand.
pub proof fn lemma_product_is_right_operand_of_sum(ts: Seq<TokenView>, i: int)
    requires
        is_operand(ts, i),
        is_operator(2, kind_at(ts, i + 1)),
        is_operand(ts, i + 2),
        is_operator(1, kind_at(ts, i + 3)),
        is_operand(ts, i + 4),
        operator_level(kind_at(ts, i + 5)) == 0,
    ensures
        binary(ts, i, 2) == (Outcome::Done {
            value: ExpressionView::Binary {
                operator: ts[i + 1].kind,
                left: Box::new(operand_tree(ts, i)),
                right: Box::new(
                    ExpressionView::Binary {
                        operator: ts[i + 3].kind,
                        left: Box::new(operand_tree(ts, i + 2)),
                        right: Box::new(operand_tree(ts, i + 4)),
                    },
                ),
            },
            span: 4,
        }),
        expression(ts, i) == binary(ts, i, 2),
{
    lemma_tighter_operator_is_right_operand(ts, i, 2, 1);
    let value = combine(
        2,
        ts[i + 1].kind,
        operand_tree(ts, i),
        combine(1, ts[i + 3].kind, operand_tree(ts, i + 2), operand_tree(ts, i + 4)),
    );
    assert(binary(ts, i, 3) == binary_rest(ts, i, i + 4, 3, value));
    assert(binary(ts, i, 4) == binary_rest(ts, i, i + 4, 4, value));
    assert(binary(ts, i, 5) == binary_rest(ts, i, i + 4, 5, value));
    assert(binary(ts, i, 6) == binary_rest(ts, i, i + 4, 6, value));
}

/// A statement has at least one token.
pub proof fn lemma_sentence_width_positive(s: Sentence)
    ensures
        s.width() >= 1,
{
}

/// A spelled variable or constant declaration parses to its tree, over
/// all its tokens.
pub proof fn lemma_declaration(s: Sentence, ts: Seq<TokenView>, i: int)
    requires
        s is Variable || s is Constant,
        s.spelled(ts, i),
    ensures
        declaration(ts, i, s is Constant) == (Outcome::Done {
            value: s.tree(ts, i),
            span: (s.width() - 1) as nat,
        }),
{
    match s {
        Sentence::Variable { value: Some(e) } => {
            lemma_width_positive(e);
            lemma_expression(e, ts, i + 5);
        },
        Sentence::Constant { value } => {
            lemma_width_positive(value);
            lemma_expression(value, ts, i + 5);
        },
        _ => {},
    }
}

/// A spelled statement that begins with an identifier parses to its
/// tree, over all its tokens.
pub proof fn lemma_identifier_statement(s: Sentence, ts: Seq<TokenView>, i: int)
    requires
        s is Invocation || s is Qualified,
        s.spelled(ts, i),
    ensures
        identifier_statement(ts, i) == (Outcome::Done {
            value: s.tree(ts, i),
            span: (s.width() - 1) as nat,
        }),
    decreases s,
{
    match s {
        Sentence::Invocation { call: shape } => {
            lemma_width_positive(shape);
            lemma_phrase(shape, ts, i, 0);
            assert(binary(ts, i, 0) == unary(ts, i));
            assert(unary(ts, i) == primary(ts, i));
            assert(primary(ts, i) == identifier(ts, i));
            assert(identifier(ts, i) == call(ts, i));
        },
        Sentence::Qualified { inner } => {
            lemma_identifier_statement(*inner, ts, i + 2);
        },
        _ => {},
    }
}

/// Spelled parameters parse to their views, after those seen, up to the `)`.
pub proof fn lemma_parameters(
    ts: Seq<TokenView>,
    origin: int,
    j: int,
    n: nat,
    seen: Seq<FuncParamView>,
)
    requires
        n >= 1,
        spells_parameters(ts, j, n),
    ensures
        parameters(ts, origin, j, seen) == (Outcome::Done {
            value: seen + parameter_trees(ts, j, n),
            span: (j + 4 * n - 1 - origin) as nat,
        }),
    decreases n,
{
    let all = seen.push(FuncParamView { name: ts[j].value, ty: type_at(ts, j + 2)->0 });
    if n == 1 {
        assert(parameter_trees(ts, j + 4, 0) =~= Seq::empty());
        assert(seen + parameter_trees(ts, j, n) =~= all);
    } else {
        lemma_parameters(ts, origin, j + 4, (n - 1) as nat, all);
        assert(seen + parameter_trees(ts, j, n) =~= all + parameter_trees(
            ts,
            j + 4,
            (n - 1) as nat,
        ));
    }
}

/// Spelled statements of a block parse to their trees, after those seen,
/// up to the `}`.
pub proof fn lemma_block_items(
    list: Seq<Sentence>,
    from: int,
    ts: Seq<TokenView>,
    origin: int,
    j: int,
    seen: Seq<StatementView>,
)
    requires
        0 <= from <= list.len(),
        spells_sentences(list, from, ts, j, false),
    ensures
        block_items(ts, origin, j, seen) == (Outcome::Done {
            value: seen + sentence_trees(list, from, ts, j),
            span: (j + sentences_width(list, from) - origin) as nat,
        }),
    decreases list.len() - from,
{
    if from == list.len() {
        assert(seen + sentence_trees(list, from, ts, j) =~= seen);
    } else {
        let s = list[from];
        let all = seen.push(s.tree(ts, j));
        lemma_sentence_width_positive(s);
        assert(s.spelled(ts, j));
        if s is Variable || s is Constant {
            lemma_declaration(s, ts, j);
            assert(block_statement(ts, j) == declaration(ts, j, s is Constant));
        } else {
            lemma_identifier_statement(s, ts, j);
            assert(kind_at(ts, j) == TokenKind::Identifier);
            assert(block_statement(ts, j) == identifier_statement(ts, j));
        }
        assert(block_statement(ts, j) == (Outcome::Done {
            value: s.tree(ts, j),
            span: (s.width() - 1) as nat,
        }));
        lemma_block_items(list, from + 1, ts, origin, j + s.width(), all);
        assert(block_items(ts, origin, j, seen) == block_items(ts, origin, j + s.width(), all));
        assert(seen + sentence_trees(list, from, ts, j) =~= all + sentence_trees(
            list,
            from + 1,
            ts,
            j + s.width(),
        ));
    }
}

/// A spelled function declaration parses to its tree, over all its tokens.
pub proof fn lemma_function(s: Sentence, ts: Seq<TokenView>, i: int)
    requires
        s is Function,
        s.spelled(ts, i),
    ensures
        function_statement(ts, i) == (Outcome::Done {
            value: s.tree(ts, i),
            span: (s.width() - 1) as nat,
        }),
{
    let n = s->Function_parameters;
    let close = i + 2 + parameters_width(n);
    if n == 0 {
        assert(parameter_trees(ts, i + 3, 0) =~= Seq::empty());
    } else {
        lemma_parameters(ts, i + 2, i + 3, n, Seq::empty());
        assert(Seq::<FuncParamView>::empty() + parameter_trees(ts, i + 3, n) =~= parameter_trees(
            ts,
            i + 3,
            n,
        ));
    }
    assert(parameter_list(ts, i + 2) == (Outcome::Done {
        value: parameter_trees(ts, i + 3, n),
        span: parameters_width(n),
    }));
    match s->Function_body {
        None => {},
        Some(list) => {
            lemma_block_items(list, 0, ts, close + 3, close + 4, Seq::empty());
            assert(Seq::<StatementView>::empty() + sentence_trees(list, 0, ts, close + 4)
                =~= sentence_trees(list, 0, ts, close + 4));
            assert(block(ts, close + 3) == (Outcome::Done {
                value: sentence_trees(list, 0, ts, close + 4),
                span: (1 + sentences_width(list, 0)) as nat,
            }));
        },
    }
    assert(function_statement(ts, i) == function_tail(
        ts,
        i,
        close,
        parameter_trees(ts, i + 3, n),
    ));
}

/// Spelled top-level declarations, up to `Eof`, parse to their trees,
/// after those seen, with no diagnostic.
pub proof fn lemma_program_items(
    list: Seq<Sentence>,
    from: int,
    ts: Seq<TokenView>,
    j: int,
    seen: Seq<StatementView>,
)
    requires
        0 <= from <= list.len(),
        spells_sentences(list, from, ts, j, true),
    ensures
        program_items(ts, j, seen) == (Parse {
            body: seen + sentence_trees(list, from, ts, j),
            diagnostics: Seq::empty(),
        }),
    decreases list.len() - from,
{
    if from == list.len() {
        assert(seen + sentence_trees(list, from, ts, j) =~= seen);
    } else {
        let s = list[from];
        let all = seen.push(s.tree(ts, j));
        lemma_sentence_width_positive(s);
        assert(s.spelled(ts, j));
        if s is Function {
            lemma_function(s, ts, j);
            assert(top_statement(ts, j) == function_statement(ts, j));
        } else {
            lemma_declaration(s, ts, j);
            assert(top_statement(ts, j) == declaration(ts, j, s is Constant));
        }
        assert(top_statement(ts, j) == (Outcome::Done {
            value: s.tree(ts, j),
            span: (s.width() - 1) as nat,
        }));
        lemma_program_items(list, from + 1, ts, j + s.width(), all);
        assert(program_items(ts, j, seen) == program_items(ts, j + s.width(), all));
        assert(seen + sentence_trees(list, from, ts, j) =~= all + sentence_trees(
            list,
            from + 1,
            ts,
            j + s.width(),
        ));
    }
}

/// There are as many trees of statements as statements.
pub proof fn lemma_sentences_count(list: Seq<Sentence>, from: int, ts: Seq<TokenView>, j: int)
    requires
        0 <= from <= list.len(),
    ensures
        sentence_trees(list, from, ts, j).len() == list.len() - from,
    decreases list.len() - from,
{
    if from < list.len() {
        lemma_sentences_count(list, from + 1, ts, j + list[from].width());
    }
}

/// A well-formed program parses without a diagnostic, to one statement for
/// each of its top-level declarations: where the tokens spell a list of
/// `var`, `const` and `func` declarations and then `Eof`, the parse has
/// no diagnostic and its body is the list of the declarations' trees.
pub proof fn lemma_well_formed_program(list: Seq<Sentence>, ts: Seq<TokenView>)
    requires
        spells_sentences(list, 0, ts, 0, true),
    ensures
        program(ts).diagnostics.len() == 0,
        program(ts).body.len() == list.len(),
        program(ts).body == sentence_trees(list, 0, ts, 0),
{
    lemma_program_items(list, 0, ts, 0, Seq::empty());
    lemma_sentences_count(list, 0, ts, 0);
    assert(Seq::<StatementView>::empty() + sentence_trees(list, 0, ts, 0) =~= sentence_trees(
        list,
        0,
        ts,
        0,
    ));
}

} // verus!
