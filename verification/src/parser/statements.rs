use crate::internals::types::{Types, TypesView};
use crate::internals::Position;
use crate::lexer::tokens::TokenKind;
use vstd::prelude::*;

verus! {

/// A statement of the language. Every variant carries the position of its
/// leading token.
#[derive(Debug, PartialEq)]
pub enum Statement {
    Program { start: Position, body: Box<Vec<Statement>> },
    VariableDeclaration { start: Position, name: String, ty: Types, value: Option<Expression> },
    ConstantDeclaration { start: Position, name: String, ty: Types, value: Expression },
    FunctionDeclaration {
        start: Position,
        name: String,
        ty: Types,
        params: Option<Vec<FuncParam>>,
        body: Option<Box<Vec<Statement>>>,
    },
    If {
        start: Position,
        condition: Expression,
        body: Option<Box<Vec<Statement>>>,
        alternate: Option<Box<Vec<Statement>>>,
    },
    ElseIf {
        start: Position,
        condition: Expression,
        body: Option<Box<Vec<Statement>>>,
        alternate: Option<Box<Vec<Statement>>>,
    },
    Else { start: Position, body: Option<Box<Vec<Statement>>> },
    While { start: Position, condition: Expression, body: Option<Box<Vec<Statement>>> },
    For {
        start: Position,
        variable: Option<Box<Statement>>,
        condition: Option<Expression>,
        variable_update: Option<Box<Statement>>,
        body: Option<Box<Vec<Statement>>>,
        alternate: Option<Box<Vec<Statement>>>,
    },
    Break { start: Position },
    Continue { start: Position },
    Return { start: Position, expression: Option<Expression> },
    VariableAlteration { start: Position, name: String, operator: TokenKind, value: Expression },
    FunctionCall { start: Position, call: Expression },
    NamespacePush { start: Position, name: String, push: Box<Statement> },
}

#[derive(Debug, Clone, Copy, PartialEq, Eq, Structural)]
pub enum Loop {
    Yes,
    No,
}

/// A parameter of a function: its name and its type.
#[derive(Debug, PartialEq)]
pub struct FuncParam {
    pub name: String,
    pub ty: Types,
}

#[derive(Debug, PartialEq)]
pub enum ArrayAcess {
    Acess { name: String, index: Box<Expression> },
    NestedAcess { acess: Box<ArrayAcess>, index: Box<Expression> },
}

/// An expression. `Binary`, `Logical` and `Unary` carry the kind of their
/// operator token.
#[derive(Debug, PartialEq)]
pub enum Expression {
    Identifier(String),
    Binary { operator: TokenKind, left: Box<Expression>, right: Box<Expression> },
    Logical { operator: TokenKind, left: Box<Expression>, right: Box<Expression> },
    Unary { operator: TokenKind, operand: Box<Expression> },
    Literal { ty: TokenKind, value: String },
    ArrayLiteral { elements: Option<Box<Vec<Expression>>> },
    ArrayAcess(ArrayAcess),
    Call { name: String, arguments: Option<Box<Vec<Expression>>> },
}

#[derive(Debug, Clone, Copy, PartialEq, Eq, Structural)]
pub enum LiteralType {
    Numeric,
    String,
    Boolean,
}

pub ghost struct FuncParamView {
    pub name: Seq<char>,
    pub ty: TypesView,
}

pub ghost enum ArrayAcessView {
    Acess { name: Seq<char>, index: Box<ExpressionView> },
    NestedAcess { acess: Box<ArrayAcessView>, index: Box<ExpressionView> },
}

/// An expression as a mathematical tree: names and literal texts are
/// sequences of characters, lists are sequences.
pub ghost enum ExpressionView {
    Identifier(Seq<char>),
    Binary { operator: TokenKind, left: Box<ExpressionView>, right: Box<ExpressionView> },
    Logical { operator: TokenKind, left: Box<ExpressionView>, right: Box<ExpressionView> },
    Unary { operator: TokenKind, operand: Box<ExpressionView> },
    Literal { ty: TokenKind, value: Seq<char> },
    ArrayLiteral { elements: Option<Seq<ExpressionView>> },
    ArrayAcess(ArrayAcessView),
    Call { name: Seq<char>, arguments: Option<Seq<ExpressionView>> },
}

/// A statement as a mathematical tree.
pub ghost enum StatementView {
    Program { start: Position, body: Seq<StatementView> },
    VariableDeclaration {
        start: Position,
        name: Seq<char>,
        ty: TypesView,
        value: Option<ExpressionView>,
    },
    ConstantDeclaration { start: Position, name: Seq<char>, ty: TypesView, value: ExpressionView },
    FunctionDeclaration {
        start: Position,
        name: Seq<char>,
        ty: TypesView,
        params: Option<Seq<FuncParamView>>,
        body: Option<Seq<StatementView>>,
    },
    If {
        start: Position,
        condition: ExpressionView,
        body: Option<Seq<StatementView>>,
        alternate: Option<Seq<StatementView>>,
    },
    ElseIf {
        start: Position,
        condition: ExpressionView,
        body: Option<Seq<StatementView>>,
        alternate: Option<Seq<StatementView>>,
    },
    Else { start: Position, body: Option<Seq<StatementView>> },
    While { start: Position, condition: ExpressionView, body: Option<Seq<StatementView>> },
    For {
        start: Position,
        variable: Option<Box<StatementView>>,
        condition: Option<ExpressionView>,
        variable_update: Option<Box<StatementView>>,
        body: Option<Seq<StatementView>>,
        alternate: Option<Seq<StatementView>>,
    },
    Break { start: Position },
    Continue { start: Position },
    Return { start: Position, expression: Option<ExpressionView> },
    VariableAlteration {
        start: Position,
        name: Seq<char>,
        operator: TokenKind,
        value: ExpressionView,
    },
    FunctionCall { start: Position, call: ExpressionView },
    NamespacePush { start: Position, name: Seq<char>, push: Box<StatementView> },
}

impl View for FuncParam {
    type V = FuncParamView;

    open spec fn view(&self) -> FuncParamView {
        FuncParamView { name: self.name@, ty: self.ty@ }
    }
}

/// The views of a sequence of parameters, in order.
pub open spec fn param_views(params: Seq<FuncParam>) -> Seq<FuncParamView> {
    params.map_values(|p: FuncParam| p@)
}

/// The views of a list of expressions, in order.
pub open spec fn expressions_model(items: Vec<Expression>) -> Seq<ExpressionView>
    decreases items,
{
    Seq::new(
        items@.len(),
        |i: int|
            if 0 <= i < items@.len() {
                items@[i].model()
            } else {
                ExpressionView::Identifier(Seq::empty())
            },
    )
}

/// The views of an optional list of expressions.
pub open spec fn optional_expressions_model(items: Option<Box<Vec<Expression>>>) -> Option<
    Seq<ExpressionView>,
>
    decreases items,
{
    match items {
        None => None,
        Some(list) => Some(expressions_model(*list)),
    }
}

impl ArrayAcess {
    pub open spec fn model(&self) -> ArrayAcessView
        decreases self,
    {
        match self {
            ArrayAcess::Acess { name, index } => ArrayAcessView::Acess {
                name: name@,
                index: Box::new(index.model()),
            },
            ArrayAcess::NestedAcess { acess, index } => ArrayAcessView::NestedAcess {
                acess: Box::new(acess.model()),
                index: Box::new(index.model()),
            },
        }
    }
}

impl Expression {
    pub open spec fn model(&self) -> ExpressionView
        decreases self,
    {
        match self {
            Expression::Identifier(name) => ExpressionView::Identifier(name@),
            Expression::Binary { operator, left, right } => ExpressionView::Binary {
                operator: *operator,
                left: Box::new(left.model()),
                right: Box::new(right.model()),
            },
            Expression::Logical { operator, left, right } => ExpressionView::Logical {
                operator: *operator,
                left: Box::new(left.model()),
                right: Box::new(right.model()),
            },
            Expression::Unary { operator, operand } => ExpressionView::Unary {
                operator: *operator,
                operand: Box::new(operand.model()),
            },
            Expression::Literal { ty, value } => ExpressionView::Literal { ty: *ty, value: value@ },
            Expression::ArrayLiteral { elements } => ExpressionView::ArrayLiteral {
                elements: optional_expressions_model(*elements),
            },
            Expression::ArrayAcess(acess) => ExpressionView::ArrayAcess(acess.model()),
            Expression::Call { name, arguments } => ExpressionView::Call {
                name: name@,
                arguments: optional_expressions_model(*arguments),
            },
        }
    }
}

impl View for ArrayAcess {
    type V = ArrayAcessView;

    open spec fn view(&self) -> ArrayAcessView {
        self.model()
    }
}

impl View for Expression {
    type V = ExpressionView;

    open spec fn view(&self) -> ExpressionView {
        self.model()
    }
}

/// The view of an optional expression.
pub open spec fn optional_expression_view(value: Option<Expression>) -> Option<ExpressionView> {
    match value {
        None => None,
        Some(e) => Some(e@),
    }
}

/// The views of a list of statements, in order.
pub open spec fn statements_model(items: Vec<Statement>) -> Seq<StatementView>
    decreases items,
{
    Seq::new(
        items@.len(),
        |i: int|
            if 0 <= i < items@.len() {
                items@[i].model()
            } else {
                StatementView::Break { start: Position { line: 0, column: 0 } }
            },
    )
}

/// The views of an optional block of statements.
pub open spec fn block_model(block: Option<Box<Vec<Statement>>>) -> Option<Seq<StatementView>>
    decreases block,
{
    match block {
        None => None,
        Some(list) => Some(statements_model(*list)),
    }
}

/// The view of an optional boxed statement.
pub open spec fn optional_statement_model(statement: Option<Box<Statement>>) -> Option<
    Box<StatementView>,
>
    decreases statement,
{
    match statement {
        None => None,
        Some(s) => Some(Box::new(s.model())),
    }
}

impl Statement {
    pub open spec fn model(&self) -> StatementView
        decreases self,
    {
        match self {
            Statement::Program { start, body } => StatementView::Program {
                start: *start,
                body: statements_model(**body),
            },
            Statement::VariableDeclaration { start, name, ty, value } => {
                StatementView::VariableDeclaration {
                    start: *start,
                    name: name@,
                    ty: ty@,
                    value: optional_expression_view(*value),
                }
            },
            Statement::ConstantDeclaration { start, name, ty, value } => {
                StatementView::ConstantDeclaration {
                    start: *start,
                    name: name@,
                    ty: ty@,
                    value: value@,
                }
            },
            Statement::FunctionDeclaration { start, name, ty, params, body } => {
                StatementView::FunctionDeclaration {
                    start: *start,
                    name: name@,
                    ty: ty@,
                    params: match params {
                        None => None,
                        Some(list) => Some(param_views(list@)),
                    },
                    body: block_model(*body),
                }
            },
            Statement::If { start, condition, body, alternate } => StatementView::If {
                start: *start,
                condition: condition@,
                body: block_model(*body),
                alternate: block_model(*alternate),
            },
            Statement::ElseIf { start, condition, body, alternate } => StatementView::ElseIf {
                start: *start,
                condition: condition@,
                body: block_model(*body),
                alternate: block_model(*alternate),
            },
            Statement::Else { start, body } => StatementView::Else {
                start: *start,
                body: block_model(*body),
            },
            Statement::While { start, condition, body } => StatementView::While {
                start: *start,
                condition: condition@,
                body: block_model(*body),
            },
            Statement::For { start, variable, condition, variable_update, body, alternate } => {
                StatementView::For {
                    start: *start,
                    variable: optional_statement_model(*variable),
                    condition: optional_expression_view(*condition),
                    variable_update: optional_statement_model(*variable_update),
                    body: block_model(*body),
                    alternate: block_model(*alternate),
                }
            },
            Statement::Break { start } => StatementView::Break { start: *start },
            Statement::Continue { start } => StatementView::Continue { start: *start },
            Statement::Return { start, expression } => StatementView::Return {
                start: *start,
                expression: optional_expression_view(*expression),
            },
            Statement::VariableAlteration { start, name, operator, value } => {
                StatementView::VariableAlteration {
                    start: *start,
                    name: name@,
                    operator: *operator,
                    value: value@,
                }
            },
            Statement::FunctionCall { start, call } => StatementView::FunctionCall {
                start: *start,
                call: call@,
            },
            Statement::NamespacePush { start, name, push } => StatementView::NamespacePush {
                start: *start,
                name: name@,
                push: Box::new(push.model()),
            },
        }
    }
}

impl View for Statement {
    type V = StatementView;

    open spec fn view(&self) -> StatementView {
        self.model()
    }
}

/// Copies a list of expressions.
fn clone_expressions(items: &Vec<Expression>) -> (copy: Vec<Expression>)
    ensures
        expressions_model(copy) == expressions_model(*items),
    decreases items,
{
    let mut copy: Vec<Expression> = Vec::new();
    let mut i: usize = 0;
    while i < items.len()
        invariant
            i <= items.len(),
            copy@.len() == i,
            forall|k: int| 0 <= k < i ==> copy@[k].model() == items@[k].model(),
        decreases items.len() - i,
    {
        let item = items[i].clone();
        copy.push(item);
        i = i + 1;
    }
    assert(expressions_model(copy) =~= expressions_model(*items));
    copy
}

/// Copies an optional list of expressions.
fn clone_optional_expressions(items: &Option<Box<Vec<Expression>>>) -> (copy: Option<
    Box<Vec<Expression>>,
>)
    ensures
        optional_expressions_model(copy) == optional_expressions_model(*items),
    decreases items,
{
    match items {
        None => None,
        Some(list) => Some(Box::new(clone_expressions(list))),
    }
}

impl Clone for ArrayAcess {
    /// A copy that stands for the same access.
    fn clone(&self) -> (copy: Self)
        ensures
            copy@ == self@,
        decreases self,
    {
        match self {
            ArrayAcess::Acess { name, index } => {
                let index: Expression = (**index).clone();
                ArrayAcess::Acess { name: name.clone(), index: Box::new(index) }
            },
            ArrayAcess::NestedAcess { acess, index } => {
                let acess: ArrayAcess = (**acess).clone();
                let index: Expression = (**index).clone();
                ArrayAcess::NestedAcess { acess: Box::new(acess), index: Box::new(index) }
            },
        }
    }
}

impl Clone for Expression {
    /// A copy that stands for the same expression.
    fn clone(&self) -> (copy: Self)
        ensures
            copy@ == self@,
        decreases self,
    {
        match self {
            Expression::Identifier(name) => Expression::Identifier(name.clone()),
            Expression::Binary { operator, left, right } => {
                let left: Expression = (**left).clone();
                let right: Expression = (**right).clone();
                Expression::Binary {
                    operator: *operator,
                    left: Box::new(left),
                    right: Box::new(right),
                }
            },
            Expression::Logical { operator, left, right } => {
                let left: Expression = (**left).clone();
                let right: Expression = (**right).clone();
                Expression::Logical {
                    operator: *operator,
                    left: Box::new(left),
                    right: Box::new(right),
                }
            },
            Expression::Unary { operator, operand } => {
                let operand: Expression = (**operand).clone();
                Expression::Unary { operator: *operator, operand: Box::new(operand) }
            },
            Expression::Literal { ty, value } => Expression::Literal {
                ty: *ty,
                value: value.clone(),
            },
            Expression::ArrayLiteral { elements } => Expression::ArrayLiteral {
                elements: clone_optional_expressions(elements),
            },
            Expression::ArrayAcess(acess) => Expression::ArrayAcess(acess.clone()),
            Expression::Call { name, arguments } => Expression::Call {
                name: name.clone(),
                arguments: clone_optional_expressions(arguments),
            },
        }
    }
}

impl Clone for FuncParam {
    /// A copy with the same name and a type that stands for the same type.
    fn clone(&self) -> (copy: Self)
        ensures
            copy@ == self@,
    {
        FuncParam { name: self.name.clone(), ty: self.ty.clone() }
    }
}

/// Copies an optional expression.
fn clone_optional_expression(value: &Option<Expression>) -> (copy: Option<Expression>)
    ensures
        optional_expression_view(copy) == optional_expression_view(*value),
{
    match value {
        None => None,
        Some(e) => Some(e.clone()),
    }
}

/// Copies an optional list of parameters.
fn clone_parameters(params: &Option<Vec<FuncParam>>) -> (copy: Option<Vec<FuncParam>>)
    ensures
        copy is Some == params is Some,
        copy is Some ==> param_views(copy->0@) == param_views(params->0@),
{
    match params {
        None => None,
        Some(items) => {
            let mut copy: Vec<FuncParam> = Vec::new();
            let mut i: usize = 0;
            while i < items.len()
                invariant
                    i <= items.len(),
                    copy@.len() == i,
                    forall|k: int| 0 <= k < i ==> copy@[k]@ == items@[k]@,
                decreases items.len() - i,
            {
                let item = items[i].clone();
                copy.push(item);
                i = i + 1;
            }
            assert(param_views(copy@) =~= param_views(items@));
            Some(copy)
        },
    }
}

/// Copies a list of statements.
fn clone_statements(items: &Vec<Statement>) -> (copy: Vec<Statement>)
    ensures
        statements_model(copy) == statements_model(*items),
    decreases items,
{
    let mut copy: Vec<Statement> = Vec::new();
    let mut i: usize = 0;
    while i < items.len()
        invariant
            i <= items.len(),
            copy@.len() == i,
            forall|k: int| 0 <= k < i ==> copy@[k].model() == items@[k].model(),
        decreases items.len() - i,
    {
        let item = items[i].clone();
        copy.push(item);
        i = i + 1;
    }
    assert(statements_model(copy) =~= statements_model(*items));
    copy
}

/// Copies an optional block of statements.
fn clone_block(block: &Option<Box<Vec<Statement>>>) -> (copy: Option<Box<Vec<Statement>>>)
    ensures
        block_model(copy) == block_model(*block),
    decreases block,
{
    match block {
        None => None,
        Some(list) => Some(Box::new(clone_statements(list))),
    }
}

/// Copies an optional boxed statement.
fn clone_optional_statement(statement: &Option<Box<Statement>>) -> (copy: Option<Box<Statement>>)
    ensures
        optional_statement_model(copy) == optional_statement_model(*statement),
    decreases statement,
{
    match statement {
        None => None,
        Some(s) => {
            let inner: Statement = (**s).clone();
            Some(Box::new(inner))
        },
    }
}

impl Clone for Statement {
    /// A copy that stands for the same statement.
    fn clone(&self) -> (copy: Self)
        ensures
            copy@ == self@,
        decreases self,
    {
        match self {
            Statement::Program { start, body } => Statement::Program {
                start: *start,
                body: Box::new(clone_statements(body)),
            },
            Statement::VariableDeclaration { start, name, ty, value } => {
                Statement::VariableDeclaration {
                    start: *start,
                    name: name.clone(),
                    ty: ty.clone(),
                    value: clone_optional_expression(value),
                }
            },
            Statement::ConstantDeclaration { start, name, ty, value } => {
                Statement::ConstantDeclaration {
                    start: *start,
                    name: name.clone(),
                    ty: ty.clone(),
                    value: value.clone(),
                }
            },
            Statement::FunctionDeclaration { start, name, ty, params, body } => {
                Statement::FunctionDeclaration {
                    start: *start,
                    name: name.clone(),
                    ty: ty.clone(),
                    params: clone_parameters(params),
                    body: clone_block(body),
                }
            },
            Statement::If { start, condition, body, alternate } => Statement::If {
                start: *start,
                condition: condition.clone(),
                body: clone_block(body),
                alternate: clone_block(alternate),
            },
            Statement::ElseIf { start, condition, body, alternate } => Statement::ElseIf {
                start: *start,
                condition: condition.clone(),
                body: clone_block(body),
                alternate: clone_block(alternate),
            },
            Statement::Else { start, body } => Statement::Else {
                start: *start,
                body: clone_block(body),
            },
            Statement::While { start, condition, body } => Statement::While {
                start: *start,
                condition: condition.clone(),
                body: clone_block(body),
            },
            Statement::For { start, variable, condition, variable_update, body, alternate } => {
                Statement::For {
                    start: *start,
                    variable: clone_optional_statement(variable),
                    condition: clone_optional_expression(condition),
                    variable_update: clone_optional_statement(variable_update),
                    body: clone_block(body),
                    alternate: clone_block(alternate),
                }
            },
            Statement::Break { start } => Statement::Break { start: *start },
            Statement::Continue { start } => Statement::Continue { start: *start },
            Statement::Return { start, expression } => Statement::Return {
                start: *start,
                expression: clone_optional_expression(expression),
            },
            Statement::VariableAlteration { start, name, operator, value } => {
                Statement::VariableAlteration {
                    start: *start,
                    name: name.clone(),
                    operator: *operator,
                    value: value.clone(),
                }
            },
            Statement::FunctionCall { start, call } => Statement::FunctionCall {
                start: *start,
                call: call.clone(),
            },
            Statement::NamespacePush { start, name, push } => {
                let inner: Statement = (**push).clone();
                Statement::NamespacePush {
                    start: *start,
                    name: name.clone(),
                    push: Box::new(inner),
                }
            },
        }
    }
}

} // verus!
