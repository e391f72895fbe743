use crate::handling::{message_views, Message, MessageKind, MessageView};
use crate::parser::statements::{statements_model, Statement, StatementView};
use crate::state::host_error;
use vstd::prelude::*;
use vstd::string::StringExecFns;

verus! {

/// Walks a parsed program and says, statement by statement, what is to be
/// evaluated.
pub struct Evaluator {
    pub parser_output: Statement,
    pub output: Vec<Message>,
}

/// One step of an evaluation: the kind of declaration to evaluate, and
/// its index in the program's body.
#[derive(Debug, Clone, Copy, PartialEq, Eq, Structural)]
pub enum Evaluation {
    Variable(usize),
    Constant(usize),
    Function(usize),
}

/// What an evaluation gives: the steps, in order, and the diagnostics.
pub ghost struct Evaluated {
    pub steps: Seq<Evaluation>,
    pub diagnostics: Seq<MessageView>,
}

/// The error for a tree that cannot be evaluated.
pub open spec fn invalid_ast() -> MessageView {
    host_error("Invalid AST"@)
}

/// The step for the statement at `i`, if it is a declaration.
pub open spec fn step_of(statement: StatementView, i: int) -> Option<Evaluation> {
    match statement {
        StatementView::VariableDeclaration { .. } => Some(Evaluation::Variable(i as usize)),
        StatementView::ConstantDeclaration { .. } => Some(Evaluation::Constant(i as usize)),
        StatementView::FunctionDeclaration { .. } => Some(Evaluation::Function(i as usize)),
        _ => None,
    }
}

/// The evaluation of the statements of `body` from `i` on, after `seen`:
/// each declaration gives a step; the first statement that is none ends
/// the evaluation with the error "Invalid AST".
pub open spec fn walk(body: Seq<StatementView>, i: int, seen: Seq<Evaluation>) -> Evaluated
    decreases body.len() - i,
{
    if i < 0 || i >= body.len() {
        Evaluated { steps: seen, diagnostics: Seq::empty() }
    } else {
        match step_of(body[i], i) {
            Some(step) => walk(body, i + 1, seen.push(step)),
            None => Evaluated { steps: seen, diagnostics: seq![invalid_ast()] },
        }
    }
}

/// The evaluation of a tree: of a program, the walk of its body; of
/// anything else, the error "Invalid AST".
pub open spec fn evaluated(tree: StatementView) -> Evaluated {
    match tree {
        StatementView::Program { body, .. } => walk(body, 0, Seq::empty()),
        _ => Evaluated { steps: Seq::empty(), diagnostics: seq![invalid_ast()] },
    }
}

/// Whether the statements of `body` from `i` on can be evaluated: the
/// first one that is no declaration is not a variable alteration, which
/// the evaluator does not implement.
pub open spec fn is_implemented(body: Seq<StatementView>, i: int) -> bool
    decreases body.len() - i,
{
    if i < 0 || i >= body.len() {
        true
    } else if step_of(body[i], i) is Some {
        is_implemented(body, i + 1)
    } else {
        !(body[i] is VariableAlteration)
    }
}

/// Whether a tree can be evaluated.
pub open spec fn can_evaluate(tree: StatementView) -> bool {
    tree matches StatementView::Program { body, .. } ==> is_implemented(body, 0)
}

impl Evaluator {
    pub fn new(parser_output: Statement) -> (evaluator: Self)
        ensures
            evaluator.parser_output == parser_output,
            evaluator.output@.len() == 0,
    {
        Self { parser_output, output: Vec::new() }
    }

    /// Whether `evaluate` can be called: the tree asks for nothing that is
    /// not implemented.
    pub fn is_supported(&self) -> (is: bool)
        ensures
            is == can_evaluate(self.parser_output@),
    {
        match &self.parser_output {
            Statement::Program { body, .. } => {
                let ghost all = self.parser_output@->Program_body;
                proof {
                    reveal_with_fuel(Statement::model, 2);
                    reveal_with_fuel(statements_model, 2);
                }
                let mut i: usize = 0;
                while i < body.len()
                    invariant
                        i <= body.len(),
                        all.len() == body.len(),
                        forall|k: int| 0 <= k < body.len() ==> all[k] == body@[k]@,
                        self.parser_output@ is Program,
                        self.parser_output@->Program_body == all,
                        is_implemented(all, i as int) == is_implemented(all, 0),
                    decreases body.len() - i,
                {
                    match &body[i] {
                        Statement::VariableDeclaration { .. } => {},
                        Statement::ConstantDeclaration { .. } => {},
                        Statement::FunctionDeclaration { .. } => {},
                        Statement::VariableAlteration { .. } => {
                            return false;
                        },
                        _ => {
                            return true;
                        },
                    }
                    i = i + 1;
                }
                true
            },
            _ => true,
        }
    }

    /// Evaluates the tree: the steps to take, in order. Diagnostics are
    /// added to `output`.
    pub fn evaluate(&mut self) -> (steps: Vec<Evaluation>)
        requires
            can_evaluate(old(self).parser_output@),
        ensures
            final(self).parser_output == old(self).parser_output,
            steps@ == evaluated(old(self).parser_output@).steps,
            message_views(final(self).output@) == message_views(old(self).output@) + evaluated(
                old(self).parser_output@,
            ).diagnostics,
    {
        let mut steps: Vec<Evaluation> = Vec::new();
        let mut valid: bool = true;
        match &self.parser_output {
            Statement::Program { body, .. } => {
                let ghost all = self.parser_output@->Program_body;
                proof {
                    reveal_with_fuel(Statement::model, 2);
                    reveal_with_fuel(statements_model, 2);
                }
                let mut i: usize = 0;
                while i < body.len()
                    invariant_except_break
                        valid,
                        walk(all, i as int, steps@) == walk(all, 0, Seq::empty()),
                    invariant
                        i <= body.len(),
                        all.len() == body.len(),
                        forall|k: int| 0 <= k < body.len() ==> all[k] == body@[k]@,
                    ensures
                        valid ==> walk(all, 0, Seq::empty()) == (Evaluated {
                            steps: steps@,
                            diagnostics: Seq::empty(),
                        }),
                        !valid ==> walk(all, 0, Seq::empty()) == (Evaluated {
                            steps: steps@,
                            diagnostics: seq![invalid_ast()],
                        }),
                    decreases body.len() - i,
                {
                    match &body[i] {
                        Statement::VariableDeclaration { .. } => {
                            steps.push(Evaluation::Variable(i));
                        },
                        Statement::ConstantDeclaration { .. } => {
                            steps.push(Evaluation::Constant(i));
                        },
                        Statement::FunctionDeclaration { .. } => {
                            steps.push(Evaluation::Function(i));
                        },
                        _ => {
                            valid = false;
                            break ;
                        },
                    }
                    i = i + 1;
                }
            },
            _ => {
                valid = false;
            },
        }
        if !valid {
            let message = Message::new(MessageKind::Error, String::from_str("Invalid AST"), None);
            self.output.push(message);
            assert(message_views(self.output@) =~= message_views(old(self).output@) + seq![
                invalid_ast(),
            ]);
        } else {
            assert(message_views(self.output@) =~= message_views(old(self).output@)
                + Seq::<MessageView>::empty());
        }
        steps
    }
}

} // verus!
