pub mod types;

use vstd::prelude::*;

verus! {

/// A location in a source text: line and column, both counted from zero.
#[derive(Debug, Clone, Copy, PartialEq, Eq, Structural)]
pub struct Position {
    pub line: usize,
    pub column: usize,
}

impl Position {
    pub fn new(line: usize, column: usize) -> (position: Self)
        ensures
            position.line == line,
            position.column == column,
    {
        Position { line, column }
    }
}

} // verus!
