//! The button grid: which action each cell carries and how the cursor moves.

use vstd::prelude::*;

verus! {

/// Number of rows of the button grid.
pub const ROWS: usize = 5;

/// Number of columns of the button grid.
pub const COLS: usize = 4;

/// The four binary operations of the calculator.
#[derive(Debug, Clone, Copy, PartialEq, Eq, Structural)]
pub enum Operator {
    Add,
    Subtract,
    Multiply,
    Divide,
}

impl Operator {
    /// The character that stands for the operator on screen and on the keyboard.
    pub open spec fn spec_symbol(self) -> char {
        match self {
            Operator::Add => '+',
            Operator::Subtract => '-',
            Operator::Multiply => '*',
            Operator::Divide => '/',
        }
    }

    pub fn symbol(&self) -> (c: char)
        ensures
            c == self.spec_symbol(),
    {
        match self {
            Operator::Add => '+',
            Operator::Subtract => '-',
            Operator::Multiply => '*',
            Operator::Divide => '/',
        }
    }

    /// The operator whose symbol is `c`, if any.
    pub fn from_symbol(c: char) -> (r: Option<Operator>)
        ensures
            r matches Some(op) ==> op.spec_symbol() == c,
            r is None <==> (c != '+' && c != '-' && c != '*' && c != '/'),
    {
        match c {
            '+' => Some(Operator::Add),
            '-' => Some(Operator::Subtract),
            '*' => Some(Operator::Multiply),
            '/' => Some(Operator::Divide),
            _ => None,
        }
    }
}

/// A direction of cursor movement.
#[derive(Debug, Clone, Copy, PartialEq, Eq, Structural)]
pub enum Direction {
    Up,
    Down,
    Left,
    Right,
}

/// What pressing a button does to the calculator.
#[derive(Debug, Clone, Copy, PartialEq, Eq, Structural)]
pub enum Action {
    /// Append a decimal digit (0 to 9) to the operand being typed.
    Digit(u8),
    /// Set the operator, unless one is set already.
    SetOperator(Operator),
    /// Evaluate the expression.
    Evaluate,
    /// Clear the expression and the result.
    Clear,
    /// A blank cell: nothing happens.
    Nothing,
}

impl Action {
    /// A digit action carries a decimal digit.
    pub open spec fn valid(self) -> bool {
        self matches Action::Digit(d) ==> d <= 9
    }
}

/// The cell `(row, col)` lies in the grid.
pub open spec fn in_grid(cell: (usize, usize)) -> bool {
    cell.0 < ROWS && cell.1 < COLS
}

/// The action of the button at `(row, col)`:
/// ```text
///  .    .    .    Clear
///  7    8    9    /
///  4    5    6    *
///  1    2    3    -
///  0    .    =    +
/// ```
pub open spec fn button_spec(row: usize, col: usize) -> Action {
    if row == 0 {
        if col == 3 { Action::Clear } else { Action::Nothing }
    } else if row == 4 {
        if col == 0 {
            Action::Digit(0)
        } else if col == 2 {
            Action::Evaluate
        } else if col == 3 {
            Action::SetOperator(Operator::Add)
        } else {
            Action::Nothing
        }
    } else if row < 4 && col < 3 {
        Action::Digit((10 - 3 * row + col) as u8)
    } else if row == 1 && col == 3 {
        Action::SetOperator(Operator::Divide)
    } else if row == 2 && col == 3 {
        Action::SetOperator(Operator::Multiply)
    } else if row == 3 && col == 3 {
        Action::SetOperator(Operator::Subtract)
    } else {
        Action::Nothing
    }
}

/// The action of the button at `(row, col)`; cells outside the grid do nothing.
pub fn button_at(row: usize, col: usize) -> (a: Action)
    ensures
        a == button_spec(row, col),
        a.valid(),
{
    match (row, col) {
        (0, 3) => Action::Clear,
        (1, 0) => Action::Digit(7),
        (1, 1) => Action::Digit(8),
        (1, 2) => Action::Digit(9),
        (1, 3) => Action::SetOperator(Operator::Divide),
        (2, 0) => Action::Digit(4),
        (2, 1) => Action::Digit(5),
        (2, 2) => Action::Digit(6),
        (2, 3) => Action::SetOperator(Operator::Multiply),
        (3, 0) => Action::Digit(1),
        (3, 1) => Action::Digit(2),
        (3, 2) => Action::Digit(3),
        (3, 3) => Action::SetOperator(Operator::Subtract),
        (4, 0) => Action::Digit(0),
        (4, 2) => Action::Evaluate,
        (4, 3) => Action::SetOperator(Operator::Add),
        _ => Action::Nothing,
    }
}

/// The cell that the cursor stands on after a move in direction `d`.
/// An absent cursor enters the grid on the `7` button, whatever the direction.
/// A move off the grid keeps the cursor in place, and so do the moves that
/// would enter a blank cell from below (row 1, columns 0 to 2) or the blank
/// cell `(4, 1)` from any side.
pub open spec fn next_cursor(cursor: Option<(usize, usize)>, d: Direction) -> (usize, usize) {
    match cursor {
        None => (1, 0),
        Some((r, c)) => match d {
            Direction::Up => if r == 0 || (c < 3 && r == 1) {
                (r, c)
            } else {
                ((r - 1) as usize, c)
            },
            Direction::Down => if r >= 4 || (c == 1 && r == 3) {
                (r, c)
            } else {
                ((r + 1) as usize, c)
            },
            Direction::Left => if c == 0 || (c == 2 && r == 4) {
                (r, c)
            } else {
                (r, (c - 1) as usize)
            },
            Direction::Right => if c >= 3 || (c == 0 && r == 4) {
                (r, c)
            } else {
                (r, (c + 1) as usize)
            },
        },
    }
}

/// A cell where the cursor may stand: in the grid, and not the blank cell
/// `(4, 1)`, which no move enters.
pub open spec fn cursor_cell(cell: (usize, usize)) -> bool {
    in_grid(cell) && cell != (4usize, 1usize)
}

/// Moving keeps the cursor on cells where it may stand.
pub proof fn lemma_moves_stay_on_cursor_cells(cursor: Option<(usize, usize)>, d: Direction)
    requires
        cursor matches Some(cell) ==> cursor_cell(cell),
    ensures
        cursor_cell(next_cursor(cursor, d)),
{
}

/// The cursor's cell after a move in direction `d`.
pub fn move_cursor(cursor: Option<(usize, usize)>, d: Direction) -> (r: (usize, usize))
    requires
        cursor matches Some(cell) ==> cursor_cell(cell),
    ensures
        r == next_cursor(cursor, d),
        cursor_cell(r),
{
    match cursor {
        None => (1, 0),
        Some((row, col)) => match d {
            Direction::Up => if row > 0 && !(col < 3 && row == 1) {
                (row - 1, col)
            } else {
                (row, col)
            },
            Direction::Down => if row < 4 && !(col == 1 && row == 3) {
                (row + 1, col)
            } else {
                (row, col)
            },
            Direction::Left => if col > 0 && !(col == 2 && row == 4) {
                (row, col - 1)
            } else {
                (row, col)
            },
            Direction::Right => if col < 3 && !(col == 0 && row == 4) {
                (row, col + 1)
            } else {
                (row, col)
            },
        },
    }
}

} // verus!
