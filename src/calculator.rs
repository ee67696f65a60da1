//! The calculator's state: the expression being typed, its result, the
//! cursor and the exit flag.

use vstd::prelude::*;
use vstd::string::*;

use crate::grid::{
    button_at, button_spec, cursor_cell, move_cursor, next_cursor, Action, Direction, Operator,
    COLS, ROWS,
};

verus! {

/// The character of a decimal digit.
pub open spec fn digit_char(d: u8) -> char {
    ('0' as u8 + d) as char
}

/// A text buffer of an operand: one or more decimal digits.
pub open spec fn is_operand_text(s: Seq<char>) -> bool {
    s.len() > 0 && forall|i: int| 0 <= i < s.len() ==> '0' <= #[trigger] s[i] <= '9'
}

/// The text held by an optional buffer; an absent buffer reads as empty.
pub open spec fn buffer_text(b: Option<Seq<char>>) -> Seq<char> {
    match b {
        Some(t) => t,
        None => Seq::empty(),
    }
}

/// The calculator's state as mathematical values.
pub ghost struct CalcState {
    pub operand1: Option<Seq<char>>,
    pub operator: Option<Operator>,
    pub operand2: Option<Seq<char>>,
    /// The result of the last evaluation, in its textual form.
    pub result: Option<Seq<char>>,
    pub cursor: Option<(usize, usize)>,
    pub exit: bool,
}

/// An expression ready to be evaluated: `lhs operator rhs`.
pub ghost struct Calculation {
    pub lhs: Seq<char>,
    pub operator: Operator,
    pub rhs: Seq<char>,
}

impl CalcState {
    /// The states that the calculator's operations can reach.
    pub open spec fn wf(self) -> bool {
        &&& (self.operand1 matches Some(t) ==> is_operand_text(t))
        &&& (self.operand2 matches Some(t) ==> is_operand_text(t))
        &&& (self.operand2 is Some ==> self.operator is Some)
        &&& (self.result is Some ==> self.calculation() is Some)
        &&& (self.cursor matches Some(cell) ==> cursor_cell(cell))
    }

    /// The state at start: nothing typed, no cursor, not exiting.
    pub open spec fn initial() -> CalcState {
        CalcState {
            operand1: None,
            operator: None,
            operand2: None,
            result: None,
            cursor: None,
            exit: false,
        }
    }

    /// Clearing forgets the expression and the result.
    pub open spec fn after_reset(self) -> CalcState {
        CalcState { operand1: None, operator: None, operand2: None, result: None, ..self }
    }

    /// A digit goes to the first operand until an operator is set, then to the second.
    pub open spec fn after_digit(self, d: u8) -> CalcState {
        if self.operator is None {
            CalcState {
                operand1: Some(buffer_text(self.operand1).push(digit_char(d))),
                ..self
            }
        } else {
            CalcState {
                operand2: Some(buffer_text(self.operand2).push(digit_char(d))),
                ..self
            }
        }
    }

    /// The first operator set stays until the expression is cleared.
    pub open spec fn after_operator(self, op: Operator) -> CalcState {
        if self.operator is None {
            CalcState { operator: Some(op), ..self }
        } else {
            self
        }
    }

    /// The expression to evaluate, present once both operands and the operator are.
    pub open spec fn calculation(self) -> Option<Calculation> {
        match (self.operand1, self.operator, self.operand2) {
            (Some(lhs), Some(operator), Some(rhs)) => Some(Calculation { lhs, operator, rhs }),
            _ => None,
        }
    }

    /// Storing the value of the calculation.
    pub open spec fn after_result(self, value: Seq<char>) -> CalcState {
        CalcState { result: Some(value), ..self }
    }

    /// The cursor after a move.
    pub open spec fn after_move(self, d: Direction) -> CalcState {
        CalcState { cursor: Some(next_cursor(self.cursor, d)), ..self }
    }

    /// What a button's action does to the expression. Evaluation itself
    /// leaves the state as it is: its value is stored afterwards.
    pub open spec fn after_action(self, a: Action) -> CalcState {
        match a {
            Action::Digit(d) => self.after_digit(d),
            Action::SetOperator(op) => self.after_operator(op),
            Action::Clear => self.after_reset(),
            Action::Evaluate => self,
            Action::Nothing => self,
        }
    }

    /// The calculation that an action asks for: only evaluation asks for one.
    pub open spec fn action_calculation(self, a: Action) -> Option<Calculation> {
        if a is Evaluate {
            self.calculation()
        } else {
            None
        }
    }

    /// The action of the button under the cursor; nothing without a cursor.
    pub open spec fn selected_action(self) -> Action {
        match self.cursor {
            Some((r, c)) => button_spec(r, c),
            None => Action::Nothing,
        }
    }

    /// The text shown on the display: the result if there is one, else the
    /// expression typed so far, else `0`.
    pub open spec fn display(self) -> Seq<char> {
        match self.result {
            Some(value) => value,
            None => match (self.operand1, self.operator, self.operand2) {
                (_, Some(op), Some(rhs)) => buffer_text(self.operand1) + seq![' ', op.spec_symbol(), ' '] + rhs,
                (Some(lhs), Some(op), None) => lhs + seq![' ', op.spec_symbol()],
                (Some(lhs), None, _) => lhs,
                _ => seq!['0'],
            },
        }
    }
}

/// The state after typing the digits `ds`, in order.
pub open spec fn after_digits(s: CalcState, ds: Seq<u8>) -> CalcState
    decreases ds.len(),
{
    if ds.len() == 0 {
        s
    } else {
        after_digits(s, ds.drop_last()).after_digit(ds.last())
    }
}

/// The characters of the digits `ds`, in order.
pub open spec fn digits_text(ds: Seq<u8>) -> Seq<char> {
    ds.map_values(|d: u8| digit_char(d))
}

/// Digits typed while no operator is set are appended, in order, to the
/// first operand; once an operator is set they are appended in the same way
/// to the second operand. Nothing else changes.
pub proof fn lemma_digits_accumulate(s: CalcState, ds: Seq<u8>)
    requires
        ds.len() > 0,
    ensures
        s.operator is None ==> after_digits(s, ds) == (CalcState {
            operand1: Some(buffer_text(s.operand1) + digits_text(ds)),
            ..s
        }),
        s.operator is Some ==> after_digits(s, ds) == (CalcState {
            operand2: Some(buffer_text(s.operand2) + digits_text(ds)),
            ..s
        }),
    decreases ds.len(),
{
    let prefix = ds.drop_last();
    assert(digits_text(ds) =~= digits_text(prefix).push(digit_char(ds.last())));
    if prefix.len() == 0 {
        assert(after_digits(s, prefix) == s);
        assert(digits_text(prefix) =~= Seq::<char>::empty());
        assert(buffer_text(s.operand1) + digits_text(ds) =~= buffer_text(s.operand1).push(
            digit_char(ds.last()),
        ));
        assert(buffer_text(s.operand2) + digits_text(ds) =~= buffer_text(s.operand2).push(
            digit_char(ds.last()),
        ));
    } else {
        lemma_digits_accumulate(s, prefix);
        assert(buffer_text(s.operand1) + digits_text(ds) =~= (buffer_text(s.operand1)
            + digits_text(prefix)).push(digit_char(ds.last())));
        assert(buffer_text(s.operand2) + digits_text(ds) =~= (buffer_text(s.operand2)
            + digits_text(prefix)).push(digit_char(ds.last())));
    }
}

/// Once an operator is set, setting another one changes nothing.
pub proof fn lemma_first_operator_wins(s: CalcState, first: Operator, second: Operator)
    ensures
        s.after_operator(first).after_operator(second) == s.after_operator(first),
        s.operator is None ==> s.after_operator(first).operator == Some(first),
{
}

/// Whatever the state, clearing leaves no operand, operator or result, and
/// the display then shows `0`.
pub proof fn lemma_reset_shows_zero(s: CalcState)
    ensures
        s.after_reset().operand1 is None,
        s.after_reset().operator is None,
        s.after_reset().operand2 is None,
        s.after_reset().result is None,
        s.after_reset().display() == seq!['0'],
{
}

/// An expression ready to be evaluated: `lhs operator rhs`, each operand
/// a non-empty string of decimal digits.
#[derive(Debug)]
pub struct Evaluation {
    pub lhs: String,
    pub operator: Operator,
    pub rhs: String,
}

impl View for Evaluation {
    type V = Calculation;

    open spec fn view(&self) -> Calculation {
        Calculation { lhs: self.lhs@, operator: self.operator, rhs: self.rhs@ }
    }
}

/// The mathematical value of an optional evaluation.
pub open spec fn evaluation_view(e: Option<Evaluation>) -> Option<Calculation> {
    match e {
        Some(e) => Some(e@),
        None => None,
    }
}

/// The text of a decimal digit.
fn digit_str(d: u8) -> (s: &'static str)
    requires
        d <= 9,
    ensures
        s@ == seq![digit_char(d)],
{
    proof {
        reveal_strlit("0");
        reveal_strlit("1");
        reveal_strlit("2");
        reveal_strlit("3");
        reveal_strlit("4");
        reveal_strlit("5");
        reveal_strlit("6");
        reveal_strlit("7");
        reveal_strlit("8");
        reveal_strlit("9");
    }
    match d {
        0 => "0",
        1 => "1",
        2 => "2",
        3 => "3",
        4 => "4",
        5 => "5",
        6 => "6",
        7 => "7",
        8 => "8",
        _ => "9",
    }
}

/// The operator between two spaces, as the display shows it.
fn spaced_symbol(op: Operator) -> (s: &'static str)
    ensures
        s@ == seq![' ', op.spec_symbol(), ' '],
{
    proof {
        reveal_strlit(" + ");
        reveal_strlit(" - ");
        reveal_strlit(" * ");
        reveal_strlit(" / ");
    }
    match op {
        Operator::Add => " + ",
        Operator::Subtract => " - ",
        Operator::Multiply => " * ",
        Operator::Divide => " / ",
    }
}

/// The operator after a space, as the display shows it before the second operand.
fn trailing_symbol(op: Operator) -> (s: &'static str)
    ensures
        s@ == seq![' ', op.spec_symbol()],
{
    proof {
        reveal_strlit(" +");
        reveal_strlit(" -");
        reveal_strlit(" *");
        reveal_strlit(" /");
    }
    match op {
        Operator::Add => " +",
        Operator::Subtract => " -",
        Operator::Multiply => " *",
        Operator::Divide => " /",
    }
}

/// Appends a digit to an optional operand buffer.
fn appended(buffer: &Option<String>, d: u8) -> (r: String)
    requires
        d <= 9,
    ensures
        r@ == buffer_text(buffer.deep_view()).push(digit_char(d)),
        (buffer.deep_view() matches Some(t) ==> is_operand_text(t)) ==> is_operand_text(r@),
{
    let mut text = match buffer {
        Some(b) => b.clone(),
        None => String::new(),
    };
    text.append(digit_str(d));
    proof {
        assert(seq![digit_char(d)] =~= Seq::<char>::empty().push(digit_char(d)));
        assert('0' <= digit_char(d) <= '9');
    }
    text
}

/// The calculator. Its state is read through [`App::view`]; every state that
/// its operations reach satisfies [`CalcState::wf`].
#[derive(Debug)]
pub struct App {
    operand1: Option<String>,
    operator: Option<Operator>,
    operand2: Option<String>,
    result: Option<String>,
    exit: bool,
    selected_button: Option<(usize, usize)>,
}

impl View for App {
    type V = CalcState;

    closed spec fn view(&self) -> CalcState {
        CalcState {
            operand1: self.operand1.deep_view(),
            operator: self.operator,
            operand2: self.operand2.deep_view(),
            result: self.result.deep_view(),
            cursor: self.selected_button,
            exit: self.exit,
        }
    }
}

impl App {
    #[verifier::type_invariant]
    closed spec fn inv(&self) -> bool {
        self@.wf()
    }

    /// A calculator with nothing typed, no cursor, and not exiting.
    pub fn new() -> (app: App)
        ensures
            app@ == CalcState::initial(),
    {
        App {
            operand1: None,
            operator: None,
            operand2: None,
            result: None,
            exit: false,
            selected_button: None,
        }
    }

    /// Clears the expression and the result; the cursor and the exit flag stay.
    pub fn reset(&mut self)
        ensures
            final(self)@ == old(self)@.after_reset(),
    {
        proof {
            use_type_invariant(&*self);
        }
        self.result = None;
        self.operand2 = None;
        self.operator = None;
        self.operand1 = None;
    }

    /// Appends the decimal digit `digit` to the first operand while no
    /// operator is set, and to the second operand after.
    pub fn set_operand(&mut self, digit: u8)
        requires
            digit <= 9,
        ensures
            final(self)@ == old(self)@.after_digit(digit),
    {
        proof {
            use_type_invariant(&*self);
        }
        if self.operator.is_some() {
            let text = appended(&self.operand2, digit);
            self.operand2 = Some(text);
        } else {
            let text = appended(&self.operand1, digit);
            self.operand1 = Some(text);
        }
    }

    /// Sets the operator if none is set; a later operator is ignored until
    /// the expression is cleared.
    pub fn set_operator(&mut self, op: Operator)
        ensures
            final(self)@ == old(self)@.after_operator(op),
            old(self)@.operator is Some ==> final(self)@ == old(self)@,
    {
        proof {
            use_type_invariant(&*self);
        }
        if self.operator.is_none() {
            self.operator = Some(op);
        }
    }

    /// The expression to evaluate: present exactly when both operands and
    /// the operator are. Its value is computed outside and handed back
    /// through [`App::set_result`].
    pub fn calculate(&self) -> (e: Option<Evaluation>)
        ensures
            evaluation_view(e) == self@.calculation(),
    {
        match (&self.operand1, self.operator, &self.operand2) {
            (Some(lhs), Some(operator), Some(rhs)) => Some(
                Evaluation { lhs: lhs.clone(), operator, rhs: rhs.clone() },
            ),
            _ => None,
        }
    }

    /// Stores the textual form of the value of the current calculation.
    pub fn set_result(&mut self, value: String)
        requires
            old(self)@.calculation() is Some,
        ensures
            final(self)@ == old(self)@.after_result(value@),
    {
        proof {
            use_type_invariant(&*self);
        }
        self.result = Some(value);
    }

    /// The text of the display: the result if there is one, else
    /// `lhs op rhs`, `lhs op` or `lhs` as far as typed, else `0`.
    pub fn get_display(&self) -> (r: String)
        ensures
            r@ == self@.display(),
    {
        if let Some(value) = &self.result {
            return value.clone();
        }
        match (&self.operand1, self.operator, &self.operand2) {
            (_, Some(op), Some(rhs)) => {
                let mut text = match &self.operand1 {
                    Some(lhs) => lhs.clone(),
                    None => String::new(),
                };
                text.append(spaced_symbol(op));
                text.append(rhs.as_str());
                text
            },
            (Some(lhs), Some(op), None) => {
                let mut text = lhs.clone();
                text.append(trailing_symbol(op));
                text
            },
            (Some(lhs), None, _) => lhs.clone(),
            _ => {
                proof {
                    reveal_strlit("0");
                }
                String::from_str("0")
            },
        }
    }

    /// Whether the calculator has been asked to quit.
    pub fn get_exit(&self) -> (r: bool)
        ensures
            r == self@.exit,
    {
        self.exit
    }

    /// Asks the calculator to quit; this cannot be undone.
    pub fn quit(&mut self)
        ensures
            final(self)@ == (CalcState { exit: true, ..old(self)@ }),
    {
        proof {
            use_type_invariant(&*self);
        }
        self.exit = true;
    }

    /// The cell under the cursor, if the cursor has entered the grid.
    pub fn get_selected_button(&self) -> (r: Option<(usize, usize)>)
        ensures
            r == self@.cursor,
            r matches Some(cell) ==> cursor_cell(cell),
    {
        proof {
            use_type_invariant(self);
        }
        self.selected_button
    }

    /// Moves the cursor one cell in `direction`; see [`next_cursor`].
    pub fn move_selected_button(&mut self, direction: Direction)
        ensures
            final(self)@ == old(self)@.after_move(direction),
            old(self)@.cursor is None ==> final(self)@.cursor == Some((1usize, 0usize)),
    {
        proof {
            use_type_invariant(&*self);
        }
        self.selected_button = Some(move_cursor(self.selected_button, direction));
    }

    /// Carries out a button's action. Evaluation changes nothing here: it
    /// returns the expression to evaluate, if complete, whose value the
    /// caller hands back through [`App::set_result`].
    pub fn perform(&mut self, action: Action) -> (e: Option<Evaluation>)
        requires
            action.valid(),
        ensures
            final(self)@ == old(self)@.after_action(action),
            evaluation_view(e) == old(self)@.action_calculation(action),
    {
        match action {
            Action::Digit(d) => {
                self.set_operand(d);
                None
            },
            Action::SetOperator(op) => {
                self.set_operator(op);
                None
            },
            Action::Clear => {
                self.reset();
                None
            },
            Action::Evaluate => self.calculate(),
            Action::Nothing => None,
        }
    }

    /// Presses the button under the cursor; nothing happens without a cursor
    /// or on a blank cell. On the `=` button it returns the expression to
    /// evaluate, as [`App::perform`] does.
    pub fn click_selected_button(&mut self) -> (e: Option<Evaluation>)
        ensures
            final(self)@ == old(self)@.after_action(old(self)@.selected_action()),
            evaluation_view(e) == old(self)@.action_calculation(old(self)@.selected_action()),
    {
        match self.selected_button {
            Some((row, col)) => {
                let action = button_at(row, col);
                self.perform(action)
            },
            None => None,
        }
    }

    /// The first operand as typed so far.
    pub fn get_operand1(&self) -> (r: Option<String>)
        ensures
            r.deep_view() == self@.operand1,
    {
        self.operand1.clone()
    }

    /// The second operand as typed so far.
    pub fn get_operand2(&self) -> (r: Option<String>)
        ensures
            r.deep_view() == self@.operand2,
    {
        self.operand2.clone()
    }

    /// The operator, once set.
    pub fn get_operator(&self) -> (r: Option<Operator>)
        ensures
            r == self@.operator,
    {
        self.operator
    }

    /// The textual form of the last result, if any.
    pub fn get_result(&self) -> (r: Option<String>)
        ensures
            r.deep_view() == self@.result,
    {
        self.result.clone()
    }

    /// One row of flags per grid row, one flag per column: true exactly at
    /// the cell under the cursor.
    pub fn active_buttons(&self) -> (m: Vec<Vec<bool>>)
        ensures
            m@.len() == ROWS,
            forall|i: int| 0 <= i < ROWS ==> (#[trigger] m@[i])@.len() == COLS,
            forall|i: int, j: int|
                0 <= i < ROWS && 0 <= j < COLS ==> (#[trigger] m@[i]@[j] <==> self@.cursor == Some(
                    (i as usize, j as usize),
                )),
    {
        let mut m: Vec<Vec<bool>> = Vec::new();
        let mut row: usize = 0;
        while row < ROWS
            invariant
                row <= ROWS,
                m@.len() == row,
                forall|i: int| 0 <= i < row ==> (#[trigger] m@[i])@.len() == COLS,
                forall|i: int, j: int|
                    0 <= i < row && 0 <= j < COLS ==> (#[trigger] m@[i]@[j] <==> self@.cursor
                        == Some((i as usize, j as usize))),
            decreases ROWS - row,
        {
            let mut line: Vec<bool> = Vec::new();
            let mut col: usize = 0;
            while col < COLS
                invariant
                    row < ROWS,
                    col <= COLS,
                    line@.len() == col,
                    forall|j: int|
                        0 <= j < col ==> (#[trigger] line@[j] <==> self@.cursor == Some(
                            (row, j as usize),
                        )),
                decreases COLS - col,
            {
                line.push(self.selected_button == Some((row, col)));
                col = col + 1;
            }
            m.push(line);
            row = row + 1;
        }
        m
    }
}

} // verus!
