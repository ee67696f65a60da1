//! The input router: which command each key gives, and how a command
//! changes the calculator.

use vstd::prelude::*;

use crate::calculator::{evaluation_view, App, CalcState, Calculation, Evaluation};
use crate::grid::{button_spec, in_grid, Action, Direction, Operator};

verus! {

/// A key press, as far as the calculator tells keys apart.
#[derive(Debug, Clone, Copy, PartialEq, Eq, Structural)]
pub enum Key {
    Up,
    Down,
    Left,
    Right,
    Enter,
    Char(char),
    Other,
}

/// What the calculator does on a key press.
#[derive(Debug, Clone, Copy, PartialEq, Eq, Structural)]
pub enum Command {
    /// Move the cursor.
    Move(Direction),
    /// Press the button under the cursor.
    Click,
    /// Carry out an action directly, as a button would.
    Act(Action),
    /// Ask to quit.
    Quit,
}

/// The command of a key: arrows move, Enter presses the selected button,
/// digits and `+ - * /` type, `=` evaluates, `c` clears, `q` quits, and
/// every other key does nothing.
pub open spec fn key_command(key: Key) -> Command {
    match key {
        Key::Up => Command::Move(Direction::Up),
        Key::Down => Command::Move(Direction::Down),
        Key::Left => Command::Move(Direction::Left),
        Key::Right => Command::Move(Direction::Right),
        Key::Enter => Command::Click,
        Key::Char(c) => if '0' <= c <= '9' {
            Command::Act(Action::Digit((c as u32 - '0' as u32) as u8))
        } else if c == '+' {
            Command::Act(Action::SetOperator(Operator::Add))
        } else if c == '-' {
            Command::Act(Action::SetOperator(Operator::Subtract))
        } else if c == '*' {
            Command::Act(Action::SetOperator(Operator::Multiply))
        } else if c == '/' {
            Command::Act(Action::SetOperator(Operator::Divide))
        } else if c == '=' {
            Command::Act(Action::Evaluate)
        } else if c == 'c' {
            Command::Act(Action::Clear)
        } else if c == 'q' {
            Command::Quit
        } else {
            Command::Act(Action::Nothing)
        },
        Key::Other => Command::Act(Action::Nothing),
    }
}

/// A command whose action, if any, carries a decimal digit.
pub open spec fn command_valid(cmd: Command) -> bool {
    cmd matches Command::Act(a) ==> a.valid()
}

/// The state after a command.
pub open spec fn after_command(s: CalcState, cmd: Command) -> CalcState {
    match cmd {
        Command::Move(d) => s.after_move(d),
        Command::Click => s.after_action(s.selected_action()),
        Command::Act(a) => s.after_action(a),
        Command::Quit => CalcState { exit: true, ..s },
    }
}

/// The expression that a command asks to evaluate, if any.
pub open spec fn command_calculation(s: CalcState, cmd: Command) -> Option<Calculation> {
    match cmd {
        Command::Click => s.action_calculation(s.selected_action()),
        Command::Act(a) => s.action_calculation(a),
        _ => None,
    }
}

/// The key whose command does what the button at `(row, col)` does: its
/// digit, its operator's symbol, `=` or `c`.
pub open spec fn shortcut(row: usize, col: usize) -> Key {
    match button_spec(row, col) {
        Action::Digit(d) => Key::Char(('0' as u32 + d) as char),
        Action::SetOperator(op) => Key::Char(op.spec_symbol()),
        Action::Evaluate => Key::Char('='),
        Action::Clear => Key::Char('c'),
        Action::Nothing => Key::Other,
    }
}

/// Pressing a button does what typing its shortcut does, on every cell of
/// the grid, blank cells included.
pub proof fn lemma_buttons_match_shortcuts(row: usize, col: usize)
    requires
        in_grid((row, col)),
    ensures
        key_command(shortcut(row, col)) == Command::Act(button_spec(row, col)),
{
}

/// The command of a key.
pub fn command_for_key(key: Key) -> (cmd: Command)
    ensures
        cmd == key_command(key),
        command_valid(cmd),
{
    match key {
        Key::Up => Command::Move(Direction::Up),
        Key::Down => Command::Move(Direction::Down),
        Key::Left => Command::Move(Direction::Left),
        Key::Right => Command::Move(Direction::Right),
        Key::Enter => Command::Click,
        Key::Char(c) => {
            if '0' <= c && c <= '9' {
                Command::Act(Action::Digit((c as u32 - '0' as u32) as u8))
            } else if c == '=' {
                Command::Act(Action::Evaluate)
            } else if c == 'c' {
                Command::Act(Action::Clear)
            } else if c == 'q' {
                Command::Quit
            } else {
                match Operator::from_symbol(c) {
                    Some(op) => Command::Act(Action::SetOperator(op)),
                    None => Command::Act(Action::Nothing),
                }
            }
        },
        Key::Other => Command::Act(Action::Nothing),
    }
}

impl App {
    /// Carries out a command. A command that evaluates returns the
    /// expression to evaluate, if complete; its value is handed back
    /// through [`App::set_result`].
    pub fn run_command(&mut self, cmd: Command) -> (e: Option<Evaluation>)
        requires
            command_valid(cmd),
        ensures
            final(self)@ == after_command(old(self)@, cmd),
            evaluation_view(e) == command_calculation(old(self)@, cmd),
    {
        match cmd {
            Command::Move(d) => {
                self.move_selected_button(d);
                None
            },
            Command::Click => self.click_selected_button(),
            Command::Act(a) => self.perform(a),
            Command::Quit => {
                self.quit();
                None
            },
        }
    }

    /// Handles a key press: see [`key_command`].
    pub fn handle_key(&mut self, key: Key) -> (e: Option<Evaluation>)
        ensures
            final(self)@ == after_command(old(self)@, key_command(key)),
            evaluation_view(e) == command_calculation(old(self)@, key_command(key)),
    {
        let cmd = command_for_key(key);
        self.run_command(cmd)
    }
}

} // verus!
