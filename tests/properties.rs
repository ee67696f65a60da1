use calculator_tui::calculator::App;
use calculator_tui::grid::{Direction, Operator};
use calculator_tui::input::Key;

fn evaluate_pending(app: &mut App) {
    if let Some(e) = app.calculate() {
        let a: f64 = e.lhs.parse().unwrap();
        let b: f64 = e.rhs.parse().unwrap();
        let v = match e.operator {
            Operator::Add => a + b,
            Operator::Subtract => a - b,
            Operator::Multiply => a * b,
            Operator::Divide => a / b,
        };
        app.set_result(format!("{}", v));
    }
}

#[test]
fn digits_concatenate_into_each_operand() {
    let mut app = App::new();
    for d in [3u8, 0, 0, 9] {
        app.set_operand(d);
    }
    assert_eq!(app.get_operand1(), Some("3009".to_string()));
    assert_eq!(app.get_operand2(), None);
    app.set_operator(Operator::Multiply);
    for d in [0u8, 1, 2] {
        app.set_operand(d);
    }
    assert_eq!(app.get_operand1(), Some("3009".to_string()));
    assert_eq!(app.get_operand2(), Some("012".to_string()));
}

#[test]
fn second_operator_is_ignored() {
    let mut app = App::new();
    app.set_operand(4);
    app.set_operator(Operator::Divide);
    app.set_operator(Operator::Add);
    app.set_operator(Operator::Multiply);
    assert_eq!(app.get_operator(), Some(Operator::Divide));
    assert_eq!(app.get_display(), "4 /");
}

#[test]
fn calculate_hands_out_the_expression() {
    let mut app = App::new();
    assert!(app.calculate().is_none());
    app.set_operand(1);
    app.set_operand(2);
    assert!(app.calculate().is_none());
    app.set_operator(Operator::Subtract);
    assert!(app.calculate().is_none());
    app.set_operand(7);
    let e = app.calculate().unwrap();
    assert_eq!(e.lhs, "12");
    assert_eq!(e.operator, Operator::Subtract);
    assert_eq!(e.rhs, "7");
    assert_eq!(app.get_result(), None);
}

#[test]
fn reset_shows_zero() {
    let mut app = App::new();
    app.set_operand(6);
    app.set_operator(Operator::Add);
    app.set_operand(6);
    evaluate_pending(&mut app);
    assert_eq!(app.get_display(), "12");
    app.move_selected_button(Direction::Up);
    app.reset();
    assert_eq!(app.get_display(), "0");
    assert_eq!(app.get_operand1(), None);
    assert_eq!(app.get_operator(), None);
    assert_eq!(app.get_operand2(), None);
    assert_eq!(app.get_result(), None);
    assert_eq!(app.get_selected_button(), Some((1, 0)));
}

#[test]
fn first_move_enters_on_seven() {
    for d in [Direction::Up, Direction::Down, Direction::Left, Direction::Right] {
        let mut app = App::new();
        assert_eq!(app.get_selected_button(), None);
        app.move_selected_button(d);
        assert_eq!(app.get_selected_button(), Some((1, 0)));
    }
}

#[test]
fn three_rights_reach_divide() {
    let mut app = App::new();
    app.move_selected_button(Direction::Down);
    for _ in 0..3 {
        app.move_selected_button(Direction::Right);
    }
    assert_eq!(app.get_selected_button(), Some((1, 3)));
    assert!(app.click_selected_button().is_none());
    assert_eq!(app.get_operator(), Some(Operator::Divide));
}

#[test]
fn down_from_two_is_blocked() {
    let mut app = App::new();
    app.move_selected_button(Direction::Down);
    app.move_selected_button(Direction::Down);
    app.move_selected_button(Direction::Down);
    app.move_selected_button(Direction::Right);
    assert_eq!(app.get_selected_button(), Some((3, 1)));
    app.move_selected_button(Direction::Down);
    assert_eq!(app.get_selected_button(), Some((3, 1)));
}

#[test]
fn click_789_plus_2_gives_791() {
    let mut app = App::new();
    app.move_selected_button(Direction::Down);
    app.click_selected_button();
    app.move_selected_button(Direction::Right);
    app.click_selected_button();
    app.move_selected_button(Direction::Right);
    app.click_selected_button();
    assert_eq!(app.get_operand1(), Some("789".to_string()));
    app.set_operator(Operator::Add);
    app.set_operand(2);
    assert_eq!(app.get_display(), "789 + 2");
    evaluate_pending(&mut app);
    assert_eq!(app.get_result().map(|t| t.parse::<f64>().unwrap()), Some(791.0));
    assert_eq!(app.get_display(), "791");
}

#[test]
fn five_divided_by_zero_is_infinite() {
    let mut app = App::new();
    app.handle_key(Key::Char('5'));
    app.handle_key(Key::Char('/'));
    app.handle_key(Key::Char('0'));
    let e = app.handle_key(Key::Char('=')).unwrap();
    assert_eq!((e.lhs.as_str(), e.operator, e.rhs.as_str()), ("5", Operator::Divide, "0"));
    app.set_result(format!("{}", 5.0f64 / 0.0));
    assert_eq!(app.get_display(), format!("{}", f64::INFINITY));
}
