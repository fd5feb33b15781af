use calculator::calculator::{Button, CalculatorState};

#[test]
fn clicks_append_in_order() {
    let mut state = CalculatorState::default();
    state.apply_click(&Button::Digit1);
    state.apply_click(&Button::Digit2);
    state.apply_click(&Button::Plus);
    state.apply_click(&Button::Digit3);
    assert_eq!(state.expression, "12+3");
}

#[test]
fn operator_clicks_append_every_label() {
    let mut state = CalculatorState::default();
    state.apply_click(&Button::Digit9);
    state.apply_click(&Button::Plus);
    state.apply_click(&Button::Digit8);
    state.apply_click(&Button::Minus);
    state.apply_click(&Button::Digit7);
    state.apply_click(&Button::Times);
    state.apply_click(&Button::Digit6);
    state.apply_click(&Button::Divide);
    state.apply_click(&Button::Digit5);
    assert_eq!(state.expression, "9+8-7*6/5");
}

#[test]
fn equals_evaluates_expression() {
    let mut state = CalculatorState::default();
    state.apply_click(&Button::Digit2);
    state.apply_click(&Button::Plus);
    state.apply_click(&Button::Digit3);
    state.apply_click(&Button::Times);
    state.apply_click(&Button::Digit4);
    assert_eq!(state.expression, "2+3*4");
    state.apply_click(&Button::Equals);
    assert_eq!(state.expression, "14");
}

#[test]
fn equals_evaluates_division() {
    let mut state = CalculatorState::default();
    state.apply_click(&Button::Digit8);
    state.apply_click(&Button::Divide);
    state.apply_click(&Button::Digit4);
    state.apply_click(&Button::Equals);
    assert_eq!(state.expression, "2");
}

#[test]
fn equals_on_empty_leaves_state_unchanged() {
    let mut state = CalculatorState::default();
    state.apply_click(&Button::Equals);
    assert_eq!(state.expression, "");
}

#[test]
fn equals_on_malformed_expression_leaves_state_unchanged() {
    let mut state = CalculatorState::default();
    state.apply_click(&Button::Digit2);
    state.apply_click(&Button::Plus);
    state.apply_click(&Button::Equals);
    assert_eq!(state.expression, "2+");
}

#[test]
fn equals_twice_yields_the_same_value() {
    let mut state = CalculatorState::default();
    state.apply_click(&Button::Digit2);
    state.apply_click(&Button::Plus);
    state.apply_click(&Button::Digit3);
    state.apply_click(&Button::Times);
    state.apply_click(&Button::Digit4);
    state.apply_click(&Button::Equals);
    assert_eq!(state.expression, "14");
    state.apply_click(&Button::Equals);
    assert_eq!(state.expression, "14");
}

#[test]
fn digit_click_appends_and_never_evaluates() {
    let mut state = CalculatorState::default();
    state.apply_click(&Button::Digit2);
    state.apply_click(&Button::Plus);
    state.apply_click(&Button::Digit2);
    // "2+2" is well formed, but a digit click must append, not evaluate.
    state.apply_click(&Button::Digit2);
    assert_eq!(state.expression, "2+22");
    state.apply_click(&Button::Plus);
    assert_eq!(state.expression, "2+22+");
}

#[test]
fn equals_on_blank_expression_leaves_state_unchanged() {
    let mut state = CalculatorState::default();
    state.expression = " ".to_string();
    state.apply_click(&Button::Equals);
    assert_eq!(state.expression, " ");
}

#[test]
fn equals_on_foreign_characters_leaves_state_unchanged() {
    let mut state = CalculatorState::default();
    state.expression = "sin(1)".to_string();
    state.apply_click(&Button::Equals);
    assert_eq!(state.expression, "sin(1)");
}

#[test]
fn equals_evaluates_parenthesized_expression() {
    let mut state = CalculatorState::default();
    state.expression = "(2+3)*4".to_string();
    state.apply_click(&Button::Equals);
    assert_eq!(state.expression, "20");
}

#[test]
fn fresh_calculator_is_empty() {
    let state = CalculatorState::default();
    assert_eq!(state.expression, "");
}
