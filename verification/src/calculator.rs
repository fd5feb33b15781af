//! The calculator's state and the semantics of one button click.

use vstd::prelude::*;
use vstd::string::StringExecFns;
use crate::eval::{arithmetic_expr, eval_of, eval_expression, is_arithmetic};

verus! {

/// One button of the calculator keypad: the nine digits of the 3x3 grid, the
/// four arithmetic operators, and the evaluate button.
#[derive(Clone, Copy, PartialEq, Eq, Debug)]
pub enum Button {
    Digit1,
    Digit2,
    Digit3,
    Digit4,
    Digit5,
    Digit6,
    Digit7,
    Digit8,
    Digit9,
    Plus,
    Minus,
    Times,
    Divide,
    Equals,
}

/// The label drawn on a button, which is also the text that clicking the
/// button appends to the expression (the evaluate button appends nothing;
/// its label is still "=").
pub open spec fn button_label(b: Button) -> Seq<char> {
    match b {
        Button::Digit1 => "1"@,
        Button::Digit2 => "2"@,
        Button::Digit3 => "3"@,
        Button::Digit4 => "4"@,
        Button::Digit5 => "5"@,
        Button::Digit6 => "6"@,
        Button::Digit7 => "7"@,
        Button::Digit8 => "8"@,
        Button::Digit9 => "9"@,
        Button::Plus => "+"@,
        Button::Minus => "-"@,
        Button::Times => "*"@,
        Button::Divide => "/"@,
        Button::Equals => "="@,
    }
}

/// The label of a button as a string slice.
pub fn button_text(b: &Button) -> (r: &'static str)
    ensures
        r@ == button_label(*b),
{
    match b {
        Button::Digit1 => "1",
        Button::Digit2 => "2",
        Button::Digit3 => "3",
        Button::Digit4 => "4",
        Button::Digit5 => "5",
        Button::Digit6 => "6",
        Button::Digit7 => "7",
        Button::Digit8 => "8",
        Button::Digit9 => "9",
        Button::Plus => "+",
        Button::Minus => "-",
        Button::Times => "*",
        Button::Divide => "/",
        Button::Equals => "=",
    }
}

/// The calculator's only persistent state: the accumulated expression, which
/// holds either the user's clicked tokens or the formatted result of the last
/// successful evaluation.
pub struct CalculatorState {
    pub expression: String,
}

impl Default for CalculatorState {
    /// A fresh calculator shows the empty expression.
    fn default() -> (r: CalculatorState)
        ensures
            r.expression@ == Seq::<char>::empty(),
    {
        CalculatorState { expression: String::new() }
    }
}

/// What one click leaves in the expression field: every button but "="
/// appends its label, and "=" replaces the expression with the evaluator's
/// formatted result. The expression is left unchanged where it is empty,
/// where it strays outside the calculator's character set (only inside that
/// set is the evaluator consulted at all), or where evaluation fails.
pub open spec fn click_result(expr: Seq<char>, b: Button) -> Seq<char> {
    if b is Equals {
        if expr.len() == 0 || !arithmetic_expr(expr) {
            expr
        } else {
            match eval_of(expr) {
                Some(result) => result,
                None => expr,
            }
        }
    } else {
        expr + button_label(b)
    }
}

/// The expression left by a sequence of clicks handled in order.
pub open spec fn clicks_result(expr: Seq<char>, clicks: Seq<Button>) -> Seq<char>
    decreases clicks.len(),
{
    if clicks.len() == 0 {
        expr
    } else {
        click_result(clicks_result(expr, clicks.drop_last()), clicks.last())
    }
}

/// The labels of a click sequence, concatenated in click order.
pub open spec fn labels_of(clicks: Seq<Button>) -> Seq<char>
    decreases clicks.len(),
{
    if clicks.len() == 0 {
        Seq::empty()
    } else {
        labels_of(clicks.drop_last()) + button_label(clicks.last())
    }
}

/// Law: a sequence of digit and operator clicks with no "=" press leaves the
/// expression equal to the exact concatenation of the clicked labels, in
/// click order, appended to what stood there before; the evaluator plays no
/// part in it.
pub proof fn lemma_clicks_concatenate(expr: Seq<char>, clicks: Seq<Button>)
    requires
        forall|i: int| 0 <= i < clicks.len() ==> !((#[trigger] clicks[i]) is Equals),
    ensures
        clicks_result(expr, clicks) == expr + labels_of(clicks),
    decreases clicks.len(),
{
    if clicks.len() == 0 {
        assert(expr + labels_of(clicks) =~= expr);
    } else {
        let head = clicks.drop_last();
        let last = clicks.last();
        assert(forall|i: int| 0 <= i < head.len() ==> #[trigger] head[i] == clicks[i]);
        lemma_clicks_concatenate(expr, head);
        assert(!(last is Equals));
        assert((expr + labels_of(head)) + button_label(last) =~= expr + (labels_of(head)
            + button_label(last)));
    }
}

impl CalculatorState {
    /// Handle one reported button click. A digit or operator click is a pure
    /// append of the button's label and never consults the evaluator; an "="
    /// click evaluates the current expression, replaces it with the formatted
    /// result on success, and leaves it unchanged on failure — the empty
    /// expression and everything outside the calculator's character set
    /// among the failures.
    pub fn apply_click(&mut self, b: &Button)
        ensures
            final(self).expression@ == click_result(old(self).expression@, *b),
            !(*b is Equals) ==> final(self).expression@ == old(self).expression@
                + button_label(*b),
            *b is Equals && !arithmetic_expr(old(self).expression@) ==> final(self).expression@
                == old(self).expression@,
            *b is Equals && eval_of(old(self).expression@) is None ==> final(self).expression@
                == old(self).expression@,
            *b is Equals && arithmetic_expr(old(self).expression@) ==> (eval_of(
                old(self).expression@,
            ) matches Some(result) ==> final(self).expression@ == result),
            *b is Equals && old(self).expression@.len() == 0 ==> final(self).expression@
                == old(self).expression@,
    {
        match b {
            Button::Equals => {
                if is_arithmetic(&self.expression) {
                    match eval_expression(&self.expression) {
                        Some(result) => {
                            self.expression = result;
                        },
                        None => {},
                    }
                }
            },
            _ => {
                self.expression.append(button_text(b));
            },
        }
    }
}

} // verus!
