//! The calculator screen: the widget tree declared each frame, and the state
//! update driven by that frame's reported clicks.

use vstd::prelude::*;
use vstd::string::StringExecFns;
use crate::calculator::{Button, CalculatorState, clicks_result};

verus! {

/// One widget of the calculator window, in declaration order. The flag on a
/// button says whether it stands on the same line as the widget before it.
#[derive(Clone, PartialEq, Debug)]
pub enum Widget {
    Text(String),
    Separator,
    Button(Button, bool),
}

/// The mathematical shape of a widget: its text as a character sequence.
pub enum WidgetView {
    Text(Seq<char>),
    Separator,
    Button(Button, bool),
}

impl View for Widget {
    type V = WidgetView;

    open spec fn view(&self) -> WidgetView {
        match self {
            Widget::Text(s) => WidgetView::Text(s@),
            Widget::Separator => WidgetView::Separator,
            Widget::Button(b, same_line) => WidgetView::Button(*b, *same_line),
        }
    }
}

impl DeepView for Widget {
    type V = WidgetView;

    open spec fn deep_view(&self) -> WidgetView {
        self.view()
    }
}

/// The calculator window's contents for one frame, from top to bottom: two
/// lines of help text, a separator, the expression as it stood when the frame
/// began, a separator, the 3x3 digit grid in rows of three, the four operator
/// buttons laid out pairwise, and the "=" button.
pub open spec fn calculator_layout(expr: Seq<char>) -> Seq<WidgetView> {
    seq![
        WidgetView::Text("This is calculator."@),
        WidgetView::Text("You can make calculations"@),
        WidgetView::Separator,
        WidgetView::Text(expr),
        WidgetView::Separator,
        WidgetView::Button(Button::Digit1, false),
        WidgetView::Button(Button::Digit2, true),
        WidgetView::Button(Button::Digit3, true),
        WidgetView::Button(Button::Digit4, false),
        WidgetView::Button(Button::Digit5, true),
        WidgetView::Button(Button::Digit6, true),
        WidgetView::Button(Button::Digit7, false),
        WidgetView::Button(Button::Digit8, true),
        WidgetView::Button(Button::Digit9, true),
        WidgetView::Button(Button::Plus, false),
        WidgetView::Button(Button::Minus, true),
        WidgetView::Button(Button::Times, false),
        WidgetView::Button(Button::Divide, true),
        WidgetView::Button(Button::Equals, false),
    ]
}

/// One frame of the calculator screen. The returned widgets show the
/// expression as it stood when the frame began; the clicks the GUI reported
/// for this frame are then handled in declaration order, each one appending
/// its label or, for "=", evaluating the expression.
pub fn show_calculator(state: &mut CalculatorState, clicks: &Vec<Button>) -> (widgets: Vec<
    Widget,
>)
    ensures
        widgets.deep_view() == calculator_layout(old(state).expression@),
        final(state).expression@ == clicks_result(old(state).expression@, clicks@),
{
    let shown = state.expression.clone();
    let mut i: usize = 0;
    while i < clicks.len()
        invariant
            i <= clicks@.len(),
            shown@ == old(state).expression@,
            state.expression@ == clicks_result(old(state).expression@, clicks@.take(i as int)),
        decreases clicks@.len() - i,
    {
        let b = clicks[i];
        state.apply_click(&b);
        proof {
            assert(clicks@.take(i as int + 1).drop_last() =~= clicks@.take(i as int));
            assert(clicks@.take(i as int + 1).last() == clicks@[i as int]);
        }
        i = i + 1;
    }
    proof {
        assert(clicks@.take(clicks@.len() as int) =~= clicks@);
    }
    let mut widgets: Vec<Widget> = Vec::new();
    widgets.push(Widget::Text(String::from_str("This is calculator.")));
    widgets.push(Widget::Text(String::from_str("You can make calculations")));
    widgets.push(Widget::Separator);
    widgets.push(Widget::Text(shown));
    widgets.push(Widget::Separator);
    widgets.push(Widget::Button(Button::Digit1, false));
    widgets.push(Widget::Button(Button::Digit2, true));
    widgets.push(Widget::Button(Button::Digit3, true));
    widgets.push(Widget::Button(Button::Digit4, false));
    widgets.push(Widget::Button(Button::Digit5, true));
    widgets.push(Widget::Button(Button::Digit6, true));
    widgets.push(Widget::Button(Button::Digit7, false));
    widgets.push(Widget::Button(Button::Digit8, true));
    widgets.push(Widget::Button(Button::Digit9, true));
    widgets.push(Widget::Button(Button::Plus, false));
    widgets.push(Widget::Button(Button::Minus, true));
    widgets.push(Widget::Button(Button::Times, false));
    widgets.push(Widget::Button(Button::Divide, true));
    widgets.push(Widget::Button(Button::Equals, false));
    proof {
        assert(widgets.deep_view() =~= calculator_layout(old(state).expression@));
    }
    widgets
}

} // verus!
