//! The boundary to the external arithmetic evaluator.

use vstd::prelude::*;
use vstd::string::StrSliceExecFns;

verus! {

/// A character the calculator's expressions are made of: a decimal digit, a
/// dot, one of the four operator signs, or a parenthesis.
pub open spec fn arithmetic_char(c: char) -> bool {
    ('0' <= c && c <= '9') || c == '.' || c == '+' || c == '-' || c == '*' || c == '/' || c == '('
        || c == ')'
}

/// An expression over the calculator's character set. Only such expressions
/// are handed to the external evaluator: on them its parser returns normally
/// and its arithmetic is a function of the characters alone.
pub open spec fn arithmetic_expr(expr: Seq<char>) -> bool {
    forall|i: int| 0 <= i < expr.len() ==> arithmetic_char(#[trigger] expr[i])
}

/// Whether an expression stays within the calculator's character set, and so
/// may be handed to the evaluator.
pub fn is_arithmetic(s: &String) -> (r: bool)
    ensures
        r == arithmetic_expr(s@),
{
    let text = s.as_str();
    let len = text.unicode_len();
    let mut i: usize = 0;
    while i < len
        invariant
            i <= len,
            len == text@.len(),
            text@ == s@,
            forall|j: int| 0 <= j < i ==> arithmetic_char(#[trigger] text@[j]),
        decreases len - i,
    {
        let c = text.get_char(i);
        if !(('0' <= c && c <= '9') || c == '.' || c == '+' || c == '-' || c == '*' || c == '/'
            || c == '(' || c == ')') {
            assert(!arithmetic_char(s@[i as int]));
            return false;
        }
        i = i + 1;
    }
    true
}

/// The display text that the external evaluator produces for an expression:
/// `Some` of the formatted numeric result where the expression parses and
/// evaluates, `None` where the evaluator rejects it. The evaluator is only
/// ever consulted on expressions over the calculator's character set, and on
/// those its answer depends on the characters alone, so the library names the
/// answer and states the click semantics over that name; which expressions
/// evaluate, and to what, is the evaluator's affair.
pub uninterp spec fn eval_of(expr: Seq<char>) -> Option<Seq<char>>;

/// Relies on `meval::eval_str`: it tokenizes an arithmetic expression, turns
/// it into reverse Polish form, and evaluates that. The `requires` keeps the
/// call inside the calculator's character set: outside it the evaluator's
/// tokenizer panics where a token is expected and only whitespace remains,
/// and its power operator and named functions go through platform-dependent
/// floating point. Within the set, every tokenizer step returns normally and
/// evaluation is plain IEEE arithmetic on numbers read by std's float
/// parsing, a function of the characters alone; the numeric result is
/// formatted here with std's plain numeric formatting, and a rejected
/// expression — the empty one among them, since its tokenizer finds no token
/// — becomes `None`.
#[verifier::external_body]
pub(crate) fn eval_expression(expr: &String) -> (r: Option<String>)
    requires
        arithmetic_expr(expr@),
    ensures
        r is Some <==> eval_of(expr@) is Some,
        r matches Some(text) ==> eval_of(expr@) == Some(text@),
        expr@.len() == 0 ==> r is None,
{
    match meval::eval_str(expr.as_str()) {
        Ok(value) => Some(format!("{}", value)),
        Err(_) => None,
    }
}

} // verus!
