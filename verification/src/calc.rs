//! The calculator back end as far as rows depend on it: which capabilities a
//! calculator has, what a typed expression is answered with, and in which
//! order the unit conversions are tried.

use vstd::prelude::*;
use crate::launcher::{opt_view, Calculator};
use crate::row::{SherlockRow, SherlockRowView};
use crate::text::{
    is_blank, is_whitespace, lemma_trim_empty_iff_blank, lemma_trim_ends_clean, push_str, str_eq,
    trim, trim_spec,
};

verus! {

/// The kinds of measure that the calculator converts between units of.
#[derive(Clone, Copy, PartialEq, Eq, Structural, Debug)]
pub enum UnitKind {
    Lengths,
    Weights,
    Volumes,
    Temperatures,
}

/// The name of the capability to evaluate expressions.
pub open spec fn cap_math() -> Seq<char> {
    "calc.math"@
}

/// The name of the capability that stands for every conversion of units.
pub open spec fn cap_units() -> Seq<char> {
    "calc.units"@
}

/// The name of the capability to convert units of one kind.
pub open spec fn cap_of(kind: UnitKind) -> Seq<char> {
    match kind {
        UnitKind::Lengths => "calc.lengths"@,
        UnitKind::Weights => "calc.weights"@,
        UnitKind::Volumes => "calc.volumes"@,
        UnitKind::Temperatures => "calc.temperatures"@,
    }
}

/// Whether `name` is among `caps`.
pub open spec fn listed(caps: Seq<String>, name: Seq<char>) -> bool {
    exists|i: int| 0 <= i < caps.len() && (#[trigger] caps[i])@ == name
}

/// Whether the calculator has the capability `name`. A calculator without a
/// list of its own evaluates expressions and converts units of every kind.
pub open spec fn has_capability_spec(calc: Calculator, name: Seq<char>) -> bool {
    match calc.capabilities {
        Some(caps) => listed(caps@, name),
        None => name == cap_math() || name == cap_units(),
    }
}

/// Whether the calculator converts units of `kind`.
pub open spec fn converts(calc: Calculator, kind: UnitKind) -> bool {
    has_capability_spec(calc, cap_of(kind)) || has_capability_spec(calc, cap_units())
}

/// The kinds of unit that the calculator converts, in the order in which a
/// conversion is tried: lengths, weights, volumes, temperatures.
pub open spec fn measurement_plan_spec(calc: Calculator) -> Seq<UnitKind> {
    let a = if converts(calc, UnitKind::Lengths) {
        seq![UnitKind::Lengths]
    } else {
        Seq::empty()
    };
    let b = if converts(calc, UnitKind::Weights) {
        seq![UnitKind::Weights]
    } else {
        Seq::empty()
    };
    let c = if converts(calc, UnitKind::Volumes) {
        seq![UnitKind::Volumes]
    } else {
        Seq::empty()
    };
    let d = if converts(calc, UnitKind::Temperatures) {
        seq![UnitKind::Temperatures]
    } else {
        Seq::empty()
    };
    a + b + c + d
}

/// What an expression is answered with, given the value that evaluating it
/// came to: the value behind an equals sign, unless the expression is that
/// value already or has none.
pub open spec fn math_answer_spec(trimmed: Seq<char>, value: Option<Seq<char>>) -> Option<
    Seq<char>,
> {
    match value {
        Some(v) => if v != trimmed {
            Some("= "@ + v)
        } else {
            None
        },
        None => None,
    }
}

/// What the calculator answers `keyword` with as an arithmetic expression,
/// given the value that evaluating the trimmed keyword came to. A calculator
/// without the capability to evaluate expressions answers nothing, and a blank
/// keyword is answered with nothing.
pub open spec fn math_result_spec(calc: Calculator, keyword: Seq<char>, value: Option<Seq<char>>)
    -> Option<Seq<char>> {
    if !has_capability_spec(calc, cap_math()) || is_blank(keyword) {
        None
    } else {
        math_answer_spec(trim_spec(keyword), value)
    }
}

/// Evaluates an arithmetic expression with `meval::eval_str` and writes the
/// number that it comes to as `f64`'s `to_string` does. `None` stands for an
/// expression that `meval` rejects. Nothing is claimed of the number. The
/// tokenizer of `meval` panics on a text that is not empty and holds only
/// spaces, tabs and line ends: `requires` leaves out every text that begins
/// with whitespace, and the empty one.
#[verifier::external_body]
fn eval_math(expr: &str) -> (r: Option<String>)
    requires
        expr@.len() > 0,
        !is_whitespace(expr@[0]),
{
    match meval::eval_str(expr) {
        Ok(value) => Some(value.to_string()),
        Err(_) => None,
    }
}

impl Calculator {
    /// Whether the calculator has the capability `name`.
    pub fn has_capability(&self, name: &str) -> (r: bool)
        ensures
            r == has_capability_spec(*self, name@),
    {
        match &self.capabilities {
            Some(caps) => {
                let mut i: usize = 0;
                while i < caps.len()
                    invariant
                        i <= caps.len(),
                        self.capabilities == Some(*caps),
                        forall|k: int| 0 <= k < i ==> (#[trigger] caps@[k])@ != name@,
                    decreases caps.len() - i,
                {
                    if str_eq(caps[i].as_str(), name) {
                        return true;
                    }
                    i += 1;
                }
                false
            },
            None => str_eq(name, "calc.math") || str_eq(name, "calc.units"),
        }
    }

    /// Whether the calculator converts units of `kind`.
    pub fn converts_kind(&self, kind: UnitKind) -> (r: bool)
        ensures
            r == converts(*self, kind),
    {
        let own = match kind {
            UnitKind::Lengths => self.has_capability("calc.lengths"),
            UnitKind::Weights => self.has_capability("calc.weights"),
            UnitKind::Volumes => self.has_capability("calc.volumes"),
            UnitKind::Temperatures => self.has_capability("calc.temperatures"),
        };
        own || self.has_capability("calc.units")
    }

    /// The kinds of unit to try a conversion for, in order. The first kind
    /// whose conversion gives a result answers the keyword.
    pub fn measurement_plan(&self) -> (plan: Vec<UnitKind>)
        ensures
            plan@ == measurement_plan_spec(*self),
    {
        let mut plan: Vec<UnitKind> = Vec::new();
        if self.converts_kind(UnitKind::Lengths) {
            plan.push(UnitKind::Lengths);
        }
        if self.converts_kind(UnitKind::Weights) {
            plan.push(UnitKind::Weights);
        }
        if self.converts_kind(UnitKind::Volumes) {
            plan.push(UnitKind::Volumes);
        }
        if self.converts_kind(UnitKind::Temperatures) {
            plan.push(UnitKind::Temperatures);
        }
        plan
    }

    /// What the calculator answers `keyword` with, given the value that
    /// evaluating the trimmed keyword came to.
    pub fn answer_for(&self, keyword: &str, value: Option<String>) -> (r: Option<String>)
        ensures
            opt_view(r) == math_result_spec(*self, keyword@, opt_view(value)),
    {
        if !self.has_capability("calc.math") {
            return None;
        }
        let trimmed = trim(keyword);
        proof {
            lemma_trim_empty_iff_blank(keyword@);
        }
        if trimmed.as_str().is_empty() {
            return None;
        }
        math_answer(trimmed.as_str(), value)
    }

    /// What the calculator answers `keyword` with as an arithmetic
    /// expression: what `answer_for` gives for the value that evaluating the
    /// trimmed keyword came to, whatever that value is. A keyword that the
    /// calculator does not evaluate, for want of the capability or because it
    /// is blank, has no value.
    pub fn math_result(&self, keyword: &str) -> (r: Option<String>)
        ensures
            exists|value: Option<Seq<char>>|
                opt_view(r) == #[trigger] math_result_spec(*self, keyword@, value),
    {
        let trimmed = trim(keyword);
        proof {
            lemma_trim_ends_clean(keyword@);
        }
        let value = if self.has_capability("calc.math") && !trimmed.as_str().is_empty() {
            eval_math(trimmed.as_str())
        } else {
            None
        };
        let answer = self.answer_for(keyword, value);
        answer
    }
}

/// What an expression is answered with, given the value that evaluating it
/// came to.
pub fn math_answer(trimmed: &str, value: Option<String>) -> (r: Option<String>)
    ensures
        opt_view(r) == math_answer_spec(trimmed@, opt_view(value)),
{
    match value {
        Some(v) => {
            if !str_eq(v.as_str(), trimmed) {
                let mut answer = "= ".to_owned();
                push_str(&mut answer, v.as_str());
                Some(answer)
            } else {
                None
            }
        },
        None => None,
    }
}

/// The first of the candidates that is an answer, if any is.
pub open spec fn first_answer_spec(candidates: Seq<Option<String>>) -> Option<String>
    decreases candidates.len(),
{
    if candidates.len() == 0 {
        None
    } else if candidates.first() is Some {
        candidates.first()
    } else {
        first_answer_spec(candidates.drop_first())
    }
}

/// The answer to a keyword, given what the evaluation of the keyword as an
/// expression and the conversions of the plan came to, in the order of trial:
/// the first of them that is an answer.
pub fn first_answer(candidates: Vec<Option<String>>) -> (r: Option<String>)
    ensures
        r == first_answer_spec(candidates@),
{
    let mut answer: Option<String> = None;
    assert(candidates@.skip(0) =~= candidates@);
    for candidate in it: candidates.into_iter()
        invariant
            it.seq() == candidates@,
            match answer {
                Some(_) => answer == first_answer_spec(candidates@),
                None => first_answer_spec(candidates@) == first_answer_spec(
                    candidates@.skip(it.index() as int),
                ),
            },
    {
        proof {
            let rest = candidates@.skip(it.index() as int);
            assert(rest.drop_first() =~= candidates@.skip(it.index() as int + 1));
        }
        if answer.is_none() {
            answer = candidate;
        }
    }
    answer
}

/// Shows on the calculator's row what the keyword was answered with: the
/// keyword as the equation and the answer as its result. A row without an
/// answer shows an empty result and is to be hidden: the function returns
/// whether there is an answer.
pub fn update_calc_tile(row: &mut SherlockRow, keyword: &str, result: Option<String>) -> (visible:
    bool)
    ensures
        visible == result is Some,
        final(row)@ == (SherlockRowView {
            title: keyword@,
            body: match result {
                Some(text) => text@,
                None => Seq::empty(),
            },
            ..old(row)@
        }),
{
    let visible = result.is_some();
    row.title = keyword.to_owned();
    row.body = match result {
        Some(text) => text,
        None => String::new(),
    };
    visible
}

} // verus!
