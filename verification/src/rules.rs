//! Field rules: what can be demanded of a text field, and how a set of
//! demands is evaluated into the list of those that were not met.

use vstd::prelude::*;

verus! {

/// Whether `validator` accepts `text` as an e-mail address. The decision takes
/// two regular expressions and an IDNA conversion; it is left to that crate.
pub uninterp spec fn email_format(text: Seq<char>) -> bool;

/// Whether `text` is an e-mail address: it holds an `@`, and `validator`
/// accepts it.
pub open spec fn is_email(text: Seq<char>) -> bool {
    text.contains('@') && email_format(text)
}

/// Calls `validator::ValidateEmail::validate_email` on a string slice.
///
/// Trusted: the result is `email_format` of the text, and a text without an
/// `@` is never accepted, since the method returns `false` at once for it.
#[verifier::external_body]
fn validate_email(text: &str) -> (ok: bool)
    ensures
        ok == email_format(text@),
        ok ==> text@.contains('@'),
{
    validator::ValidateEmail::validate_email(&text)
}

/// Calls `validator::ValidateLength::validate_length` on a string slice, with
/// both bounds given and no exact length.
///
/// Trusted: the method counts the characters of the text and accepts it
/// exactly when the count is neither below `min` nor above `max`.
#[verifier::external_body]
fn validate_length(text: &str, min: u64, max: u64) -> (ok: bool)
    ensures
        ok == (min <= text@.len() <= max),
{
    validator::ValidateLength::validate_length(&text, Some(min), Some(max), None)
}

/// A constraint on the text of one field.
#[derive(Debug, Clone, Copy, PartialEq, Eq, Structural)]
pub enum Rule {
    /// The number of characters lies between `min` and `max`, both included.
    Length { min: u64, max: u64 },
    /// The text has the form of an e-mail address.
    Email,
}

impl Rule {
    /// Whether `text` meets the rule.
    pub open spec fn holds(self, text: Seq<char>) -> bool {
        match self {
            Rule::Length { min, max } => min <= text.len() <= max,
            Rule::Email => is_email(text),
        }
    }

    /// The short name under which a broken rule is reported.
    pub open spec fn code_of(self) -> &'static str {
        match self {
            Rule::Length { .. } => "length",
            Rule::Email => "email",
        }
    }

    /// Decides whether `text` meets the rule.
    pub fn check(&self, text: &str) -> (ok: bool)
        ensures
            ok == self.holds(text@),
    {
        match self {
            Rule::Length { min, max } => validate_length(text, *min, *max),
            Rule::Email => validate_email(text),
        }
    }

    /// The short name under which a broken rule is reported.
    pub fn code(&self) -> (name: &'static str)
        ensures
            name == self.code_of(),
    {
        match self {
            Rule::Length { .. } => "length",
            Rule::Email => "email",
        }
    }
}

/// A rule that a field did not meet.
#[derive(Debug, Clone, Copy, PartialEq, Eq)]
pub struct Violation {
    /// The name of the field.
    pub field: &'static str,
    /// The rule that was broken.
    pub rule: Rule,
    /// The message declared with the rule, if any.
    pub message: Option<&'static str>,
}

/// Whether a list of violations names the field `field`.
pub open spec fn reports(found: Seq<Violation>, field: Seq<char>) -> bool {
    exists|i: int| 0 <= i < found.len() && (#[trigger] found[i]).field@ == field
}

/// A rule attached to a field, together with the text that the field holds.
#[derive(Debug, Clone, Copy)]
pub struct Check<'a> {
    pub field: &'static str,
    pub text: &'a str,
    pub rule: Rule,
    pub message: Option<&'static str>,
}

/// What a check demands, with the field's text as a sequence of characters.
pub struct Demand {
    pub field: &'static str,
    pub text: Seq<char>,
    pub rule: Rule,
    pub message: Option<&'static str>,
}

impl<'a> View for Check<'a> {
    type V = Demand;

    open spec fn view(&self) -> Demand {
        Demand { field: self.field, text: self.text@, rule: self.rule, message: self.message }
    }
}

impl Demand {
    /// Whether the field's text meets the rule.
    pub open spec fn is_met(self) -> bool {
        self.rule.holds(self.text)
    }

    /// What is reported when it does not.
    pub open spec fn violation(self) -> Violation {
        Violation { field: self.field, rule: self.rule, message: self.message }
    }
}

/// The demands that a list of checks makes, in the order of the checks.
pub open spec fn demands_of(checks: Seq<Check>) -> Seq<Demand> {
    checks.map_values(|c: Check| c@)
}

/// The violations of a list of demands: one for each demand that is not met,
/// in the order of the demands.
pub open spec fn violations_of(demands: Seq<Demand>) -> Seq<Violation> {
    demands.filter(|d: Demand| !d.is_met()).map_values(|d: Demand| d.violation())
}

/// Evaluates every check of the list, not stopping at the first that fails.
/// The outcome is `Ok` when all pass, and otherwise the violations in order.
pub fn evaluate(checks: &[Check]) -> (outcome: Result<(), Vec<Violation>>)
    ensures
        match outcome {
            Ok(()) => violations_of(demands_of(checks@)).len() == 0,
            Err(found) => found@ == violations_of(demands_of(checks@)) && found@.len() > 0,
        },
{
    let ghost demands = demands_of(checks@);
    let mut found: Vec<Violation> = Vec::new();
    let mut i: usize = 0;
    while i < checks.len()
        invariant
            i <= checks.len(),
            demands == demands_of(checks@),
            found@ == violations_of(demands.take(i as int)),
        decreases checks.len() - i,
    {
        let check = &checks[i];
        proof {
            let unmet = |d: Demand| !d.is_met();
            assert(demands.take(i + 1).drop_last() == demands.take(i as int));
            reveal(Seq::filter);
            assert(demands.take(i + 1).filter(unmet) == if unmet(demands[i as int]) {
                demands.take(i as int).filter(unmet).push(demands[i as int])
            } else {
                demands.take(i as int).filter(unmet)
            });
        }
        if !check.rule.check(check.text) {
            found.push(Violation { field: check.field, rule: check.rule, message: check.message });
        }
        i += 1;
        assert(found@ =~= violations_of(demands.take(i as int)));
    }
    assert(demands.take(i as int) == demands);
    if found.len() == 0 {
        Ok(())
    } else {
        Err(found)
    }
}

/// Every demand that is not met is reported, wherever in the list it stands.
pub proof fn lemma_every_failure_reported(demands: Seq<Demand>, i: int)
    requires
        0 <= i < demands.len(),
        !demands[i].is_met(),
    ensures
        violations_of(demands).contains(demands[i].violation()),
{
    let unmet = |d: Demand| !d.is_met();
    let failed = demands.filter(unmet);
    demands.lemma_filter_contains(unmet, i);
    let k = choose|k: int| 0 <= k < failed.len() && failed[k] == demands[i];
    assert(violations_of(demands)[k] == demands[i].violation());
}

/// Whatever is reported is the violation of a demand that is not met.
pub proof fn lemma_only_failures_reported(demands: Seq<Demand>, violation: Violation)
    requires
        violations_of(demands).contains(violation),
    ensures
        exists|i: int|
            0 <= i < demands.len() && !demands[i].is_met() && #[trigger] demands[i].violation()
                == violation,
{
    let unmet = |d: Demand| !d.is_met();
    let failed = demands.filter(unmet);
    let k = choose|k: int|
        0 <= k < violations_of(demands).len() && violations_of(demands)[k] == violation;
    assert(failed.contains(failed[k]));
    demands.lemma_filter_contains_rev(unmet, failed[k]);
    let i = choose|i: int| 0 <= i < demands.len() && demands[i] == failed[k];
    demands.lemma_filter_pred(unmet, k);
    assert(demands[i].violation() == violation);
}

/// Nothing is reported exactly when every demand is met.
pub proof fn lemma_clean_iff_all_met(demands: Seq<Demand>)
    ensures
        violations_of(demands).len() == 0 <==> forall|i: int|
            0 <= i < demands.len() ==> (#[trigger] demands[i]).is_met(),
{
    if violations_of(demands).len() == 0 {
        assert forall|i: int| 0 <= i < demands.len() implies (#[trigger] demands[i]).is_met() by {
            if !demands[i].is_met() {
                lemma_every_failure_reported(demands, i);
            }
        }
    } else {
        lemma_only_failures_reported(demands, violations_of(demands)[0]);
    }
}

/// The violations come in the order of the demands: of two that are
/// reported, the one whose demand stands first is reported first.
pub proof fn lemma_order_kept(demands: Seq<Demand>, i: int, j: int)
    requires
        0 <= i < j < demands.len(),
        !demands[i].is_met(),
        !demands[j].is_met(),
    ensures
        exists|k: int, l: int|
            0 <= k < l < violations_of(demands).len() && #[trigger] violations_of(demands)[k]
                == demands[i].violation() && #[trigger] violations_of(demands)[l]
                == demands[j].violation(),
{
    let unmet = |d: Demand| !d.is_met();
    let front = demands.take(j);
    let back = demands.skip(j);
    assert(demands == front + back);
    Seq::filter_distributes_over_add(front, back, unmet);
    assert(front[i] == demands[i] && back[0] == demands[j]);
    front.lemma_filter_contains(unmet, i);
    back.lemma_filter_contains(unmet, 0);
    let k = choose|k: int| 0 <= k < front.filter(unmet).len() && front.filter(unmet)[k] == front[i];
    let m = choose|m: int| 0 <= m < back.filter(unmet).len() && back.filter(unmet)[m] == back[0];
    let l = front.filter(unmet).len() + m;
    assert(demands.filter(unmet)[k] == demands[i]);
    assert(demands.filter(unmet)[l] == demands[j]);
    assert(violations_of(demands)[k] == demands[i].violation());
    assert(violations_of(demands)[l] == demands[j].violation());
}

} // verus!
