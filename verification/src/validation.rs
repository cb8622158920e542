//! The error model shared by all rules, and the runner that drives an
//! ordered catalogue of rules over one document.

use crate::csaf_traits::CsafTrait;
use vstd::prelude::*;

verus! {

/// One violation: what is wrong, and where in the document.
#[derive(Clone, Debug, PartialEq, Eq)]
pub struct ValidationError {
    /// Human-readable description, with the offending values spelled out.
    pub message: String,
    /// Slash-delimited pointer to the offending value, array indices from zero.
    pub instance_path: String,
}

/// The mathematical content of a [`ValidationError`].
pub struct ValidationErrorView {
    pub message: Seq<char>,
    pub instance_path: Seq<char>,
}

impl View for ValidationError {
    type V = ValidationErrorView;

    open spec fn view(&self) -> ValidationErrorView {
        ValidationErrorView { message: self.message@, instance_path: self.instance_path@ }
    }
}

impl DeepView for ValidationError {
    type V = ValidationErrorView;

    open spec fn deep_view(&self) -> ValidationErrorView {
        self@
    }
}

/// The model of an outcome: success, or the violations found, in order.
pub type OutcomeView = Result<(), Seq<ValidationErrorView>>;

/// The model of what a rule or the runner returned.
pub open spec fn outcome_view(outcome: Result<(), Vec<ValidationError>>) -> OutcomeView {
    match outcome {
        Ok(_) => Ok(()),
        Err(errors) => Err(errors.deep_view()),
    }
}

/// The violations of one outcome: none for a success.
pub open spec fn violations_of(outcome: OutcomeView) -> Seq<ValidationErrorView> {
    match outcome {
        Ok(_) => Seq::empty(),
        Err(errors) => errors,
    }
}

/// All violations of the given outcomes, concatenated in order.
pub open spec fn all_violations(outcomes: Seq<OutcomeView>) -> Seq<ValidationErrorView>
    decreases outcomes.len(),
{
    if outcomes.len() == 0 {
        Seq::empty()
    } else {
        all_violations(outcomes.drop_last()) + violations_of(outcomes.last())
    }
}

/// The outcome of a whole pass, given the outcome of each rule in catalogue
/// order: success exactly if every rule succeeded, and otherwise the
/// violations of every failing rule, in catalogue order.
pub open spec fn combined_outcome(outcomes: Seq<OutcomeView>) -> OutcomeView {
    if forall|i: int| 0 <= i < outcomes.len() ==> outcomes[i] is Ok {
        Ok(())
    } else {
        Err(all_violations(outcomes))
    }
}

/// The models of a list of outcomes, one by one.
pub open spec fn outcome_views(outcomes: Seq<Result<(), Vec<ValidationError>>>) -> Seq<
    OutcomeView,
> {
    outcomes.map_values(|outcome: Result<(), Vec<ValidationError>>| outcome_view(outcome))
}

/// Combines the outcomes of the rules of a catalogue, given in catalogue
/// order, into the outcome of the pass.
pub fn collect_outcomes(outcomes: Vec<Result<(), Vec<ValidationError>>>) -> (combined: Result<
    (),
    Vec<ValidationError>,
>)
    ensures
        outcome_view(combined) == combined_outcome(outcome_views(outcomes@)),
{
    let ghost views = outcome_views(outcomes@);
    let mut violations: Vec<ValidationError> = Vec::new();
    let mut failed = false;
    for outcome in it: outcomes
        invariant
            it.seq() == outcomes@,
            views == outcome_views(outcomes@),
            violations.deep_view() == all_violations(views.take(it.index() as int)),
            failed <==> exists|i: int| 0 <= i < it.index() && views[i] is Err,
    {
        proof {
            let done = it.index() as int;
            assert(views.take(done + 1).drop_last() =~= views.take(done));
            assert(views.take(done + 1).last() == outcome_view(outcome));
        }
        match outcome {
            Ok(_) => {
                assert(violations.deep_view() + Seq::<ValidationErrorView>::empty()
                    =~= violations.deep_view());
            },
            Err(mut errors) => {
                let ghost before = violations.deep_view();
                let ghost added = errors.deep_view();
                violations.append(&mut errors);
                assert(violations.deep_view() =~= before + added);
                failed = true;
            },
        }
    }
    proof {
        assert(views.take(views.len() as int) =~= views);
    }
    if failed {
        Err(violations)
    } else {
        Ok(())
    }
}

/// Whether `outcomes` holds, rule by rule in catalogue order, an outcome of
/// that rule on `doc`.
pub open spec fn outcomes_of_rules<D: CsafTrait, F: Fn(&D) -> Result<(), Vec<ValidationError>>>(
    catalogue: Seq<F>,
    doc: &D,
    outcomes: Seq<Result<(), Vec<ValidationError>>>,
) -> bool {
    &&& outcomes.len() == catalogue.len()
    &&& forall|i: int|
        0 <= i < catalogue.len() ==> call_ensures(catalogue[i], (doc,), #[trigger] outcomes[i])
}

/// Runs every rule of the catalogue on the document, in catalogue order and
/// whatever the rules before it found, and combines their outcomes: success
/// only if every rule succeeded, and otherwise the violations of every
/// failing rule, in catalogue order.
pub fn run_rules<D: CsafTrait, F: Fn(&D) -> Result<(), Vec<ValidationError>>>(
    doc: &D,
    catalogue: &Vec<F>,
) -> (outcome: Result<(), Vec<ValidationError>>)
    requires
        forall|i: int| 0 <= i < catalogue.len() ==> call_requires(#[trigger] catalogue[i], (doc,)),
    ensures
        exists|outcomes: Seq<Result<(), Vec<ValidationError>>>|
            outcomes_of_rules(catalogue@, doc, outcomes) && outcome_view(outcome)
                == combined_outcome(outcome_views(outcomes)),
{
    let mut outcomes: Vec<Result<(), Vec<ValidationError>>> = Vec::new();
    let mut index: usize = 0;
    while index < catalogue.len()
        invariant
            index <= catalogue.len(),
            outcomes.len() == index,
            forall|i: int|
                0 <= i < catalogue.len() ==> call_requires(#[trigger] catalogue[i], (doc,)),
            forall|i: int|
                0 <= i < index ==> call_ensures(catalogue[i], (doc,), #[trigger] outcomes[i]),
        decreases catalogue.len() - index,
    {
        let rule = &catalogue[index];
        let outcome = rule(doc);
        outcomes.push(outcome);
        index += 1;
    }
    let ghost witnessed = outcomes@;
    let combined = collect_outcomes(outcomes);
    assert(outcomes_of_rules(catalogue@, doc, witnessed));
    combined
}

/// The violations of a catalogue's first `count` rules are the beginning of
/// the violations of the whole catalogue.
pub proof fn lemma_violations_extend(outcomes: Seq<OutcomeView>, count: int)
    requires
        0 <= count <= outcomes.len(),
    ensures
        all_violations(outcomes.take(count)).len() <= all_violations(outcomes).len(),
        all_violations(outcomes).subrange(0, all_violations(outcomes.take(count)).len() as int)
            == all_violations(outcomes.take(count)),
    decreases outcomes.len() - count,
{
    if count == outcomes.len() {
        assert(outcomes.take(count) =~= outcomes);
        assert(all_violations(outcomes).subrange(0, all_violations(outcomes).len() as int)
            =~= all_violations(outcomes));
    } else {
        let front = outcomes.drop_last();
        assert(front.take(count) =~= outcomes.take(count));
        lemma_violations_extend(front, count);
        let shorter = all_violations(outcomes.take(count));
        assert(all_violations(outcomes).subrange(0, shorter.len() as int) =~= all_violations(
            front,
        ).subrange(0, shorter.len() as int));
    }
}

/// How many violations the rules before the one at `index` contribute.
pub open spec fn violations_before(outcomes: Seq<OutcomeView>, index: int) -> int {
    all_violations(outcomes.take(index)).len() as int
}

/// Where the rule at `index` fails, the pass fails, and the rule's
/// violations stand in the result as one block, right behind the violations
/// of the rules before it.
pub proof fn lemma_failure_is_reported(outcomes: Seq<OutcomeView>, index: int)
    requires
        0 <= index < outcomes.len(),
        outcomes[index] is Err,
    ensures
        combined_outcome(outcomes) == Err::<(), Seq<ValidationErrorView>>(
            all_violations(outcomes),
        ),
        violations_before(outcomes, index + 1) == violations_before(outcomes, index)
            + violations_of(outcomes[index]).len(),
        violations_before(outcomes, index + 1) <= all_violations(outcomes).len(),
        all_violations(outcomes).subrange(
            violations_before(outcomes, index),
            violations_before(outcomes, index + 1),
        ) == violations_of(outcomes[index]),
{
    let before = all_violations(outcomes.take(index));
    let through = all_violations(outcomes.take(index + 1));
    let own = violations_of(outcomes[index]);
    let all = all_violations(outcomes);
    assert(outcomes.take(index + 1).drop_last() =~= outcomes.take(index));
    assert(outcomes.take(index + 1).last() == outcomes[index]);
    assert(through == before + own);
    lemma_violations_extend(outcomes, index + 1);
    assert(all.subrange(0, through.len() as int) == through);
    assert forall|k: int| 0 <= k < own.len() implies all[before.len() + k] == own[k] by {
        assert(all.subrange(0, through.len() as int)[before.len() + k] == through[before.len()
            + k]);
    }
    assert(all.subrange(before.len() as int, through.len() as int) =~= own);
}

/// Where two rules of the catalogue both fail, the result holds the
/// violations of both, each as one block, and those of the rule that stands
/// first in the catalogue come first.
pub proof fn lemma_both_failures_reported(outcomes: Seq<OutcomeView>, first: int, second: int)
    requires
        0 <= first < second < outcomes.len(),
        outcomes[first] is Err,
        outcomes[second] is Err,
    ensures
        combined_outcome(outcomes) == Err::<(), Seq<ValidationErrorView>>(
            all_violations(outcomes),
        ),
        0 <= violations_before(outcomes, first) <= violations_before(outcomes, first + 1)
            <= violations_before(outcomes, second) <= violations_before(outcomes, second + 1)
            <= all_violations(outcomes).len(),
        all_violations(outcomes).subrange(
            violations_before(outcomes, first),
            violations_before(outcomes, first + 1),
        ) == violations_of(outcomes[first]),
        all_violations(outcomes).subrange(
            violations_before(outcomes, second),
            violations_before(outcomes, second + 1),
        ) == violations_of(outcomes[second]),
{
    lemma_failure_is_reported(outcomes, first);
    lemma_failure_is_reported(outcomes, second);
    let upto = outcomes.take(second);
    assert(upto.take(first + 1) =~= outcomes.take(first + 1));
    lemma_violations_extend(upto, first + 1);
}

/// Whether each rule of the catalogue is a function of the document: any
/// two outcomes it may give on `doc` are the same.
pub open spec fn rules_are_functions<D: CsafTrait, F: Fn(&D) -> Result<(), Vec<ValidationError>>>(
    catalogue: Seq<F>,
    doc: &D,
) -> bool {
    forall|i: int, a: Result<(), Vec<ValidationError>>, b: Result<(), Vec<ValidationError>>|
        0 <= i < catalogue.len() && #[trigger] call_ensures(catalogue[i], (doc,), a)
            && #[trigger] call_ensures(catalogue[i], (doc,), b) ==> outcome_view(a)
            == outcome_view(b)
}

/// A pass over rules that are functions of the document gives the same
/// result every time it is run on the same document.
pub proof fn lemma_run_rules_repeatable<
    D: CsafTrait,
    F: Fn(&D) -> Result<(), Vec<ValidationError>>,
>(
    doc: &D,
    catalogue: &Vec<F>,
    first: Result<(), Vec<ValidationError>>,
    second: Result<(), Vec<ValidationError>>,
)
    requires
        rules_are_functions(catalogue@, doc),
        call_ensures(run_rules::<D, F>, (doc, catalogue), first),
        call_ensures(run_rules::<D, F>, (doc, catalogue), second),
    ensures
        outcome_view(first) == outcome_view(second),
{
    let one = choose|outcomes: Seq<Result<(), Vec<ValidationError>>>|
        outcomes_of_rules(catalogue@, doc, outcomes) && outcome_view(first) == combined_outcome(
            outcome_views(outcomes),
        );
    let other = choose|outcomes: Seq<Result<(), Vec<ValidationError>>>|
        outcomes_of_rules(catalogue@, doc, outcomes) && outcome_view(second) == combined_outcome(
            outcome_views(outcomes),
        );
    assert(outcome_views(one) =~= outcome_views(other));
}

} // verus!
