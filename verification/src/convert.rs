//! The conversion algorithm that the generated code follows.
//!
//! The conversion routine emitted for a schema evaluates every field of the
//! unvalidated value — a validated field by calling its validator, an
//! unvalidated field by passing its value through — and then either builds
//! the checked value from every bound result, or collects the error payload
//! of every failed validator, in field-declaration order, into the failure
//! list. [`convert`] states that algorithm once, over the per-field
//! evaluation outcomes, so that its guarantees are proved rather than
//! promised: success is total exactly when every validated field succeeded,
//! and a failure carries exactly the failing validators' payloads, in order.

use vstd::prelude::*;

verus! {

/// The outcome of evaluating one field of the unvalidated value.
///
/// A field without a validator passes its value through untouched; a field
/// with a validator yields whatever the validator returned.
pub enum FieldEval<V, E> {
    Unvalidated(V),
    Validated(Result<V, E>),
}

/// True when the field's evaluation binds a value: always for a field
/// without a validator, and for a validated field exactly when its
/// validator accepted the value.
pub open spec fn eval_succeeds<V, E>(e: FieldEval<V, E>) -> bool {
    match e {
        FieldEval::Unvalidated(_) => true,
        FieldEval::Validated(r) => r is Ok,
    }
}

/// The value a successful evaluation binds.
pub open spec fn eval_value<V, E>(e: FieldEval<V, E>) -> V
    recommends
        eval_succeeds(e),
{
    match e {
        FieldEval::Unvalidated(v) => v,
        FieldEval::Validated(r) => r->Ok_0,
    }
}

/// The error payload of a failed evaluation.
pub open spec fn eval_error<V, E>(e: FieldEval<V, E>) -> E
    recommends
        !eval_succeeds(e),
{
    e->Validated_0->Err_0
}

/// True when every field's evaluation succeeded.
pub open spec fn all_succeed<V, E>(s: Seq<FieldEval<V, E>>) -> bool {
    forall|i: int| 0 <= i < s.len() ==> eval_succeeds(#[trigger] s[i])
}

/// The values bound by the evaluations, one per field, in declaration
/// order. Meaningful when all evaluations succeeded.
pub open spec fn bound_values<V, E>(s: Seq<FieldEval<V, E>>) -> Seq<V> {
    s.map_values(|e: FieldEval<V, E>| eval_value(e))
}

/// The successful evaluations, in declaration order.
pub open spec fn successful_evals<V, E>(s: Seq<FieldEval<V, E>>) -> Seq<FieldEval<V, E>> {
    s.filter(|e: FieldEval<V, E>| eval_succeeds(e))
}

/// The failed evaluations, in declaration order.
pub open spec fn failing_evals<V, E>(s: Seq<FieldEval<V, E>>) -> Seq<FieldEval<V, E>> {
    s.filter(|e: FieldEval<V, E>| !eval_succeeds(e))
}

/// The error payloads of the failed evaluations, in declaration order.
/// A field without a validator never contributes an entry.
pub open spec fn failure_payloads<V, E>(s: Seq<FieldEval<V, E>>) -> Seq<E>
    decreases s.len(),
{
    if s.len() == 0 {
        Seq::empty()
    } else {
        failure_payloads(s.drop_last()) + (if !eval_succeeds(s.last()) {
            seq![eval_error(s.last())]
        } else {
            Seq::empty()
        })
    }
}

/// Convert the per-field evaluation outcomes of one unvalidated value into
/// the conversion's overall result: every bound value, in declaration
/// order, when every validated field succeeded; otherwise every failed
/// validator's error payload, in declaration order.
///
/// Every field is evaluated before this aggregation runs, so an early
/// failure never keeps a later validator's failure out of the list.
pub fn convert<V, E>(evals: Vec<FieldEval<V, E>>) -> (r: Result<Vec<V>, Vec<E>>)
    ensures
        r is Ok <==> all_succeed(evals@),
        r is Ok ==> r->Ok_0@ == bound_values(evals@),
        r is Err ==> r->Err_0@ == failure_payloads(evals@) && r->Err_0@.len() > 0,
{
    let ghost evs = evals@;
    let mut values: Vec<V> = Vec::new();
    let mut errors: Vec<E> = Vec::new();
    let mut rest = evals;
    let ghost mut i: int = 0;
    while rest.len() > 0
        invariant
            i + rest@.len() == evs.len(),
            0 <= i,
            rest@ == evs.skip(i),
            values@ == bound_values(successful_evals(evs.take(i))),
            errors@ == failure_payloads(evs.take(i)),
        decreases rest@.len(),
    {
        proof {
            assert(rest@[0] == evs[i]);
            assert(evs.skip(i).remove(0) =~= evs.skip(i + 1));
            lemma_take_snoc(evs, i);
        }
        let ghost taken = evs.take(i);
        let ghost cur = evs[i];
        let e = rest.remove(0);
        proof {
            reveal(Seq::filter);
            assert(taken.push(cur).drop_last() =~= taken);
            assert(taken.push(cur).last() == cur);
            // one unfolding of filter and of failure_payloads at the new prefix
            assert(successful_evals(taken.push(cur)) == if eval_succeeds(cur) {
                successful_evals(taken).push(cur)
            } else {
                successful_evals(taken)
            });
            assert(failure_payloads(taken.push(cur)) == failure_payloads(taken) + (
            if !eval_succeeds(cur) {
                seq![eval_error(cur)]
            } else {
                Seq::empty()
            }));
            if eval_succeeds(cur) {
                assert(bound_values(successful_evals(taken).push(cur)) =~= bound_values(
                    successful_evals(taken),
                ).push(eval_value(cur)));
            } else {
                assert(failure_payloads(taken) + seq![eval_error(cur)] =~= failure_payloads(
                    taken,
                ).push(eval_error(cur)));
            }
        }
        match e {
            FieldEval::Unvalidated(v) => values.push(v),
            FieldEval::Validated(res) => match res {
                Result::Ok(v) => values.push(v),
                Result::Err(err) => errors.push(err),
            },
        }
        proof {
            if eval_succeeds(cur) {
                assert(failure_payloads(taken.push(cur)) =~= failure_payloads(taken));
            }
            i = i + 1;
        }
    }
    proof {
        assert(evs.take(evs.len() as int) =~= evs);
        lemma_no_failures_iff_all_succeed(evs);
        if all_succeed(evs) {
            lemma_all_succeed_filter_identity(evs);
        }
    }
    if errors.len() == 0 {
        Result::Ok(values)
    } else {
        Result::Err(errors)
    }
}

/// `s.take(i + 1)` is `s.take(i)` with `s[i]` appended.
proof fn lemma_take_snoc<A>(s: Seq<A>, i: int)
    requires
        0 <= i < s.len(),
    ensures
        s.take(i + 1) == s.take(i).push(s[i]),
{
    assert(s.take(i + 1) =~= s.take(i).push(s[i]));
}

/// The failure list is empty exactly when every evaluation succeeded: a
/// rejected conversion always carries at least one payload, and an accepted
/// one never hides a failure.
pub proof fn lemma_no_failures_iff_all_succeed<V, E>(s: Seq<FieldEval<V, E>>)
    ensures
        failure_payloads(s).len() == 0 <==> all_succeed(s),
    decreases s.len(),
{
    if s.len() > 0 {
        lemma_no_failures_iff_all_succeed(s.drop_last());
        if all_succeed(s) {
            assert(all_succeed(s.drop_last()));
        }
        if failure_payloads(s).len() == 0 {
            assert(eval_succeeds(s.last()));
            assert(forall|i: int|
                0 <= i < s.len() - 1 ==> #[trigger] s[i] == s.drop_last()[i]);
        }
    }
}

/// When every evaluation succeeds, filtering for the successful ones keeps
/// the whole sequence.
proof fn lemma_all_succeed_filter_identity<V, E>(s: Seq<FieldEval<V, E>>)
    requires
        all_succeed(s),
    ensures
        successful_evals(s) == s,
    decreases s.len(),
{
    reveal(Seq::filter);
    if s.len() == 0 {
        assert(successful_evals(s) =~= s);
    } else {
        assert(all_succeed(s.drop_last()));
        lemma_all_succeed_filter_identity(s.drop_last());
        assert(eval_succeeds(s.last()));
        assert(successful_evals(s) =~= s);
    }
}

/// An input where no field carries a validator always converts, and its
/// output's fields are exactly its own field values.
pub proof fn lemma_unvalidated_input_converts<V, E>(s: Seq<FieldEval<V, E>>)
    requires
        forall|i: int| 0 <= i < s.len() ==> #[trigger] s[i] is Unvalidated,
    ensures
        all_succeed(s),
        bound_values(s).len() == s.len(),
        forall|i: int| 0 <= i < s.len() ==> bound_values(s)[i] == #[trigger] s[i]->Unvalidated_0,
{
    assert(forall|i: int| 0 <= i < s.len() ==> eval_succeeds(#[trigger] s[i]));
}

/// When every validator accepts, the conversion succeeds and every output
/// field is the value its validator (or pass-through) produced.
pub proof fn lemma_all_accepting_converts<V, E>(s: Seq<FieldEval<V, E>>)
    requires
        all_succeed(s),
    ensures
        bound_values(s).len() == s.len(),
        forall|i: int| 0 <= i < s.len() ==> bound_values(s)[i] == eval_value(#[trigger] s[i]),
{
}

/// The failure list holds exactly the payloads of the failed validators —
/// one entry per failure, in field-declaration order, never an entry for a
/// success or for a field without a validator.
pub proof fn lemma_failures_collected_in_order<V, E>(s: Seq<FieldEval<V, E>>)
    ensures
        failure_payloads(s) == failing_evals(s).map_values(
            |e: FieldEval<V, E>| eval_error(e),
        ),
        failure_payloads(s).len() == failing_evals(s).len(),
    decreases s.len(),
{
    reveal(Seq::filter);
    let pred = |e: FieldEval<V, E>| !eval_succeeds(e);
    let payload = |e: FieldEval<V, E>| eval_error(e);
    if s.len() == 0 {
        assert(failure_payloads(s) =~= failing_evals(s).map_values(payload));
    } else {
        lemma_failures_collected_in_order(s.drop_last());
        if !eval_succeeds(s.last()) {
            assert(failing_evals(s) == failing_evals(s.drop_last()).push(s.last()));
            assert(failing_evals(s).map_values(payload) =~= failing_evals(
                s.drop_last(),
            ).map_values(payload).push(payload(s.last())));
            assert(failure_payloads(s) =~= failure_payloads(s.drop_last()).push(
                eval_error(s.last()),
            ));
        } else {
            assert(failing_evals(s) == failing_evals(s.drop_last()));
            assert(failure_payloads(s) =~= failure_payloads(s.drop_last()));
        }
    }
}

} // verus!
