use vstd::prelude::*;
use crate::error::AssemblerError;

verus! {

/// The outcome of a step, as a spec value: the state after it and what it put out.
pub type StepResult<P, O> = Result<(P, Seq<O>), AssemblerError>;

/// The views of a sequence of items.
pub open spec fn views<O: View>(items: Seq<O>) -> Seq<O::V> {
    items.map_values(|o: O| o@)
}

/// `r` and the state `after` are what the step described by `expected` gives.
/// On failure only the error is fixed.
pub open spec fn step_agrees<S, O: View>(
    expected: StepResult<S, O::V>,
    after: S,
    r: Result<Vec<O>, AssemblerError>,
) -> bool {
    match expected {
        Ok((state, out)) => r is Ok && views(r->Ok_0@) == out && after == state,
        Err(e) => r == Err::<Vec<O>, AssemblerError>(e),
    }
}

/// A stage of the assembler: a transducer that takes one item at a time and
/// hands on zero or more outputs, and that is flushed once at the end of input.
/// Its state, input and output are modelled by their views.
pub trait AssemblerPass: Sized + View {
    type Input: View;
    type Output: View;

    /// What `apply` does, as a function of the state and the item.
    spec fn spec_apply(state: Self::V, item: <Self::Input as View>::V) -> StepResult<Self::V, <Self::Output as View>::V>;

    /// What `finish` does, as a function of the state.
    spec fn spec_finish(state: Self::V) -> StepResult<Self::V, <Self::Output as View>::V>;

    fn apply(&mut self, item: Self::Input) -> (r: Result<Vec<Self::Output>, AssemblerError>)
        ensures
            step_agrees(Self::spec_apply(old(self)@, item@), final(self)@, r),
    ;

    fn finish(&mut self) -> (r: Result<Vec<Self::Output>, AssemblerError>)
        ensures
            step_agrees(Self::spec_finish(old(self)@), final(self)@, r),
    ;
}

/// The view of what a pass takes.
pub type InputView<P> = <<P as AssemblerPass>::Input as View>::V;

/// The view of what a pass hands on.
pub type OutputView<P> = <<P as AssemblerPass>::Output as View>::V;

/// Feeding `items` one after the other to `p`, without the final flush.
pub open spec fn run_partial<P: AssemblerPass>(p: P::V, items: Seq<InputView<P>>) -> StepResult<P::V, OutputView<P>>
    decreases items.len(),
{
    if items.len() == 0 {
        Ok((p, Seq::empty()))
    } else {
        match run_partial::<P>(p, items.drop_last()) {
            Ok((q, out)) => match P::spec_apply(q, items.last()) {
                Ok((q2, more)) => Ok((q2, out + more)),
                Err(e) => Err(e),
            },
            Err(e) => Err(e),
        }
    }
}

/// Feeding `items` one after the other to `p`, then flushing it.
pub open spec fn run_all<P: AssemblerPass>(p: P::V, items: Seq<InputView<P>>) -> StepResult<P::V, OutputView<P>> {
    match run_partial::<P>(p, items) {
        Ok((q, out)) => match P::spec_finish(q) {
            Ok((q2, more)) => Ok((q2, out + more)),
            Err(e) => Err(e),
        },
        Err(e) => Err(e),
    }
}

/// The same items in the opposite order.
pub fn reversed<T>(v: Vec<T>) -> (r: Vec<T>)
    ensures
        r@.len() == v@.len(),
        forall|j: int| 0 <= j < v@.len() ==> r@[j] == v@[v@.len() - 1 - j],
{
    let ghost orig = v@;
    let mut v = v;
    let mut r: Vec<T> = Vec::new();
    while v.len() > 0
        invariant
            v@.len() + r@.len() == orig.len(),
            v@ == orig.subrange(0, v@.len() as int),
            forall|j: int| 0 <= j < r@.len() ==> r@[j] == orig[orig.len() - 1 - j],
        decreases v@.len(),
    {
        let x = v.pop().unwrap();
        r.push(x);
    }
    r
}

/// Applies `pass` to each item in order and gathers the outputs, without flushing.
pub fn apply_all_partial<P: AssemblerPass>(pass: &mut P, items: Vec<P::Input>) -> (r: Result<Vec<P::Output>, AssemblerError>)
    ensures
        step_agrees(run_partial::<P>(old(pass)@, views(items@)), final(pass)@, r),
{
    let ghost start = pass@;
    let ghost all = views(items@);
    let total = items.len();
    let mut pending = reversed(items);
    let mut out: Vec<P::Output> = Vec::new();
    let mut done: usize = 0;
    assert(views(out@) =~= Seq::<OutputView<P>>::empty());
    assert(all.subrange(0, 0) =~= Seq::<InputView<P>>::empty());
    while pending.len() > 0
        invariant
            total == all.len(),
            all == views(items@),
            start == old(pass)@,
            done + pending@.len() == all.len(),
            forall|j: int| 0 <= j < pending@.len() ==> pending@[j]@ == all[all.len() - 1 - j],
            run_partial::<P>(start, all.subrange(0, done as int)) == Ok::<(P::V, Seq<OutputView<P>>), AssemblerError>((pass@, views(out@))),
        decreases pending@.len(),
    {
        assert(pending@.last()@ == all[done as int]);
        let item = pending.pop().unwrap();
        let ghost before = pass@;
        let ghost prefix = all.subrange(0, done as int + 1);
        proof {
            assert(prefix.drop_last() =~= all.subrange(0, done as int));
            assert(prefix.last() == item@);
        }
        let mut more = match pass.apply(item) {
            Ok(more) => more,
            Err(e) => {
                proof {
                    assert(run_partial::<P>(start, prefix) == Err::<(P::V, Seq<OutputView<P>>), AssemblerError>(e));
                    lemma_run_partial_stops::<P>(start, all, done as int + 1);
                }
                return Err(e);
            }
        };
        proof {
            assert(views(out@ + more@) =~= views(out@) + views(more@));
        }
        out.append(&mut more);
        done = total - pending.len();
    }
    assert(all.subrange(0, done as int) =~= all);
    Ok(out)
}

/// Applies `pass` to each item in order, then flushes it.
pub fn apply_all<P: AssemblerPass>(pass: &mut P, items: Vec<P::Input>) -> (r: Result<Vec<P::Output>, AssemblerError>)
    ensures
        step_agrees(run_all::<P>(old(pass)@, views(items@)), final(pass)@, r),
{
    let mut out = apply_all_partial(pass, items)?;
    let mut more = pass.finish()?;
    proof {
        assert(views(out@ + more@) =~= views(out@) + views(more@));
    }
    out.append(&mut more);
    Ok(out)
}

/// Once a prefix of the items fails, so does the whole run, with the same error.
pub proof fn lemma_run_partial_stops<P: AssemblerPass>(p: P::V, items: Seq<InputView<P>>, n: int)
    requires
        0 <= n <= items.len(),
        run_partial::<P>(p, items.subrange(0, n)) is Err,
    ensures
        run_partial::<P>(p, items) == run_partial::<P>(p, items.subrange(0, n)),
    decreases items.len() - n,
{
    if n < items.len() {
        let next = items.subrange(0, n + 1);
        assert(next.drop_last() =~= items.subrange(0, n));
        lemma_run_partial_stops::<P>(p, items, n + 1);
    } else {
        assert(items.subrange(0, n) =~= items);
    }
}

} // verus!
