use vstd::prelude::*;
use crate::types::{QueryError, QueryResult};

verus! {

/// Where a fold over a query's rows stands: still collecting, or finished with
/// all the results in fetch order or with the error that stopped it.
pub enum FoldView<T> {
    Running(Seq<T>),
    Finished(Result<Seq<T>, QueryError>),
}

/// One step of the fold. A step is `None` when the rows are exhausted,
/// `Some(Ok(t))` for a row that the transform turned into `t`, and
/// `Some(Err(e))` for a failed fetch or transform. A finished fold ignores
/// further steps.
pub open spec fn fold_step<T>(v: FoldView<T>, step: Option<QueryResult<T>>) -> FoldView<T> {
    match v {
        FoldView::Finished(r) => FoldView::Finished(r),
        FoldView::Running(items) => match step {
            None => FoldView::Finished(Ok(items)),
            Some(Ok(t)) => FoldView::Running(items.push(t)),
            Some(Err(e)) => FoldView::Finished(Err(e)),
        },
    }
}

/// The fold over a whole sequence of steps, from an empty start.
pub open spec fn fold_steps<T>(steps: Seq<Option<QueryResult<T>>>) -> FoldView<T>
    decreases steps.len(),
{
    if steps.len() == 0 {
        FoldView::Running(Seq::empty())
    } else {
        fold_step(fold_steps(steps.drop_last()), steps.last())
    }
}

/// The steps of rows that were all transformed successfully.
pub open spec fn ok_steps<T>(items: Seq<T>) -> Seq<Option<QueryResult<T>>> {
    items.map_values(|t: T| Some(Ok::<T, QueryError>(t)))
}

/// Rows that all transform successfully are collected in fetch order while
/// the fold runs.
pub proof fn lemma_fold_ok_prefix<T>(items: Seq<T>)
    ensures
        fold_steps(ok_steps(items)) == FoldView::<T>::Running(items),
    decreases items.len(),
{
    if items.len() > 0 {
        let steps = ok_steps(items);
        assert(steps.drop_last() =~= ok_steps(items.drop_last()));
        lemma_fold_ok_prefix(items.drop_last());
        assert(steps.last() == Some(Ok::<T, QueryError>(items.last())));
        assert(items.drop_last().push(items.last()) =~= items);
    } else {
        assert(ok_steps(items) =~= Seq::<Option<QueryResult<T>>>::empty());
        assert(items =~= Seq::<T>::empty());
    }
}

/// Once finished, a fold keeps its result whatever steps follow.
pub proof fn lemma_finished_absorbs<T>(steps: Seq<Option<QueryResult<T>>>, rest: Seq<Option<QueryResult<T>>>)
    requires
        fold_steps(steps) is Finished,
    ensures
        fold_steps(steps + rest) == fold_steps(steps),
    decreases rest.len(),
{
    if rest.len() == 0 {
        assert(steps + rest =~= steps);
    } else {
        lemma_finished_absorbs(steps, rest.drop_last());
        assert((steps + rest).drop_last() =~= steps + rest.drop_last());
    }
}

/// A fold over rows that all transform successfully, followed by the end of
/// the rows, returns every result in fetch order.
pub proof fn lemma_fold_collects_all<T>(items: Seq<T>)
    ensures
        fold_steps(ok_steps(items).push(None)) == FoldView::<T>::Finished(Ok(items)),
{
    lemma_fold_ok_prefix(items);
    assert(ok_steps(items).push(None).drop_last() =~= ok_steps(items));
}

/// A fold in which a fetch or transform fails after some successful rows
/// returns exactly that error, whatever would have come after it: no partial
/// results.
pub proof fn lemma_fold_stops_at_first_error<T>(items: Seq<T>, e: QueryError, rest: Seq<Option<QueryResult<T>>>)
    ensures
        fold_steps(ok_steps(items).push(Some(Err(e))) + rest) == FoldView::<T>::Finished(Err(e)),
{
    let steps = ok_steps(items).push(Some(Err(e)));
    lemma_fold_ok_prefix(items);
    assert(steps.drop_last() =~= ok_steps(items));
    lemma_finished_absorbs(steps, rest);
}

/// Turns what an iterator's advance gave into a fold step: the end of the
/// rows and an error pass through, a row goes through `f`.
pub fn transform_step<R, T, F: FnOnce(R) -> QueryResult<T>>(advanced: Option<QueryResult<R>>, f: F) -> (r: Option<QueryResult<T>>)
    requires
        forall|row: R| call_requires(f, (row,)),
    ensures
        advanced.is_none() ==> r.is_none(),
        advanced matches Some(Err(e)) ==> r == Some(Err::<T, QueryError>(e)),
        advanced matches Some(Ok(row)) ==> r matches Some(out) && call_ensures(f, (row,), out),
{
    match advanced {
        None => None,
        Some(Err(e)) => Some(Err(e)),
        Some(Ok(row)) => Some(f(row)),
    }
}

/// Fail-fast accumulation of transformed rows.
pub struct RowFold<T> {
    items: Vec<T>,
    finished: Option<Option<QueryError>>,
}

impl<T> RowFold<T> {
    pub closed spec fn view(&self) -> FoldView<T> {
        match self.finished {
            None => FoldView::Running(self.items@),
            Some(None) => FoldView::Finished(Ok(self.items@)),
            Some(Some(e)) => FoldView::Finished(Err(e)),
        }
    }

    pub fn new() -> (r: Self)
        ensures
            r@ == fold_steps(Seq::<Option<QueryResult<T>>>::empty()),
    {
        RowFold { items: Vec::new(), finished: None }
    }

    /// Whether a step ended the fold.
    pub fn is_finished(&self) -> (r: bool)
        ensures
            r == self@ is Finished,
    {
        self.finished.is_some()
    }

    /// Takes one step: `None` when the rows are exhausted, else the row's
    /// transformed value or the error of its fetch or transform.
    pub fn push(&mut self, step: Option<QueryResult<T>>)
        ensures
            final(self)@ == fold_step(old(self)@, step),
    {
        if self.finished.is_some() {
            return;
        }
        match step {
            None => {
                self.finished = Some(None);
            },
            Some(Ok(t)) => {
                self.items.push(t);
            },
            Some(Err(e)) => {
                self.finished = Some(Some(e));
            },
        }
    }

    /// The outcome of a finished fold: every result in fetch order, or the
    /// error that stopped it.
    pub fn finish(self) -> (r: QueryResult<Vec<T>>)
        requires
            self@ is Finished,
        ensures
            r matches Ok(v) ==> self@ == FoldView::Finished(Ok::<Seq<T>, QueryError>(v@)),
            r matches Err(e) ==> self@ == FoldView::<T>::Finished(Err(e)),
    {
        match self.finished {
            Some(Some(e)) => Err(e),
            _ => Ok(self.items),
        }
    }
}

} // verus!
