use vstd::prelude::*;
use crate::binds::Binds;
use crate::row::{MysqlRow, NamedMysqlRow};
use crate::fold::{fold_step, transform_step, RowFold};
use crate::types::{MysqlType, QueryError, QueryResult, StatementMetadata};

verus! {

/// Life cycle of one query execution. `Exhausted` and `Errored` absorb: once
/// there, no further fetch is made.
#[derive(Clone, Copy, Debug, PartialEq, Eq, Structural)]
pub enum IterState {
    Created,
    Executed,
    Exhausted,
    Errored,
}

/// The state after `state` meets the outcome of a row fetch (`Ok(true)`: a
/// row, `Ok(false)`: no more rows).
pub open spec fn next_state(state: IterState, fetched: QueryResult<bool>) -> IterState {
    match state {
        IterState::Executed => match fetched {
            Ok(true) => IterState::Executed,
            Ok(false) => IterState::Exhausted,
            Err(_) => IterState::Errored,
        },
        _ => state,
    }
}

/// The decision shared by both iterators: moves `state` on and says what the
/// caller receives. A fetch error is handed back as it came.
fn advance(state: &mut IterState, fetched: QueryResult<bool>) -> (r: Option<QueryResult<()>>)
    ensures
        *final(state) == next_state(*old(state), fetched),
        *old(state) != IterState::Executed ==> r.is_none(),
        *old(state) == IterState::Executed ==> match fetched {
            Ok(true) => r == Some(Ok::<(), QueryError>(())),
            Ok(false) => r.is_none(),
            Err(e) => r == Some(Err::<(), QueryError>(e)),
        },
{
    match *state {
        IterState::Executed => match fetched {
            Ok(true) => Some(Ok(())),
            Ok(false) => {
                *state = IterState::Exhausted;
                None
            },
            Err(e) => {
                *state = IterState::Errored;
                Some(Err(e))
            },
        },
        _ => None,
    }
}

/// Whether some output type is unknown and must come from the result metadata.
pub open spec fn has_unknown(types: Seq<Option<MysqlType>>) -> bool {
    exists|i: int| 0 <= i < types.len() && #[trigger] types[i].is_none()
}

/// Marks the state after the statement's execution: executed on success,
/// errored on failure.
fn record_execution(state: &mut IterState, outcome: QueryResult<()>) -> (r: QueryResult<()>)
    requires
        *old(state) == IterState::Created,
    ensures
        r == outcome,
        *final(state) == if outcome is Ok { IterState::Executed } else { IterState::Errored },
{
    if outcome.is_ok() {
        *state = IterState::Executed;
    } else {
        *state = IterState::Errored;
    }
    outcome
}

/// Drives a query whose rows are read by position. The buffer keeps the
/// shape it was bound with: the fetch writes into it one slot at a time.
pub struct StatementIterator {
    output_binds: Binds,
    metadata: Option<StatementMetadata>,
    columns: usize,
    state: IterState,
}

impl StatementIterator {
    pub closed spec fn binds(&self) -> Binds {
        self.output_binds
    }

    pub closed spec fn meta(&self) -> Option<StatementMetadata> {
        self.metadata
    }

    pub closed spec fn columns(&self) -> nat {
        self.columns as nat
    }

    pub closed spec fn state(&self) -> IterState {
        self.state
    }

    /// The buffer has one slot per bound column, and metadata, where held,
    /// describes as many columns.
    pub open spec fn wf(&self) -> bool {
        &&& self.binds().wf()
        &&& self.binds().spec_len() == self.columns()
        &&& self.meta() matches Some(m) ==> m.fields@.len() == self.columns()
    }

    /// Whether the output types are incomplete, so that the result metadata must
    /// be fetched before binding.
    pub fn needs_metadata(types: &Vec<Option<MysqlType>>) -> (r: bool)
        ensures
            r == has_unknown(types@),
    {
        let mut i: usize = 0;
        while i < types.len()
            invariant
                i <= types@.len(),
                forall|j: int| 0 <= j < i ==> #[trigger] types@[j].is_some(),
            decreases types@.len() - i,
        {
            if types[i].is_none() {
                return true;
            }
            i = i + 1;
        }
        assert(!has_unknown(types@)) by {
            if has_unknown(types@) {
                let j = choose|j: int| 0 <= j < types@.len() && #[trigger] types@[j].is_none();
                assert(types@[j].is_some());
            }
        }
        false
    }

    /// Binds the output buffer from the caller's type hints. Unknown hints take
    /// the types of `metadata`, which must then be given. Metadata, where given,
    /// must describe as many columns as there are hints. The iterator is then
    /// ready for the statement's execution.
    pub fn new(types: Vec<Option<MysqlType>>, metadata: Option<StatementMetadata>) -> (r: QueryResult<Self>)
        ensures
            r is Err <==> (has_unknown(types@) && metadata.is_none()) || (metadata.is_some()
                && metadata.unwrap().fields@.len() != types@.len()),
            r is Err ==> r->Err_0 is BindResolution,
            r is Ok ==> {
                let it = r->Ok_0;
                &&& it.wf()
                &&& it.state() == IterState::Created
                &&& it.meta() == metadata
                &&& it.columns() == types@.len()
                &&& forall|i: int| 0 <= i < types@.len() ==> #[trigger] it.binds().types()[i] == match types@[i] {
                    Some(t) => t,
                    None => metadata.unwrap().types()[i],
                }
                &&& forall|i: int| 0 <= i < types@.len() ==> #[trigger] it.binds().values()[i].is_none()
            },
    {
        let unknown = Self::needs_metadata(&types);
        let columns = types.len();
        match metadata {
            Some(md) => {
                if md.fields.len() != columns {
                    return Err(QueryError::BindResolution("the result metadata does not match the output types".to_owned()));
                }
                let output_binds = Binds::from_output_types(types, Some(&md));
                Ok(StatementIterator { output_binds, metadata: Some(md), columns, state: IterState::Created })
            },
            None => {
                if unknown {
                    return Err(QueryError::BindResolution("output types are unknown and no result metadata was given".to_owned()));
                }
                let output_binds = Binds::from_output_types(types, None);
                Ok(StatementIterator { output_binds, metadata: None, columns, state: IterState::Created })
            },
        }
    }

    /// Whether the result metadata is held; the rows' column names come from it.
    pub fn has_metadata(&self) -> (r: bool)
        ensures
            r == self.meta().is_some(),
    {
        self.metadata.is_some()
    }

    /// Hands over the result metadata when binding did not need it, so that the
    /// rows can name their columns. It must describe the bound columns.
    pub fn provide_metadata(&mut self, metadata: StatementMetadata) -> (r: QueryResult<()>)
        requires
            old(self).wf(),
        ensures
            final(self).wf(),
            r is Ok <==> metadata.fields@.len() == old(self).columns(),
            r is Err ==> r->Err_0 is BindResolution && *final(self) == *old(self),
            r is Ok ==> final(self).meta() == Some(metadata),
            final(self).binds() == old(self).binds(),
            final(self).columns() == old(self).columns(),
            final(self).state() == old(self).state(),
    {
        if metadata.fields.len() != self.columns {
            return Err(QueryError::BindResolution("the result metadata does not match the bound columns".to_owned()));
        }
        self.metadata = Some(metadata);
        Ok(())
    }

    /// Number of bound columns.
    pub fn column_count(&self) -> (r: usize)
        ensures
            r == self.columns(),
    {
        self.columns
    }

    /// The lifecycle state.
    pub fn current_state(&self) -> (r: IterState)
        ensures
            r == self.state(),
    {
        self.state
    }

    /// The output buffer, for the statement to execute against.
    pub fn output_binds(&self) -> (r: &Binds)
        ensures
            *r == self.binds(),
    {
        &self.output_binds
    }

    /// Writes column `idx` of the row being fetched.
    pub fn set_field(&mut self, idx: usize, value: Option<Vec<u8>>)
        requires
            old(self).wf(),
            idx < old(self).columns(),
        ensures
            final(self).wf(),
            final(self).binds().types() == old(self).binds().types(),
            final(self).binds().values() == old(self).binds().values().update(
                idx as int,
                match value {
                    Some(v) => Some(v@),
                    None => None,
                },
            ),
            final(self).meta() == old(self).meta(),
            final(self).columns() == old(self).columns(),
            final(self).state() == old(self).state(),
    {
        self.output_binds.set_field(idx, value);
    }

    /// Records the outcome of executing the statement. A failure is handed back
    /// and ends the iterator.
    pub fn executed(&mut self, outcome: QueryResult<()>) -> (r: QueryResult<()>)
        requires
            old(self).state() == IterState::Created,
        ensures
            r == outcome,
            final(self).state() == if outcome is Ok { IterState::Executed } else { IterState::Errored },
            final(self).binds() == old(self).binds(),
            final(self).meta() == old(self).meta(),
            final(self).columns() == old(self).columns(),
    {
        record_execution(&mut self.state, outcome)
    }

    /// Takes the outcome of a row fetch into the buffer (`Ok(true)`: a row,
    /// `Ok(false)`: no more rows). Yields a cursor at the first column of the
    /// row, nothing once the rows are exhausted, or the error that ends the
    /// iteration. A finished iterator yields nothing, whatever is handed in.
    /// The metadata must be held, so that the row can name its columns.
    pub fn next(&mut self, fetched: QueryResult<bool>) -> (r: Option<QueryResult<MysqlRow<'_>>>)
        requires
            old(self).wf(),
            old(self).meta().is_some(),
        ensures
            final(self).binds() == old(self).binds(),
            final(self).meta() == old(self).meta(),
            final(self).columns() == old(self).columns(),
            final(self).state() == next_state(old(self).state(), fetched),
            old(self).state() != IterState::Executed ==> r.is_none(),
            old(self).state() == IterState::Executed ==> match fetched {
                Ok(true) => r matches Some(Ok(_)),
                Ok(false) => r.is_none(),
                Err(e) => r == Some(Err::<MysqlRow<'_>, QueryError>(e)),
            },
            r matches Some(Ok(row)) ==> {
                &&& row.wf()
                &&& row.position() == 0
                &&& *row.buffer() == old(self).binds()
                &&& Some(*row.meta()) == old(self).meta()
            },
    {
        match advance(&mut self.state, fetched) {
            None => None,
            Some(Err(e)) => Some(Err(e)),
            Some(Ok(())) => {
                let md = self.metadata.as_ref().unwrap();
                Some(Ok(MysqlRow::new(&self.output_binds, md)))
            },
        }
    }

    /// One round of the fold over the query's rows: takes the outcome of a
    /// fetch, hands a fetched row to `f` and records the result in `fold`.
    /// The fold runs only while the iterator is executed, and finishes at the
    /// end of the rows or at the first error of a fetch or of `f`.
    pub fn map_step<'s, T, F>(&'s mut self, fetched: QueryResult<bool>, fold: &mut RowFold<T>, f: F)
        where
            F: FnOnce(MysqlRow<'s>) -> QueryResult<T>,
        requires
            old(self).wf(),
            old(self).meta().is_some(),
            old(self).state() == IterState::Executed,
            old(fold)@ is Running,
            forall|row: MysqlRow<'s>| call_requires(f, (row,)),
        ensures
            final(self).binds() == old(self).binds(),
            final(self).meta() == old(self).meta(),
            final(self).columns() == old(self).columns(),
            final(self).state() == next_state(old(self).state(), fetched),
            final(fold)@ is Running ==> final(self).state() == IterState::Executed,
            match fetched {
                Ok(true) => exists|row: MysqlRow<'s>, out: QueryResult<T>| {
                    &&& row.position() == 0
                    &&& *row.buffer() == old(self).binds()
                    &&& Some(*row.meta()) == old(self).meta()
                    &&& call_ensures(f, (row,), out)
                    &&& final(fold)@ == fold_step(old(fold)@, Some(out))
                },
                Ok(false) => final(fold)@ == fold_step(old(fold)@, None),
                Err(e) => final(fold)@ == fold_step(old(fold)@, Some(Err(e))),
            },
    {
        let step = transform_step(self.next(fetched), f);
        fold.push(step);
    }
}

/// Drives a query whose rows are read by column name. The result metadata is
/// held for the whole query; the buffer keeps the shape it was bound with.
pub struct NamedStatementIterator {
    output_binds: Binds,
    metadata: StatementMetadata,
    state: IterState,
}

impl NamedStatementIterator {
    pub closed spec fn binds(&self) -> Binds {
        self.output_binds
    }

    pub closed spec fn meta(&self) -> StatementMetadata {
        self.metadata
    }

    pub closed spec fn state(&self) -> IterState {
        self.state
    }

    /// The buffer has one slot per column of the metadata.
    pub open spec fn wf(&self) -> bool {
        &&& self.binds().wf()
        &&& self.binds().spec_len() == self.meta().fields@.len()
    }

    /// Binds the output buffer with the column types that the metadata
    /// declares. The iterator is then ready for the statement's execution.
    pub fn new(metadata: StatementMetadata) -> (r: Self)
        ensures
            r.wf(),
            r.state() == IterState::Created,
            r.meta() == metadata,
            r.binds().types() == metadata.types(),
            forall|i: int| 0 <= i < r.binds().spec_len() ==> #[trigger] r.binds().values()[i].is_none(),
    {
        let output_binds = Binds::from_result_metadata(&metadata);
        NamedStatementIterator { output_binds, metadata, state: IterState::Created }
    }

    /// Number of columns.
    pub fn column_count(&self) -> (r: usize)
        requires
            self.wf(),
        ensures
            r == self.meta().fields@.len(),
    {
        self.output_binds.len()
    }

    /// The lifecycle state.
    pub fn current_state(&self) -> (r: IterState)
        ensures
            r == self.state(),
    {
        self.state
    }

    /// The output buffer, for the statement to execute against.
    pub fn output_binds(&self) -> (r: &Binds)
        ensures
            *r == self.binds(),
    {
        &self.output_binds
    }

    /// Writes column `idx` of the row being fetched.
    pub fn set_field(&mut self, idx: usize, value: Option<Vec<u8>>)
        requires
            old(self).wf(),
            idx < old(self).meta().fields@.len(),
        ensures
            final(self).wf(),
            final(self).binds().types() == old(self).binds().types(),
            final(self).binds().values() == old(self).binds().values().update(
                idx as int,
                match value {
                    Some(v) => Some(v@),
                    None => None,
                },
            ),
            final(self).meta() == old(self).meta(),
            final(self).state() == old(self).state(),
    {
        self.output_binds.set_field(idx, value);
    }

    /// Records the outcome of executing the statement. A failure is handed back
    /// and ends the iterator.
    pub fn executed(&mut self, outcome: QueryResult<()>) -> (r: QueryResult<()>)
        requires
            old(self).state() == IterState::Created,
        ensures
            r == outcome,
            final(self).state() == if outcome is Ok { IterState::Executed } else { IterState::Errored },
            final(self).binds() == old(self).binds(),
            final(self).meta() == old(self).meta(),
    {
        record_execution(&mut self.state, outcome)
    }

    /// Takes the outcome of a row fetch into the buffer (`Ok(true)`: a row,
    /// `Ok(false)`: no more rows). Yields a by-name view of the row, nothing once
    /// the rows are exhausted, or the error that ends the iteration. A finished
    /// iterator yields nothing, whatever is handed in.
    pub fn next(&mut self, fetched: QueryResult<bool>) -> (r: Option<QueryResult<NamedMysqlRow<'_>>>)
        requires
            old(self).wf(),
        ensures
            final(self).binds() == old(self).binds(),
            final(self).meta() == old(self).meta(),
            final(self).state() == next_state(old(self).state(), fetched),
            old(self).state() != IterState::Executed ==> r.is_none(),
            old(self).state() == IterState::Executed ==> match fetched {
                Ok(true) => r matches Some(Ok(_)),
                Ok(false) => r.is_none(),
                Err(e) => r == Some(Err::<NamedMysqlRow<'_>, QueryError>(e)),
            },
            r matches Some(Ok(row)) ==> {
                &&& row.wf()
                &&& *row.buffer() == old(self).binds()
                &&& *row.meta() == old(self).meta()
            },
    {
        match advance(&mut self.state, fetched) {
            None => None,
            Some(Err(e)) => Some(Err(e)),
            Some(Ok(())) => Some(Ok(NamedMysqlRow::new(&self.output_binds, &self.metadata))),
        }
    }

    /// One round of the fold over the query's rows: takes the outcome of a
    /// fetch, hands a fetched row to `f` and records the result in `fold`.
    /// The fold runs only while the iterator is executed, and finishes at the
    /// end of the rows or at the first error of a fetch or of `f`.
    pub fn map_step<'s, T, F>(&'s mut self, fetched: QueryResult<bool>, fold: &mut RowFold<T>, f: F)
        where
            F: FnOnce(NamedMysqlRow<'s>) -> QueryResult<T>,
        requires
            old(self).wf(),
            old(self).state() == IterState::Executed,
            old(fold)@ is Running,
            forall|row: NamedMysqlRow<'s>| call_requires(f, (row,)),
        ensures
            final(self).binds() == old(self).binds(),
            final(self).meta() == old(self).meta(),
            final(self).state() == next_state(old(self).state(), fetched),
            final(fold)@ is Running ==> final(self).state() == IterState::Executed,
            match fetched {
                Ok(true) => exists|row: NamedMysqlRow<'s>, out: QueryResult<T>| {
                    &&& *row.buffer() == old(self).binds()
                    &&& *row.meta() == old(self).meta()
                    &&& call_ensures(f, (row,), out)
                    &&& final(fold)@ == fold_step(old(fold)@, Some(out))
                },
                Ok(false) => final(fold)@ == fold_step(old(fold)@, None),
                Err(e) => final(fold)@ == fold_step(old(fold)@, Some(Err(e))),
            },
    {
        let step = transform_step(self.next(fetched), f);
        fold.push(step);
    }
}

} // verus!
