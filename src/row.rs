use vstd::prelude::*;
use crate::binds::{Binds, MysqlValue};
use crate::types::StatementMetadata;

verus! {

/// Index of the first name in `names` equal to `name`, if any.
pub open spec fn first_index_of(names: Seq<Seq<char>>, name: Seq<char>) -> Option<int> {
    if exists|i: int| 0 <= i < names.len() && names[i] == name {
        Some(choose|i: int|
            0 <= i < names.len() && names[i] == name && forall|j: int|
                0 <= j < i ==> names[j] != name)
    } else {
        None
    }
}

/// A positional cursor over the current row of a bind buffer. Columns are
/// consumed in order by `take`; the scan position only grows.
pub struct MysqlRow<'a> {
    col_idx: usize,
    binds: &'a Binds,
    metadata: &'a StatementMetadata,
}

impl<'a> MysqlRow<'a> {
    pub closed spec fn position(&self) -> nat {
        self.col_idx as nat
    }

    pub closed spec fn buffer(&self) -> &'a Binds {
        self.binds
    }

    pub closed spec fn meta(&self) -> &'a StatementMetadata {
        self.metadata
    }

    pub open spec fn wf(&self) -> bool {
        &&& self.buffer().wf()
        &&& self.position() <= self.buffer().spec_len()
        &&& self.meta().fields@.len() == self.buffer().spec_len()
    }

    /// A cursor at the first column of the buffer's current row.
    pub fn new(binds: &'a Binds, metadata: &'a StatementMetadata) -> (r: MysqlRow<'a>)
        requires
            binds.wf(),
            metadata.fields@.len() == binds.spec_len(),
        ensures
            r.wf(),
            r.position() == 0,
            r.buffer() == binds,
            r.meta() == metadata,
    {
        MysqlRow { col_idx: 0, binds, metadata }
    }

    /// Returns the value at the scan position (`None` for NULL) and moves the
    /// position one column on. Reading past the last column is a caller error,
    /// excluded by the precondition.
    pub fn take(&mut self) -> (r: Option<MysqlValue<'a>>)
        requires
            old(self).wf(),
            old(self).position() < old(self).buffer().spec_len(),
        ensures
            final(self).wf(),
            advanced_by_take(*old(self), *final(self)),
            final(self).position() == old(self).position() + 1,
            final(self).buffer() == old(self).buffer(),
            final(self).meta() == old(self).meta(),
            r.is_some() == old(self).buffer().field(old(self).position() as int).is_some(),
            r.is_some() ==> (r.unwrap().raw@, r.unwrap().tpe) == old(self).buffer().field(
                old(self).position() as int,
            ).unwrap(),
    {
        let current_idx = self.col_idx;
        self.col_idx = self.col_idx + 1;
        self.binds.field_data(current_idx)
    }

    /// Whether the `count` columns from the scan position on are all NULL; the
    /// position does not move. True when `count` is zero.
    pub fn next_is_null(&self, count: usize) -> (r: bool)
        requires
            self.wf(),
            self.position() + count <= self.buffer().spec_len(),
        ensures
            r == forall|k: int| 0 <= k < count ==> #[trigger] self.buffer().values()[self.position() + k].is_none(),
            count == 0 ==> r,
    {
        let n = self.binds.len();
        let mut i: usize = 0;
        while i < count
            invariant
                self.wf(),
                n == self.buffer().spec_len(),
                self.position() + count <= self.buffer().spec_len(),
                i <= count,
                forall|k: int| 0 <= k < i ==> #[trigger] self.buffer().values()[self.position() + k].is_none(),
            decreases count - i,
        {
            if self.binds.field_data(self.col_idx + i).is_some() {
                assert(!self.buffer().values()[self.position() + i].is_none());
                return false;
            }
            i = i + 1;
        }
        true
    }

    /// Number of columns of the row.
    pub fn column_count(&self) -> (r: usize)
        requires
            self.wf(),
        ensures
            r == self.buffer().spec_len(),
    {
        self.binds.len()
    }

    /// The name of the column last taken, or of the first column before any
    /// `take`. `None` only for a row without columns.
    pub fn column_name(&self) -> (r: Option<&'a str>)
        requires
            self.wf(),
        ensures
            r.is_some() <==> self.buffer().spec_len() > 0,
            r.is_some() ==> r.unwrap()@ == self.meta().names()[
                if self.position() == 0 { 0 } else { self.position() - 1 }
            ],
    {
        if self.binds.len() == 0 {
            None
        } else {
            let idx = if self.col_idx == 0 { 0 } else { self.col_idx - 1 };
            Some(self.metadata.fields[idx].name.as_str())
        }
    }
}

/// A name-indexed view of the current row of a bind buffer.
pub struct NamedMysqlRow<'a> {
    binds: &'a Binds,
    metadata: &'a StatementMetadata,
}

impl<'a> NamedMysqlRow<'a> {
    pub closed spec fn buffer(&self) -> &'a Binds {
        self.binds
    }

    pub closed spec fn meta(&self) -> &'a StatementMetadata {
        self.metadata
    }

    pub open spec fn wf(&self) -> bool {
        &&& self.buffer().wf()
        &&& self.meta().fields@.len() == self.buffer().spec_len()
    }

    pub fn new(binds: &'a Binds, metadata: &'a StatementMetadata) -> (r: NamedMysqlRow<'a>)
        requires
            binds.wf(),
            metadata.fields@.len() == binds.spec_len(),
        ensures
            r.wf(),
            r.buffer() == binds,
            r.meta() == metadata,
    {
        NamedMysqlRow { binds, metadata }
    }

    /// Position of the column named exactly `column_name`; with repeated names,
    /// the first.
    pub fn index_of(&self, column_name: &str) -> (r: Option<usize>)
        requires
            self.wf(),
        ensures
            r.is_some() == first_index_of(self.meta().names(), column_name@).is_some(),
            r.is_some() ==> r.unwrap() as int == first_index_of(self.meta().names(), column_name@).unwrap(),
            r.is_some() ==> r.unwrap() < self.buffer().spec_len() && self.meta().names()[r.unwrap() as int] == column_name@,
    {
        let wanted = column_name.to_owned();
        let n = self.metadata.fields.len();
        let mut i: usize = 0;
        while i < n
            invariant
                self.wf(),
                n == self.meta().fields@.len(),
                wanted@ == column_name@,
                i <= n,
                forall|j: int| 0 <= j < i ==> #[trigger] self.meta().names()[j] != column_name@,
            decreases n - i,
        {
            if self.metadata.fields[i].name == wanted {
                let ghost names = self.meta().names();
                assert(names[i as int] == column_name@);
                let ghost c = first_index_of(names, column_name@).unwrap();
                assert(c == i as int) by {
                    if c < i {
                        assert(names[c] != column_name@);
                    } else if c > i {
                        assert(names[i as int] != column_name@);
                    }
                }
                return Some(i);
            }
            i = i + 1;
        }
        None
    }

    /// The value at `idx` (`None` for NULL or for an index past the last column).
    pub fn get_raw_value(&self, idx: usize) -> (r: Option<MysqlValue<'a>>)
        requires
            self.wf(),
        ensures
            r.is_some() == self.buffer().field(idx as int).is_some(),
            r.is_some() ==> (r.unwrap().raw@, r.unwrap().tpe) == self.buffer().field(idx as int).unwrap(),
    {
        if idx < self.binds.len() {
            self.binds.field_data(idx)
        } else {
            None
        }
    }
}

/// A name missing from the result set's columns is not found, on any row:
/// the lookup depends on the column names alone, never on the row's data.
pub proof fn lemma_absent_name_not_found(row: NamedMysqlRow, name: Seq<char>)
    requires
        forall|i: int| 0 <= i < row.meta().fields@.len() ==> #[trigger] row.meta().names()[i] != name,
    ensures
        first_index_of(row.meta().names(), name).is_none(),
{
    let names = row.meta().names();
    if exists|i: int| 0 <= i < names.len() && names[i] == name {
        let i = choose|i: int| 0 <= i < names.len() && names[i] == name;
        assert(names[i] != name);
    }
}

/// Looking a column up by name and reading the index found gives what a
/// positional cursor over the same row reads at that index.
pub proof fn lemma_named_read_matches_positional(named: NamedMysqlRow, row: MysqlRow, name: Seq<char>, idx: int)
    requires
        named.wf(),
        row.wf(),
        *named.buffer() == *row.buffer(),
        *named.meta() == *row.meta(),
        first_index_of(named.meta().names(), name) == Some(idx),
        row.position() == idx,
    ensures
        idx < named.buffer().spec_len(),
        named.buffer().field(idx) == row.buffer().field(row.position() as int),
        row.meta().names()[row.position() as int] == name,
{
    let names = named.meta().names();
    let i = choose|i: int| 0 <= i < names.len() && names[i] == name;
    lemma_first_match_exists(names, name, i);
}

/// Where a name occurs, it has a first occurrence.
proof fn lemma_first_match_exists(names: Seq<Seq<char>>, name: Seq<char>, i: int)
    requires
        0 <= i < names.len(),
        names[i] == name,
    ensures
        exists|c: int| 0 <= c < names.len() && names[c] == name && forall|j: int| 0 <= j < c ==> names[j] != name,
    decreases i,
{
    if exists|j: int| 0 <= j < i && names[j] == name {
        let j = choose|j: int| 0 <= j < i && names[j] == name;
        lemma_first_match_exists(names, name, j);
    } else {
        assert(forall|j: int| 0 <= j < i ==> names[j] != name);
    }
}

/// What one `take` does to a cursor: the position moves one column on, over
/// the same row.
pub open spec fn advanced_by_take(before: MysqlRow, after: MysqlRow) -> bool {
    &&& after.position() == before.position() + 1
    &&& after.buffer() == before.buffer()
    &&& after.meta() == before.meta()
}

/// The cursors of a row, from a fresh one, along successive `take`s (each of
/// which needs a column left): the k-th `take` is made at column k, so the
/// takes read the columns once each, in order, and never past the last.
pub proof fn lemma_takes_read_columns_in_order<'a>(cursors: Seq<MysqlRow<'a>>)
    requires
        cursors.len() >= 1,
        cursors[0].position() == 0,
        forall|k: int| 0 <= k < cursors.len() - 1 ==> #[trigger] advanced_by_take(cursors[k], cursors[k + 1]),
        forall|k: int| 0 <= k < cursors.len() - 1 ==> #[trigger] cursors[k].position() < cursors[k].buffer().spec_len(),
    ensures
        forall|k: int| 0 <= k < cursors.len() ==> #[trigger] cursors[k].position() == k,
        forall|k: int| 0 <= k < cursors.len() ==> #[trigger] cursors[k].buffer() == cursors[0].buffer(),
        cursors.len() - 1 <= cursors[0].buffer().spec_len(),
    decreases cursors.len(),
{
    if cursors.len() > 1 {
        let prefix = cursors.drop_last();
        assert forall|k: int| 0 <= k < prefix.len() - 1 implies #[trigger] advanced_by_take(prefix[k], prefix[k + 1]) by {
            assert(advanced_by_take(cursors[k], cursors[k + 1]));
        }
        assert forall|k: int| 0 <= k < prefix.len() - 1 implies #[trigger] prefix[k].position() < prefix[k].buffer().spec_len() by {
            assert(cursors[k].position() < cursors[k].buffer().spec_len());
        }
        lemma_takes_read_columns_in_order(prefix);
        let n = cursors.len() - 1;
        let m = n - 1;
        assert(advanced_by_take(cursors[m], cursors[m + 1]));
        assert(prefix[n - 1] == cursors[n - 1]);
        assert(cursors[n - 1].position() < cursors[n - 1].buffer().spec_len());
        assert forall|k: int| 0 <= k < cursors.len() implies #[trigger] cursors[k].position() == k by {
            if k < n {
                assert(prefix[k] == cursors[k]);
            }
        }
        assert forall|k: int| 0 <= k < cursors.len() implies #[trigger] cursors[k].buffer() == cursors[0].buffer() by {
            if k < n {
                assert(prefix[k] == cursors[k]);
            }
        }
    }
}

} // verus!
