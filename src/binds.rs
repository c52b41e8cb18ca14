use vstd::prelude::*;
use crate::types::{MysqlType, StatementMetadata};

verus! {

/// A view of one column's raw bytes in the bind buffer, with its native type.
#[derive(Clone, Copy, Debug)]
pub struct MysqlValue<'a> {
    pub raw: &'a [u8],
    pub tpe: MysqlType,
}

/// The output buffer of a statement: one slot per column, holding the current
/// row's raw bytes (`None` for SQL NULL). The column count and the column types
/// are fixed when the buffer is allocated; fetching only overwrites slots.
pub struct Binds {
    types: Vec<MysqlType>,
    data: Vec<Option<Vec<u8>>>,
}

impl Binds {
    /// Every column has exactly one slot and one type.
    pub open spec fn wf(&self) -> bool {
        &&& self.values().len() == self.types().len()
        &&& self.types().len() <= usize::MAX
    }

    /// The current row, column by column.
    pub closed spec fn values(&self) -> Seq<Option<Seq<u8>>> {
        Seq::new(self.data@.len(), |i: int|
            match self.data@[i] {
                Some(v) => Some(v@),
                None => None,
            })
    }

    /// The resolved type of each column.
    pub closed spec fn types(&self) -> Seq<MysqlType> {
        self.types@
    }

    pub open spec fn spec_len(&self) -> nat {
        self.types().len()
    }

    /// What a read of column `idx` gives: `None` for NULL or for a column that
    /// does not exist, else the bytes and the column's type.
    pub open spec fn field(&self, idx: int) -> Option<(Seq<u8>, MysqlType)> {
        if 0 <= idx < self.spec_len() {
            match self.values()[idx] {
                Some(b) => Some((b, self.types()[idx])),
                None => None,
            }
        } else {
            None
        }
    }

    /// Allocates a buffer from the caller's type hints; an unknown hint takes the
    /// type that the result metadata declares for that column. All slots start NULL.
    pub fn from_output_types(types: Vec<Option<MysqlType>>, metadata: Option<&StatementMetadata>) -> (r: Binds)
        requires
            forall|i: int| 0 <= i < types@.len() && #[trigger] types@[i].is_none()
                ==> metadata.is_some() && i < metadata.unwrap().fields@.len(),
        ensures
            r.wf(),
            r.spec_len() == types@.len(),
            forall|i: int| 0 <= i < types@.len() ==> #[trigger] r.types()[i] == match types@[i] {
                Some(t) => t,
                None => metadata.unwrap().types()[i],
            },
            forall|i: int| 0 <= i < r.spec_len() ==> #[trigger] r.values()[i].is_none(),
    {
        let mut resolved: Vec<MysqlType> = Vec::new();
        let mut data: Vec<Option<Vec<u8>>> = Vec::new();
        let mut i: usize = 0;
        while i < types.len()
            invariant
                i <= types@.len(),
                resolved@.len() == i,
                data@.len() == i,
                forall|j: int| 0 <= j < types@.len() && #[trigger] types@[j].is_none()
                    ==> metadata.is_some() && j < metadata.unwrap().fields@.len(),
                forall|j: int| 0 <= j < i ==> #[trigger] resolved@[j] == match types@[j] {
                    Some(t) => t,
                    None => metadata.unwrap().types()[j],
                },
                forall|j: int| 0 <= j < i ==> #[trigger] data@[j].is_none(),
            decreases types@.len() - i,
        {
            let t = match types[i] {
                Some(t) => t,
                None => {
                    let md = metadata.unwrap();
                    md.fields[i].tpe
                },
            };
            resolved.push(t);
            data.push(None);
            i = i + 1;
        }
        let r = Binds { types: resolved, data };
        assert forall|j: int| 0 <= j < r.spec_len() implies #[trigger] r.values()[j].is_none() by {
            assert(data@[j].is_none());
        }
        r
    }

    /// Allocates a buffer whose column types are those the metadata declares.
    pub fn from_result_metadata(metadata: &StatementMetadata) -> (r: Binds)
        ensures
            r.wf(),
            r.types() == metadata.types(),
            forall|i: int| 0 <= i < r.spec_len() ==> #[trigger] r.values()[i].is_none(),
    {
        let mut resolved: Vec<MysqlType> = Vec::new();
        let mut data: Vec<Option<Vec<u8>>> = Vec::new();
        let mut i: usize = 0;
        while i < metadata.fields.len()
            invariant
                i <= metadata.fields@.len(),
                resolved@.len() == i,
                data@.len() == i,
                forall|j: int| 0 <= j < i ==> #[trigger] resolved@[j] == metadata.types()[j],
                forall|j: int| 0 <= j < i ==> #[trigger] data@[j].is_none(),
            decreases metadata.fields@.len() - i,
        {
            resolved.push(metadata.fields[i].tpe);
            data.push(None);
            i = i + 1;
        }
        let r = Binds { types: resolved, data };
        assert(r.types() =~= metadata.types());
        assert forall|j: int| 0 <= j < r.spec_len() implies #[trigger] r.values()[j].is_none() by {
            assert(data@[j].is_none());
        }
        r
    }

    /// Number of columns.
    pub fn len(&self) -> (r: usize)
        requires
            self.wf(),
        ensures
            r == self.spec_len(),
    {
        self.types.len()
    }

    /// The value in column `idx` of the current row, `None` for SQL NULL.
    pub fn field_data(&self, idx: usize) -> (r: Option<MysqlValue<'_>>)
        requires
            self.wf(),
            idx < self.spec_len(),
        ensures
            r.is_some() == self.field(idx as int).is_some(),
            r.is_some() ==> (r.unwrap().raw@, r.unwrap().tpe) == self.field(idx as int).unwrap(),
    {
        match &self.data[idx] {
            Some(bytes) => Some(MysqlValue { raw: bytes.as_slice(), tpe: self.types[idx] }),
            None => None,
        }
    }

    /// Overwrites column `idx` of the current row; the fetch of a row fills the
    /// buffer through this.
    pub fn set_field(&mut self, idx: usize, value: Option<Vec<u8>>)
        requires
            old(self).wf(),
            idx < old(self).spec_len(),
        ensures
            final(self).wf(),
            final(self).types() == old(self).types(),
            final(self).values() == old(self).values().update(
                idx as int,
                match value {
                    Some(v) => Some(v@),
                    None => None,
                },
            ),
    {
        self.data.set(idx, value);
        assert(self.values() =~= old(self).values().update(
            idx as int,
            match value {
                Some(v) => Some(v@),
                None => None,
            },
        ));
    }
}

} // verus!
