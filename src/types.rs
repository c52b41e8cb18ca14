use vstd::prelude::*;

verus! {

/// Native type tag of an output column.
#[derive(Clone, Copy, Debug, PartialEq, Eq, Structural)]
pub enum MysqlType {
    Tiny,
    UnsignedTiny,
    Short,
    UnsignedShort,
    Long,
    UnsignedLong,
    LongLong,
    UnsignedLongLong,
    Float,
    Double,
    Numeric,
    Time,
    Date,
    DateTime,
    Timestamp,
    String,
    Blob,
    Bit,
    /// A `SET` column.
    SetOf,
    Enum,
}

/// Failures that end a query. Each carries the message the database client reported.
#[derive(Clone, Debug)]
pub enum QueryError {
    /// Result metadata was needed to resolve unknown output types and could not be had.
    BindResolution(String),
    /// The statement could not be executed.
    Execution(String),
    /// Populating the bind buffer with the next row failed.
    Fetch(String),
    /// The caller's row transform failed.
    Transform(String),
}

pub type QueryResult<T> = Result<T, QueryError>;

/// One column descriptor of a result set: its decoded name and its native type.
#[derive(Clone, Debug)]
pub struct Field {
    pub name: String,
    pub tpe: MysqlType,
}

/// The ordered column descriptors of a result set.
#[derive(Clone, Debug)]
pub struct StatementMetadata {
    pub fields: Vec<Field>,
}

impl StatementMetadata {
    pub open spec fn names(&self) -> Seq<Seq<char>> {
        Seq::new(self.fields@.len(), |i: int| self.fields@[i].name@)
    }

    pub open spec fn types(&self) -> Seq<MysqlType> {
        Seq::new(self.fields@.len(), |i: int| self.fields@[i].tpe)
    }

    pub fn new(fields: Vec<Field>) -> (r: StatementMetadata)
        ensures
            r.fields@ == fields@,
    {
        StatementMetadata { fields }
    }
}

} // verus!
