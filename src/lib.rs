//! Row materialization over a reusable bind buffer: positional and name-indexed
//! row cursors, the per-query iterator state machine, and a fail-fast fold.
use vstd::prelude::*;

pub mod binds;
pub mod fold;
pub mod iterator;
pub mod row;
pub mod types;

pub use binds::{Binds, MysqlValue};
pub use fold::{transform_step, FoldView, RowFold};
pub use iterator::{IterState, NamedStatementIterator, StatementIterator};
pub use row::{MysqlRow, NamedMysqlRow};
pub use types::{Field, MysqlType, QueryError, QueryResult, StatementMetadata};

verus! {

} // verus!
