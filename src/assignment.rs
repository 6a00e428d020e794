use crate::field::Felt;
use vstd::prelude::*;

verus! {

/// Structural failures: the circuit cannot be built or filled as asked.
#[derive(Clone, Copy, Debug, PartialEq, Eq, Structural)]
pub enum CircuitError {
    /// The row budget is smaller than the lookup table's domain.
    TableLoad,
    /// A region would lie outside the row budget.
    Assignment,
    /// Operations came out of order: assigning or checking before the
    /// table was loaded, or checking before anything was assigned.
    Sequence,
}

/// One row of the witness: the advice cells `a` and `b` and the two
/// selectors that switch on the sum gate and the range lookup.
#[derive(Clone, Copy, Debug)]
pub struct Row {
    pub a: Felt,
    pub b: Option<Felt>,
    pub q_sum: bool,
    pub q_lookup: bool,
}

impl Row {
    pub open spec fn wf(&self) -> bool {
        &&& self.a.wf()
        &&& self.b matches Some(b) ==> b.wf()
        &&& self.q_sum ==> self.b is Some
    }
}

/// The witness of one proving instance: its row budget, the loaded table
/// column and the rows written so far, each region taking the next row.
#[derive(Clone, Debug)]
pub struct Assignment {
    pub n_rows: usize,
    pub table: Option<Vec<Felt>>,
    pub rows: Vec<Row>,
}

impl Assignment {
    pub open spec fn wf(&self) -> bool {
        &&& self.rows@.len() <= self.n_rows
        &&& forall|i: int| 0 <= i < self.rows@.len() ==> (#[trigger] self.rows@[i]).wf()
        &&& self.table matches Some(t) ==> forall|i: int|
            0 <= i < t@.len() ==> (#[trigger] t@[i]).wf()
    }

    /// An empty instance with `n_rows` rows available.
    pub fn new(n_rows: usize) -> (r: Assignment)
        ensures
            r.wf(),
            r.n_rows == n_rows,
            r.table is None,
            r.rows@.len() == 0,
    {
        Assignment { n_rows, table: None, rows: Vec::new() }
    }
}

} // verus!
