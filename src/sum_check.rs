use crate::assignment::Assignment;
use crate::assignment::CircuitError;
use crate::assignment::Row;
use crate::field::field_add;
use crate::field::field_sub;
use crate::field::lemma_sub_zero_iff_eq;
use crate::field::Felt;
use crate::table::in_table;
use crate::table::LimitIntTable;
use vstd::prelude::*;

verus! {

/// A finding of the satisfiability check.
#[derive(Clone, Copy, Debug)]
pub enum Violation {
    /// The sum constraint "sum check" does not vanish at `row`.
    Gate { row: usize },
    /// The lookup of `value`, read from column `a` at `row`, finds no row of
    /// the table.
    Lookup { row: usize, value: Felt },
}

impl Violation {
    /// The name of the rule that was broken.
    pub fn rule_name(&self) -> (r: String)
        ensures
            self is Gate ==> r@ == "sum check"@,
            self is Lookup ==> r@ == "lookup"@,
    {
        match self {
            Violation::Gate { .. } => String::from_str("sum check"),
            Violation::Lookup { .. } => String::from_str("lookup"),
        }
    }
}

/// Why a check did not accept.
#[derive(Clone, Debug)]
pub enum CheckError {
    /// The instance could not be built or checked.
    Malformed(CircuitError),
    /// The witness breaks the circuit; every violation, in row order.
    Rejected(Vec<Violation>),
}

/// The cells written by `assign`.
#[derive(Clone, Copy, Debug)]
pub struct SumConstrained {
    pub row: usize,
    pub a: Felt,
    pub b: Felt,
}

/// The cell written by `assign_lookup`.
#[derive(Clone, Copy, Debug)]
pub struct RangeConstrained {
    pub row: usize,
    pub value: Felt,
}

/// The shape of the circuit: two advice cells `a` and `b` of one row must sum
/// to `sum`, and `a` must be found in a table of the integers `0..max`.
#[derive(Clone, Copy, Debug)]
pub struct SumCheckConfig {
    pub sum: Felt,
    pub table: LimitIntTable,
}

impl SumCheckConfig {
    pub open spec fn wf(&self) -> bool {
        self.sum.wf()
    }

    /// The sum constraint `a + b - sum` vanishes on the row.
    pub open spec fn gate_holds(&self, row: Row) -> bool {
        row.b matches Some(b) && field_add(row.a.val(), b.val()) == self.sum.val()
    }

    /// The violations found at row `i`: the sum constraint's first, then the lookup's.
    pub open spec fn row_violations(&self, t: Seq<Felt>, row: Row, i: int) -> Seq<Violation> {
        (if row.q_sum && !self.gate_holds(row) {
            seq![Violation::Gate { row: i as usize }]
        } else {
            seq![]
        }) + (if row.q_lookup && !in_table(t, row.a) {
            seq![Violation::Lookup { row: i as usize, value: row.a }]
        } else {
            seq![]
        })
    }

    /// Every violation of the rows against the table, in row order.
    pub open spec fn violations(&self, t: Seq<Felt>, rows: Seq<Row>) -> Seq<Violation>
        decreases rows.len(),
    {
        if rows.len() == 0 {
            seq![]
        } else {
            self.violations(t, rows.drop_last()) + self.row_violations(
                t,
                rows.last(),
                rows.len() - 1,
            )
        }
    }

    /// Declares the sum constraint and the lookup over a table of `0..max`.
    pub fn configure(sum: u64, max: usize) -> (r: SumCheckConfig)
        ensures
            r.wf(),
            r.sum.val() == sum as int,
            r.table.max == max,
    {
        SumCheckConfig { sum: Felt::from_u64(sum), table: LimitIntTable::configure(max) }
    }

    /// Opens a region on the next free row, enables the sum gate there and
    /// writes `a` and `b`.
    pub fn assign(&self, asg: &mut Assignment, a: Felt, b: Felt) -> (r: Result<
        SumConstrained,
        CircuitError,
    >)
        requires
            old(asg).wf(),
            a.wf(),
            b.wf(),
        ensures
            final(asg).wf(),
            old(asg).table is None ==> r == Err::<SumConstrained, CircuitError>(
                CircuitError::Sequence,
            ) && *final(asg) == *old(asg),
            old(asg).table is Some && old(asg).rows@.len() >= old(asg).n_rows ==> r == Err::<
                SumConstrained,
                CircuitError,
            >(CircuitError::Assignment) && *final(asg) == *old(asg),
            old(asg).table is Some && old(asg).rows@.len() < old(asg).n_rows ==> r == Ok::<
                SumConstrained,
                CircuitError,
            >(SumConstrained { row: old(asg).rows@.len() as usize, a, b }) && final(asg).n_rows
                == old(asg).n_rows && final(asg).table == old(asg).table && final(asg).rows@
                == old(asg).rows@.push(Row { a, b: Some(b), q_sum: true, q_lookup: false }),
    {
        if asg.table.is_none() {
            return Err(CircuitError::Sequence);
        }
        if asg.rows.len() >= asg.n_rows {
            return Err(CircuitError::Assignment);
        }
        let row = asg.rows.len();
        asg.rows.push(Row { a, b: Some(b), q_sum: true, q_lookup: false });
        Ok(SumConstrained { row, a, b })
    }

    /// Opens a region on the next free row, enables the range lookup there
    /// and writes `a`.  Column `b` is left unassigned and is never looked up.
    pub fn assign_lookup(&self, asg: &mut Assignment, a: Felt) -> (r: Result<
        RangeConstrained,
        CircuitError,
    >)
        requires
            old(asg).wf(),
            a.wf(),
        ensures
            final(asg).wf(),
            old(asg).table is None ==> r == Err::<RangeConstrained, CircuitError>(
                CircuitError::Sequence,
            ) && *final(asg) == *old(asg),
            old(asg).table is Some && old(asg).rows@.len() >= old(asg).n_rows ==> r == Err::<
                RangeConstrained,
                CircuitError,
            >(CircuitError::Assignment) && *final(asg) == *old(asg),
            old(asg).table is Some && old(asg).rows@.len() < old(asg).n_rows ==> r == Ok::<
                RangeConstrained,
                CircuitError,
            >(RangeConstrained { row: old(asg).rows@.len() as usize, value: a })
                && final(asg).n_rows == old(asg).n_rows && final(asg).table == old(asg).table
                && final(asg).rows@ == old(asg).rows@.push(
                Row { a, b: None, q_sum: false, q_lookup: true },
            ),
    {
        if asg.table.is_none() {
            return Err(CircuitError::Sequence);
        }
        if asg.rows.len() >= asg.n_rows {
            return Err(CircuitError::Assignment);
        }
        let row = asg.rows.len();
        asg.rows.push(Row { a, b: None, q_sum: false, q_lookup: true });
        Ok(RangeConstrained { row, value: a })
    }
}

impl SumCheckConfig {
    /// Whether the sum constraint vanishes on the row.
    fn eval_gate(&self, row: &Row) -> (r: bool)
        requires
            self.wf(),
            row.wf(),
            row.b is Some,
        ensures
            r == self.gate_holds(*row),
    {
        match &row.b {
            Some(b) => {
                let s = row.a.add(b);
                let d = s.sub(&self.sum);
                let zero = Felt::from_u64(0);
                proof {
                    lemma_sub_zero_iff_eq(s.val(), self.sum.val());
                }
                d.equals(&zero)
            },
            None => false,
        }
    }

    /// Whether some row of the table holds `v`.
    fn lookup(t: &Vec<Felt>, v: &Felt) -> (r: bool)
        requires
            v.wf(),
            forall|i: int| 0 <= i < t@.len() ==> (#[trigger] t@[i]).wf(),
        ensures
            r == in_table(t@, *v),
    {
        let mut j: usize = 0;
        while j < t.len()
            invariant
                j <= t@.len(),
                v.wf(),
                forall|i: int| 0 <= i < t@.len() ==> (#[trigger] t@[i]).wf(),
                forall|k: int| 0 <= k < j ==> (#[trigger] t@[k]).val() != v.val(),
            decreases t@.len() - j,
        {
            if t[j].equals(v) {
                return true;
            }
            j = j + 1;
        }
        false
    }

    /// Re-evaluates the sum constraint at every row that enables it and the lookup at
    /// every row that enables it.  Accepts exactly when nothing is violated;
    /// otherwise reports every violation in row order.  Checking before the
    /// table is loaded or before any row is assigned is a `Sequence` error.
    pub fn check(&self, asg: &Assignment) -> (r: Result<(), CheckError>)
        requires
            self.wf(),
            asg.wf(),
        ensures
            asg.table is None || asg.rows@.len() == 0 ==> r matches Err(
                CheckError::Malformed(CircuitError::Sequence),
            ),
            asg.table is Some && asg.rows@.len() > 0 ==> match r {
                Ok(()) => self.violations(asg.table->Some_0@, asg.rows@).len() == 0,
                Err(CheckError::Rejected(v)) => v@.len() > 0 && v@ == self.violations(
                    asg.table->Some_0@,
                    asg.rows@,
                ),
                Err(CheckError::Malformed(_)) => false,
            },
    {
        let t = match &asg.table {
            Some(t) => t,
            None => {
                return Err(CheckError::Malformed(CircuitError::Sequence));
            },
        };
        if asg.rows.len() == 0 {
            return Err(CheckError::Malformed(CircuitError::Sequence));
        }
        let mut found: Vec<Violation> = Vec::new();
        let mut i: usize = 0;
        while i < asg.rows.len()
            invariant
                self.wf(),
                asg.wf(),
                asg.table == Some(*t),
                forall|k: int| 0 <= k < t@.len() ==> (#[trigger] t@[k]).wf(),
                i <= asg.rows@.len(),
                found@ == self.violations(t@, asg.rows@.subrange(0, i as int)),
            decreases asg.rows@.len() - i,
        {
            let row = &asg.rows[i];
            assert(row.wf());
            let ghost before = found@;
            if row.q_sum && !self.eval_gate(row) {
                found.push(Violation::Gate { row: i });
            }
            if row.q_lookup && !Self::lookup(t, &row.a) {
                found.push(Violation::Lookup { row: i, value: row.a });
            }
            proof {
                let next = asg.rows@.subrange(0, i + 1);
                assert(next.drop_last() =~= asg.rows@.subrange(0, i as int));
                assert(next.last() == *row);
                assert(found@ =~= before + self.row_violations(t@, *row, i as int));
            }
            i = i + 1;
        }
        assert(asg.rows@.subrange(0, asg.rows@.len() as int) =~= asg.rows@);
        if found.len() == 0 {
            Ok(())
        } else {
            Err(CheckError::Rejected(found))
        }
    }
}

} // verus!
