use crate::assignment::Assignment;
use crate::assignment::CircuitError;
use crate::assignment::Row;
use crate::field::field_add;
use crate::field::Felt;
use crate::sum_check::CheckError;
use crate::sum_check::SumCheckConfig;
use crate::sum_check::Violation;
use crate::table::lemma_range_table_membership;
use crate::table::table_is_range;
use vstd::prelude::*;

verus! {

/// The rows that one witness `(a, b)` fills: the sum constraint row, then the lookup
/// row.
pub open spec fn circuit_rows(a: Felt, b: Felt) -> Seq<Row> {
    seq![
        Row { a, b: Some(b), q_sum: true, q_lookup: false },
        Row { a, b: None, q_sum: false, q_lookup: true },
    ]
}

/// What the check reports on the witness `(a, b)`: a gate violation on the
/// first row when `a + b` is not `sum`, then a lookup violation on the second
/// when `a` is not below `max`.  `b` is never looked up.
pub open spec fn expected_violations(a: Felt, b: Felt, sum: int, max: int) -> Seq<Violation> {
    (if field_add(a.val(), b.val()) != sum {
        seq![Violation::Gate { row: 0 }]
    } else {
        seq![]
    }) + (if a.val() >= max {
        seq![Violation::Lookup { row: 1, value: a }]
    } else {
        seq![]
    })
}

/// The violations of a witness, against a table loaded with `0..max`, are
/// exactly those of `expected_violations`.
pub proof fn lemma_circuit_violations(config: SumCheckConfig, t: Seq<Felt>, a: Felt, b: Felt)
    requires
        config.wf(),
        a.wf(),
        b.wf(),
        table_is_range(t, config.table.max as int),
    ensures
        config.violations(t, circuit_rows(a, b)) == expected_violations(
            a,
            b,
            config.sum.val(),
            config.table.max as int,
        ),
{
    let rows = circuit_rows(a, b);
    lemma_range_table_membership(t, config.table.max as int, a);
    assert(rows.drop_last().drop_last() =~= Seq::<Row>::empty());
    assert(rows.drop_last() =~= seq![rows[0]]);
    assert(config.violations(t, rows.drop_last().drop_last()) =~= Seq::<Violation>::empty());
    assert(config.violations(t, rows.drop_last()) =~= config.row_violations(t, rows[0], 0));
    assert(config.violations(t, rows) =~= config.row_violations(t, rows[0], 0)
        + config.row_violations(t, rows[1], 1));
    assert(config.violations(t, rows) =~= expected_violations(
        a,
        b,
        config.sum.val(),
        config.table.max as int,
    ));
}

/// A witness whose sum is right and whose `a` lies in the table's domain is
/// accepted: the check finds nothing.
pub proof fn law_sum_gate_completeness(config: SumCheckConfig, t: Seq<Felt>, a: Felt, b: Felt)
    requires
        config.wf(),
        a.wf(),
        b.wf(),
        table_is_range(t, config.table.max as int),
        field_add(a.val(), b.val()) == config.sum.val(),
        a.val() < config.table.max,
    ensures
        config.violations(t, circuit_rows(a, b)).len() == 0,
{
    lemma_circuit_violations(config, t, a, b);
}

/// A witness whose sum is wrong is rejected by the sum gate on its first row,
/// whatever the lookup finds.
pub proof fn law_sum_gate_soundness(config: SumCheckConfig, t: Seq<Felt>, a: Felt, b: Felt)
    requires
        config.wf(),
        a.wf(),
        b.wf(),
        table_is_range(t, config.table.max as int),
        field_add(a.val(), b.val()) != config.sum.val(),
    ensures
        config.violations(t, circuit_rows(a, b)).len() > 0,
        config.violations(t, circuit_rows(a, b))[0] == (Violation::Gate { row: 0 }),
{
    lemma_circuit_violations(config, t, a, b);
}

/// A witness whose sum is right but whose `a` lies outside the table's domain
/// is rejected by the lookup alone.
pub proof fn law_lookup_soundness(config: SumCheckConfig, t: Seq<Felt>, a: Felt, b: Felt)
    requires
        config.wf(),
        a.wf(),
        b.wf(),
        table_is_range(t, config.table.max as int),
        field_add(a.val(), b.val()) == config.sum.val(),
        a.val() >= config.table.max,
    ensures
        config.violations(t, circuit_rows(a, b)) == seq![Violation::Lookup { row: 1, value: a }],
{
    lemma_circuit_violations(config, t, a, b);
    assert(expected_violations(a, b, config.sum.val(), config.table.max as int)
        =~= seq![Violation::Lookup { row: 1, value: a }]);
}

/// `b` is never range-checked: two witnesses that share `a` and both meet
/// The sum get the same verdict, however large either `b` is.
pub proof fn law_b_unchecked(config: SumCheckConfig, t: Seq<Felt>, a: Felt, b1: Felt, b2: Felt)
    requires
        config.wf(),
        a.wf(),
        b1.wf(),
        b2.wf(),
        table_is_range(t, config.table.max as int),
        field_add(a.val(), b1.val()) == config.sum.val(),
        field_add(a.val(), b2.val()) == config.sum.val(),
    ensures
        config.violations(t, circuit_rows(a, b1)) == config.violations(t, circuit_rows(a, b2)),
{
    lemma_circuit_violations(config, t, a, b1);
    lemma_circuit_violations(config, t, a, b2);
}

/// A witness for the sum-check circuit.
#[derive(Clone, Copy, Debug)]
pub struct SumCircuit {
    pub a: Felt,
    pub b: Felt,
}

impl SumCircuit {
    /// Fills a fresh instance: loads the table, assigns `(a, b)` under the
    /// sum gate, then assigns `a` again under the range lookup.
    pub fn synthesize(&self, config: &SumCheckConfig, asg: &mut Assignment) -> (r: Result<
        (),
        CircuitError,
    >)
        requires
            config.wf(),
            self.a.wf(),
            self.b.wf(),
            old(asg).wf(),
            old(asg).table is None,
            old(asg).rows@.len() == 0,
        ensures
            final(asg).wf(),
            final(asg).n_rows == old(asg).n_rows,
            old(asg).n_rows < config.table.max ==> r == Err::<(), CircuitError>(
                CircuitError::TableLoad,
            ),
            config.table.max <= old(asg).n_rows < 2 ==> r == Err::<(), CircuitError>(
                CircuitError::Assignment,
            ),
            old(asg).n_rows >= config.table.max && old(asg).n_rows >= 2 ==> r is Ok
                && final(asg).table is Some && table_is_range(
                final(asg).table->Some_0@,
                config.table.max as int,
            ) && final(asg).rows@ == circuit_rows(self.a, self.b),
    {
        config.table.load(asg)?;
        config.assign(asg, self.a, self.b)?;
        config.assign_lookup(asg, self.a)?;
        Ok(())
    }

    /// Builds the circuit for `sum` and a table of `0..max`, fills an instance
    /// of `n_rows` rows with this witness and checks it.
    pub fn run(&self, sum: u64, max: usize, n_rows: usize) -> (r: Result<(), CheckError>)
        requires
            self.a.wf(),
            self.b.wf(),
        ensures
            n_rows < max ==> r matches Err(CheckError::Malformed(CircuitError::TableLoad)),
            max <= n_rows < 2 ==> r matches Err(CheckError::Malformed(CircuitError::Assignment)),
            n_rows >= max && n_rows >= 2 ==> match r {
                Ok(()) => expected_violations(self.a, self.b, sum as int, max as int).len() == 0,
                Err(CheckError::Rejected(v)) => v@.len() > 0 && v@ == expected_violations(
                    self.a,
                    self.b,
                    sum as int,
                    max as int,
                ),
                Err(CheckError::Malformed(_)) => false,
            },
    {
        let config = SumCheckConfig::configure(sum, max);
        let mut asg = Assignment::new(n_rows);
        match self.synthesize(&config, &mut asg) {
            Ok(()) => {},
            Err(e) => {
                return Err(CheckError::Malformed(e));
            },
        }
        proof {
            lemma_circuit_violations(config, asg.table->Some_0@, self.a, self.b);
        }
        config.check(&asg)
    }
}

} // verus!
