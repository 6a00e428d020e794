use crate::assignment::Assignment;
use crate::assignment::CircuitError;
use crate::field::Felt;
use vstd::prelude::*;

verus! {

/// A table column is loaded with the domain `0..max`: one row per value, in
/// ascending order.
pub open spec fn table_is_range(t: Seq<Felt>, max: int) -> bool {
    &&& t.len() == max
    &&& forall|i: int| 0 <= i < max ==> (#[trigger] t[i]).wf() && t[i].val() == i
}

/// Whether some row of the table holds the value `v`.
pub open spec fn in_table(t: Seq<Felt>, v: Felt) -> bool {
    exists|j: int| 0 <= j < t.len() && (#[trigger] t[j]).val() == v.val()
}

/// A fixed lookup table enumerating the integers `0..max`.
#[derive(Clone, Copy, Debug)]
pub struct LimitIntTable {
    pub max: usize,
}

impl LimitIntTable {
    /// Declares a table over the domain `0..max`.
    pub fn configure(max: usize) -> (r: LimitIntTable)
        ensures
            r.max == max,
    {
        LimitIntTable { max }
    }

    /// Writes `0..max` into the table column of the instance.  Fails with
    /// `TableLoad`, leaving the instance untouched, when its row budget is
    /// smaller than the domain.
    pub fn load(&self, asg: &mut Assignment) -> (r: Result<(), CircuitError>)
        requires
            old(asg).wf(),
        ensures
            final(asg).wf(),
            final(asg).n_rows == old(asg).n_rows,
            final(asg).rows == old(asg).rows,
            old(asg).n_rows < self.max ==> r == Err::<(), CircuitError>(CircuitError::TableLoad)
                && *final(asg) == *old(asg),
            old(asg).n_rows >= self.max ==> r is Ok && final(asg).table is Some
                && table_is_range(final(asg).table->Some_0@, self.max as int),
    {
        if asg.n_rows < self.max {
            return Err(CircuitError::TableLoad);
        }
        let mut values: Vec<Felt> = Vec::new();
        let mut v: usize = 0;
        while v < self.max
            invariant
                v <= self.max,
                table_is_range(values@, v as int),
            decreases self.max - v,
        {
            let x = Felt::from_u64(v as u64);
            values.push(x);
            v = v + 1;
        }
        asg.table = Some(values);
        Ok(())
    }
}

/// A table loaded with `0..max` holds exactly the values below `max`.
pub proof fn lemma_range_table_membership(t: Seq<Felt>, max: int, v: Felt)
    requires
        table_is_range(t, max),
        v.wf(),
    ensures
        in_table(t, v) == (v.val() < max),
{
    if v.val() < max {
        let j = v.val();
        assert(t[j].val() == v.val());
    }
}

/// Loading twice yields the same table: both loads hold the same value at
/// every row.
pub proof fn law_load_idempotent(first: Seq<Felt>, second: Seq<Felt>, max: int)
    requires
        table_is_range(first, max),
        table_is_range(second, max),
    ensures
        first.len() == second.len(),
        forall|i: int| 0 <= i < max ==> (#[trigger] first[i]).val() == second[i].val(),
{
    assert forall|i: int| 0 <= i < max implies (#[trigger] first[i]).val() == second[i].val() by {
        assert(first[i].val() == i);
        assert(second[i].val() == i);
    }
}

} // verus!
