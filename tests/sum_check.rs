use sum_circuit::assignment::{Assignment, CircuitError};
use sum_circuit::circuit::SumCircuit;
use sum_circuit::field::Felt;
use sum_circuit::sum_check::{CheckError, SumCheckConfig, Violation};
use sum_circuit::table::LimitIntTable;

const SUM: u64 = 15;
const MAX: usize = 10;
const ROWS: usize = 1 << 9;

fn circuit(a: u64, b: u64) -> SumCircuit {
    SumCircuit { a: Felt::from_u64(a), b: Felt::from_u64(b) }
}

fn violations(r: Result<(), CheckError>) -> Vec<Violation> {
    match r {
        Err(CheckError::Rejected(v)) => v,
        other => panic!("expected a rejection, got {:?}", other),
    }
}

#[test]
fn test_sum_check() {
    let c = SumCircuit { a: Felt::from_u64(9), b: Felt::from_u64(6) };
    assert_eq!(c.run(SUM, MAX, ROWS).is_ok(), true);
}

#[test]
fn accepts_eight_and_seven() {
    assert!(circuit(8, 7).run(SUM, MAX, ROWS).is_ok());
}

#[test]
fn rejects_a_out_of_range_by_lookup_only() {
    let v = violations(circuit(10, 5).run(SUM, MAX, ROWS));
    assert_eq!(v.len(), 1);
    match &v[0] {
        Violation::Lookup { row, value } => {
            assert_eq!(*row, 1);
            assert!(value.equals(&Felt::from_u64(10)));
        }
        other => panic!("unexpected {:?}", other),
    }
    assert_eq!(v[0].rule_name(), "lookup");
}

#[test]
fn rejects_wrong_sum_by_gate_only() {
    let v = violations(circuit(5, 5).run(SUM, MAX, ROWS));
    assert_eq!(v.len(), 1);
    assert!(matches!(v[0], Violation::Gate { row: 0 }));
    assert_eq!(v[0].rule_name(), "sum check");
}

#[test]
fn large_b_is_only_caught_by_the_gate() {
    let v = violations(circuit(9, 600).run(SUM, MAX, ROWS));
    assert_eq!(v.len(), 1);
    assert!(matches!(v[0], Violation::Gate { row: 0 }));
}

#[test]
fn wrong_sum_and_out_of_range_gives_both() {
    let v = violations(circuit(12, 12).run(SUM, MAX, ROWS));
    assert_eq!(v.len(), 2);
    assert!(matches!(v[0], Violation::Gate { row: 0 }));
    assert!(matches!(v[1], Violation::Lookup { row: 1, .. }));
}

#[test]
fn b_out_of_range_accepted_when_sum_holds() {
    // b = 15 - 2 in the field, far above MAX; b = 13 also works.
    assert!(circuit(2, 13).run(SUM, MAX, ROWS).is_ok());
    let minus_one = Felt::from_u64(0).sub(&Felt::from_u64(1));
    let b = Felt::from_u64(16);
    let c = SumCircuit { a: minus_one, b };
    // a = -1 sums with 16 to 15 but is far outside the table.
    let v = violations(c.run(SUM, MAX, ROWS));
    assert_eq!(v.len(), 1);
    assert!(matches!(v[0], Violation::Lookup { row: 1, .. }));
}

#[test]
fn sum_wraps_in_the_field() {
    // a = 0, b = 15 is accepted; a = 9, b = 6 + p would not fit, so use field
    // subtraction: b = 15 - 9.
    let a = Felt::from_u64(9);
    let b = Felt::from_u64(15).sub(&a);
    assert!(b.equals(&Felt::from_u64(6)));
    assert!(SumCircuit { a, b }.run(SUM, MAX, ROWS).is_ok());
}

#[test]
fn table_load_error_when_budget_too_small() {
    let r = circuit(9, 6).run(SUM, MAX, MAX - 1);
    assert!(matches!(r, Err(CheckError::Malformed(CircuitError::TableLoad))));
    let t = LimitIntTable::configure(MAX);
    let mut asg = Assignment::new(3);
    assert_eq!(t.load(&mut asg), Err(CircuitError::TableLoad));
    assert!(asg.table.is_none());
}

#[test]
fn assignment_error_when_rows_run_out() {
    let r = circuit(9, 6).run(SUM, 1, 1);
    assert!(matches!(r, Err(CheckError::Malformed(CircuitError::Assignment))));
}

#[test]
fn sequence_errors() {
    let config = SumCheckConfig::configure(SUM, MAX);
    let mut asg = Assignment::new(ROWS);
    assert!(matches!(
        config.assign(&mut asg, Felt::from_u64(9), Felt::from_u64(6)),
        Err(CircuitError::Sequence)
    ));
    assert!(matches!(
        config.assign_lookup(&mut asg, Felt::from_u64(9)),
        Err(CircuitError::Sequence)
    ));
    assert!(matches!(config.check(&asg), Err(CheckError::Malformed(CircuitError::Sequence))));
    config.table.load(&mut asg).unwrap();
    assert!(matches!(config.check(&asg), Err(CheckError::Malformed(CircuitError::Sequence))));
}

#[test]
fn assign_uses_successive_rows() {
    let config = SumCheckConfig::configure(SUM, MAX);
    let mut asg = Assignment::new(ROWS);
    config.table.load(&mut asg).unwrap();
    let cells = config.assign(&mut asg, Felt::from_u64(9), Felt::from_u64(6)).unwrap();
    assert_eq!(cells.row, 0);
    let cell = config.assign_lookup(&mut asg, Felt::from_u64(9)).unwrap();
    assert_eq!(cell.row, 1);
    assert_eq!(asg.rows.len(), 2);
    assert!(asg.rows[0].q_sum && !asg.rows[0].q_lookup);
    assert!(asg.rows[1].q_lookup && asg.rows[1].b.is_none());
    assert!(config.check(&asg).is_ok());
}

#[test]
fn load_fills_table_with_range() {
    let t = LimitIntTable::configure(MAX);
    let mut asg = Assignment::new(ROWS);
    t.load(&mut asg).unwrap();
    let table = asg.table.as_ref().unwrap();
    assert_eq!(table.len(), MAX);
    for (i, v) in table.iter().enumerate() {
        assert!(v.equals(&Felt::from_u64(i as u64)));
    }
}

#[test]
fn load_twice_gives_same_table() {
    let t = LimitIntTable::configure(MAX);
    let mut asg = Assignment::new(ROWS);
    t.load(&mut asg).unwrap();
    let first = asg.table.clone().unwrap();
    t.load(&mut asg).unwrap();
    let second = asg.table.clone().unwrap();
    assert_eq!(first.len(), second.len());
    for i in 0..first.len() {
        assert!(first[i].equals(&second[i]));
        assert_eq!(first[i].bytes, second[i].bytes);
    }
}

#[test]
fn field_arithmetic() {
    let a = Felt::from_u64(9);
    let b = Felt::from_u64(600);
    assert!(a.add(&b).equals(&Felt::from_u64(609)));
    assert!(b.sub(&a).equals(&Felt::from_u64(591)));
    assert!(!a.equals(&b));
    assert_eq!(Felt::from_u64(258).bytes[0], 2);
    assert_eq!(Felt::from_u64(258).bytes[1], 1);
    // 0 - 1 is p - 1, whose top byte is 0x40.
    let m = Felt::from_u64(0).sub(&Felt::from_u64(1));
    assert_eq!(m.bytes[31], 0x40);
    assert_eq!(m.bytes[0], 0x00);
    assert!(m.add(&Felt::from_u64(1)).equals(&Felt::from_u64(0)));
}
