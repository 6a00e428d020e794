use halo2_proofs::pasta::group::ff::PrimeField;
use halo2_proofs::pasta::Fp;
use vstd::prelude::*;

verus! {

/// The order of the Pallas base field, the field every circuit value lives in.
pub open spec fn modulus() -> int {
    0x4000000000000000int * 0x10000000000000000int * 0x10000000000000000int * 0x10000000000000000int
        + 0x224698fc094cf91bint * 0x10000000000000000int + 0x992d30ed00000001int
}

/// The integer that a little-endian byte string denotes.
pub open spec fn le_value(s: Seq<u8>) -> nat
    decreases s.len(),
{
    if s.len() == 0 {
        0
    } else {
        s[0] as nat + 256 * le_value(s.drop_first())
    }
}

/// Field addition on canonical representatives.
pub open spec fn field_add(x: int, y: int) -> int {
    (x + y) % modulus()
}

/// Field subtraction on canonical representatives.
pub open spec fn field_sub(x: int, y: int) -> int {
    (x - y) % modulus()
}

/// A field element, held as the canonical little-endian encoding of its
/// representative in `0..modulus()`.
#[derive(Clone, Copy, Debug)]
pub struct Felt {
    pub bytes: [u8; 32],
}

impl Felt {
    /// The representative of the element.
    pub open spec fn val(&self) -> int {
        le_value(self.bytes@) as int
    }

    /// The encoding is canonical: it denotes an integer below the modulus.
    pub open spec fn wf(&self) -> bool {
        self.val() < modulus()
    }

    /// The element congruent to `v`.
    pub fn from_u64(v: u64) -> (r: Felt)
        ensures
            r.wf(),
            r.val() == v as int,
    {
        fp_from_u64(v)
    }

    /// The sum of two elements.
    pub fn add(&self, other: &Felt) -> (r: Felt)
        requires
            self.wf(),
            other.wf(),
        ensures
            r.wf(),
            r.val() == field_add(self.val(), other.val()),
    {
        fp_add(self, other)
    }

    /// The difference of two elements.
    pub fn sub(&self, other: &Felt) -> (r: Felt)
        requires
            self.wf(),
            other.wf(),
        ensures
            r.wf(),
            r.val() == field_sub(self.val(), other.val()),
    {
        fp_sub(self, other)
    }

    /// Whether two elements are equal.
    pub fn equals(&self, other: &Felt) -> (r: bool)
        requires
            self.wf(),
            other.wf(),
        ensures
            r == (self.val() == other.val()),
    {
        fp_eq(self, other)
    }
}

/// Relies on `From<u64> for Fp` and `PrimeField::to_repr`: the canonical
/// little-endian encoding of the element congruent to `v`.
#[verifier::external_body]
fn fp_from_u64(v: u64) -> (r: Felt)
    ensures
        r.wf(),
        r.val() == v as int,
{
    Felt { bytes: Fp::from(v).to_repr() }
}

/// Relies on `PrimeField::from_repr`, `Add for Fp` and `PrimeField::to_repr`:
/// addition modulo the field order.
#[verifier::external_body]
fn fp_add(a: &Felt, b: &Felt) -> (r: Felt)
    requires
        a.wf(),
        b.wf(),
    ensures
        r.wf(),
        r.val() == field_add(a.val(), b.val()),
{
    let x = Fp::from_repr(a.bytes).unwrap();
    let y = Fp::from_repr(b.bytes).unwrap();
    Felt { bytes: (x + y).to_repr() }
}

/// Relies on `PrimeField::from_repr`, `Sub for Fp` and `PrimeField::to_repr`:
/// subtraction modulo the field order.
#[verifier::external_body]
fn fp_sub(a: &Felt, b: &Felt) -> (r: Felt)
    requires
        a.wf(),
        b.wf(),
    ensures
        r.wf(),
        r.val() == field_sub(a.val(), b.val()),
{
    let x = Fp::from_repr(a.bytes).unwrap();
    let y = Fp::from_repr(b.bytes).unwrap();
    Felt { bytes: (x - y).to_repr() }
}

/// Relies on `PrimeField::from_repr` and `PartialEq for Fp`: two canonical
/// encodings denote the same element exactly when their values agree.
#[verifier::external_body]
fn fp_eq(a: &Felt, b: &Felt) -> (r: bool)
    requires
        a.wf(),
        b.wf(),
    ensures
        r == (a.val() == b.val()),
{
    Fp::from_repr(a.bytes).unwrap() == Fp::from_repr(b.bytes).unwrap()
}

/// For canonical representatives, the difference vanishes in the field
/// exactly when the two are equal.
pub proof fn lemma_sub_zero_iff_eq(x: int, y: int)
    requires
        0 <= x < modulus(),
        0 <= y < modulus(),
    ensures
        (field_sub(x, y) == 0) == (x == y),
{
    let m = modulus();
    assert(m > 1);
    assert(((x - y) % m == 0) == (x == y)) by (nonlinear_arith)
        requires
            0 <= x < m,
            0 <= y < m,
            m > 1,
    ;
}

} // verus!
