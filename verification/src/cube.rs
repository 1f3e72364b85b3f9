//! The cube relation: a prover knows `x` with `x^3 + x + 5 = y`.
//!
//! Synthesis is modelled as data: the constraints the circuit consists of,
//! together with the values assigned to its variables when a witness is
//! present. A thin replay layer feeds this description to the proof scheme's
//! constraint system, one allocation and one constraint at a time.

use vstd::prelude::*;
use pairing::bls12_381::Fr;
use crate::field::{fr_value, fr_add_value, fr_mul_value, fr_modulus, fr_add, fr_mul, get_constant};

verus! {

/// A variable of the constraint system: the fixed one-valued wire, a private
/// (witness) variable, or a public-input variable, each numbered from zero in
/// order of allocation.
#[derive(Clone, Copy, PartialEq, Eq, Structural, Debug)]
pub enum Wire {
    One,
    Private(usize),
    Public(usize),
}

/// One addend of a linear combination: a small integer coefficient on a wire.
#[derive(Clone, Copy, PartialEq, Eq, Structural, Debug)]
pub struct Term {
    pub coeff: u64,
    pub wire: Wire,
}

/// A rank-1 constraint: the product of the first two linear combinations
/// equals the third.
pub struct Constraint {
    pub a: Vec<Term>,
    pub b: Vec<Term>,
    pub c: Vec<Term>,
}

/// The outcome of synthesising a circuit: its constraints, and the values of
/// its private and public variables, present exactly when the circuit was
/// assigned a witness.
pub struct Synthesis {
    pub private_values: Vec<Option<Fr>>,
    pub public_values: Vec<Option<Fr>>,
    pub constraints: Vec<Constraint>,
}

/// The value of `x^3 + x + 5` under field arithmetic.
pub open spec fn cube_relation_value(v: nat) -> nat {
    fr_add_value(fr_add_value(fr_mul_value(fr_mul_value(v, v), v), v), 5)
}

/// The exact shape of the cube circuit: `x * x = z1`, `z1 * x = z2`, and
/// `(z2 + x + 5) * 1 = y`, over private variables `x, z1, z2` (numbered 0, 1,
/// 2) and the public variable `y` (numbered 0).
pub open spec fn cube_shape(cs: Seq<Constraint>) -> bool {
    &&& cs.len() == 3
    &&& cs[0].a@ == seq![Term { coeff: 1u64, wire: Wire::Private(0usize) }]
    &&& cs[0].b@ == seq![Term { coeff: 1u64, wire: Wire::Private(0usize) }]
    &&& cs[0].c@ == seq![Term { coeff: 1u64, wire: Wire::Private(1usize) }]
    &&& cs[1].a@ == seq![Term { coeff: 1u64, wire: Wire::Private(1usize) }]
    &&& cs[1].b@ == seq![Term { coeff: 1u64, wire: Wire::Private(0usize) }]
    &&& cs[1].c@ == seq![Term { coeff: 1u64, wire: Wire::Private(2usize) }]
    &&& cs[2].a@ == seq![
        Term { coeff: 1u64, wire: Wire::Private(2) },
        Term { coeff: 1u64, wire: Wire::Private(0) },
        Term { coeff: 5u64, wire: Wire::One },
    ]
    &&& cs[2].b@ == seq![Term { coeff: 1u64, wire: Wire::One }]
    &&& cs[2].c@ == seq![Term { coeff: 1u64, wire: Wire::Public(0usize) }]
}

/// The cube-relation circuit, carrying its optional witness.
pub struct CubeCircuit {
    pub x: Option<Fr>,
}

impl CubeCircuit {
    /// An assigned circuit, ready for proving.
    pub fn new(x: Fr) -> (r: Self)
        ensures
            r.x == Some(x),
    {
        Self { x: Some(x) }
    }

    /// Synthesises the circuit. The constraints are the same whether or not a
    /// witness is present; the variable values are present exactly when it
    /// is, and then satisfy `z1 = x^2`, `z2 = x^3`, and `y = x^3 + x + 5`
    /// under field arithmetic.
    pub fn synthesize(self) -> (r: Synthesis)
        ensures
            cube_shape(r.constraints@),
            r.private_values@.len() == 3,
            r.public_values@.len() == 1,
            self.x is None ==> {
                &&& forall|i: int| 0 <= i < 3 ==> r.private_values@[i] is None
                &&& r.public_values@[0] is None
            },
            self.x matches Some(x) ==> {
                &&& r.private_values@[0] == Some(x)
                &&& r.private_values@[1] matches Some(z1) && fr_value(z1) == fr_mul_value(
                    fr_value(x),
                    fr_value(x),
                )
                &&& r.private_values@[2] matches Some(z2) && fr_value(z2) == fr_mul_value(
                    fr_mul_value(fr_value(x), fr_value(x)),
                    fr_value(x),
                )
                &&& r.public_values@[0] matches Some(y) && fr_value(y) == cube_relation_value(
                    fr_value(x),
                )
            },
    {
        let (private_values, public_values) = match self.x {
            None => (vec![None, None, None], vec![None]),
            Some(x) => {
                let z1 = fr_mul(&x, &x);
                let z2 = fr_mul(&z1, &x);
                let c = get_constant(5);
                let s = fr_add(&z2, &x);
                let y = fr_add(&s, &c);
                (vec![Some(x), Some(z1), Some(z2)], vec![Some(y)])
            },
        };
        let constraints = vec![
            Constraint {
                a: vec![Term { coeff: 1u64, wire: Wire::Private(0) }],
                b: vec![Term { coeff: 1u64, wire: Wire::Private(0) }],
                c: vec![Term { coeff: 1u64, wire: Wire::Private(1) }],
            },
            Constraint {
                a: vec![Term { coeff: 1u64, wire: Wire::Private(1) }],
                b: vec![Term { coeff: 1u64, wire: Wire::Private(0) }],
                c: vec![Term { coeff: 1u64, wire: Wire::Private(2) }],
            },
            Constraint {
                a: vec![
                    Term { coeff: 1u64, wire: Wire::Private(2) },
                    Term { coeff: 1u64, wire: Wire::Private(0) },
                    Term { coeff: 5u64, wire: Wire::One },
                ],
                b: vec![Term { coeff: 1u64, wire: Wire::One }],
                c: vec![Term { coeff: 1u64, wire: Wire::Public(0) }],
            },
        ];
        proof {
            assert(constraints@[0].a@ =~= seq![Term { coeff: 1u64, wire: Wire::Private(0usize) }]);
            assert(constraints@[0].b@ =~= seq![Term { coeff: 1u64, wire: Wire::Private(0usize) }]);
            assert(constraints@[0].c@ =~= seq![Term { coeff: 1u64, wire: Wire::Private(1usize) }]);
            assert(constraints@[1].a@ =~= seq![Term { coeff: 1u64, wire: Wire::Private(1usize) }]);
            assert(constraints@[1].b@ =~= seq![Term { coeff: 1u64, wire: Wire::Private(0usize) }]);
            assert(constraints@[1].c@ =~= seq![Term { coeff: 1u64, wire: Wire::Private(2usize) }]);
            assert(constraints@[2].a@ =~= seq![
                Term { coeff: 1u64, wire: Wire::Private(2) },
                Term { coeff: 1u64, wire: Wire::Private(0) },
                Term { coeff: 5u64, wire: Wire::One },
            ]);
            assert(constraints@[2].b@ =~= seq![Term { coeff: 1u64, wire: Wire::One }]);
            assert(constraints@[2].c@ =~= seq![Term { coeff: 1u64, wire: Wire::Public(0usize) }]);
        }
        Synthesis { private_values, public_values, constraints }
    }
}

impl Default for CubeCircuit {
    /// An unassigned circuit, as handed to trusted setup.
    fn default() -> (r: Self)
        ensures
            r.x is None,
    {
        Self { x: None }
    }
}

/// Law: the constraint shape does not depend on the witness. Any two
/// syntheses of the cube circuit, assigned or not, declare the same
/// constraints.
pub proof fn lemma_cube_shape_witness_independent(u: Seq<Constraint>, a: Seq<Constraint>)
    requires
        cube_shape(u),
        cube_shape(a),
    ensures
        u.len() == a.len(),
        forall|i: int|
            0 <= i < u.len() ==> u[i].a@ == a[i].a@ && u[i].b@ == a[i].b@ && u[i].c@ == a[i].c@,
{
}

/// The value a wire takes under an assignment of field values to the private
/// and public variables; the fixed wire always takes one.
pub open spec fn wire_value(w: Wire, private_vals: Seq<nat>, public_vals: Seq<nat>) -> nat {
    match w {
        Wire::One => 1,
        Wire::Private(i) => private_vals[i as int],
        Wire::Public(i) => public_vals[i as int],
    }
}

/// The value of a linear combination under an assignment: the sum of each
/// term's coefficient times its wire's value (before reduction).
pub open spec fn lc_value(terms: Seq<Term>, private_vals: Seq<nat>, public_vals: Seq<nat>) -> nat
    decreases terms.len(),
{
    if terms.len() == 0 {
        0
    } else {
        (terms[0].coeff as nat) * wire_value(terms[0].wire, private_vals, public_vals) + lc_value(
            terms.drop_first(),
            private_vals,
            public_vals,
        )
    }
}

/// A rank-1 constraint is satisfied when the field product of its first two
/// linear combinations equals its third, all reduced into the field.
pub open spec fn constraint_satisfied(
    a: Seq<Term>,
    b: Seq<Term>,
    c: Seq<Term>,
    private_vals: Seq<nat>,
    public_vals: Seq<nat>,
) -> bool {
    fr_mul_value(
        lc_value(a, private_vals, public_vals),
        lc_value(b, private_vals, public_vals),
    ) == lc_value(c, private_vals, public_vals) % fr_modulus()
}

/// The value of a one-term linear combination is that term's value.
proof fn lemma_lc_single(t: Term, private_vals: Seq<nat>, public_vals: Seq<nat>)
    ensures
        lc_value(seq![t], private_vals, public_vals) == (t.coeff as nat) * wire_value(
            t.wire,
            private_vals,
            public_vals,
        ),
{
    assert(seq![t].drop_first() =~= Seq::<Term>::empty());
    assert(lc_value(Seq::<Term>::empty(), private_vals, public_vals) == 0);
    assert(lc_value(seq![t], private_vals, public_vals) == (t.coeff as nat) * wire_value(
        t.wire,
        private_vals,
        public_vals,
    ) + lc_value(Seq::<Term>::empty(), private_vals, public_vals));
}

/// Law: an assigned synthesis satisfies its own constraints. For any witness
/// value `v`, the variable values the synthesis assigns — `x = v`,
/// `z1 = v^2`, `z2 = v^3`, `y = v^3 + v + 5`, all under field arithmetic —
/// make every constraint of the cube shape hold.
pub proof fn lemma_cube_constraints_satisfied(cs: Seq<Constraint>, v: nat)
    requires
        cube_shape(cs),
        v < fr_modulus(),
    ensures
        forall|i: int|
            0 <= i < cs.len() ==> constraint_satisfied(
                cs[i].a@,
                cs[i].b@,
                cs[i].c@,
                seq![v, fr_mul_value(v, v), fr_mul_value(fr_mul_value(v, v), v)],
                seq![cube_relation_value(v)],
            ),
{
    broadcast use vstd::arithmetic::div_mod::lemma_mod_twice;
    broadcast use vstd::arithmetic::div_mod::lemma_add_mod_noop_right;
    broadcast use vstd::arithmetic::div_mod::lemma_mod_bound;

    let private_vals = seq![v, fr_mul_value(v, v), fr_mul_value(fr_mul_value(v, v), v)];
    let public_vals = seq![cube_relation_value(v)];
    let z1 = fr_mul_value(v, v);
    let z2 = fr_mul_value(z1, v);
    let p = fr_modulus();

    lemma_lc_single(Term { coeff: 1u64, wire: Wire::Private(0) }, private_vals, public_vals);
    lemma_lc_single(Term { coeff: 1u64, wire: Wire::Private(1) }, private_vals, public_vals);
    lemma_lc_single(Term { coeff: 1u64, wire: Wire::Private(2) }, private_vals, public_vals);
    lemma_lc_single(Term { coeff: 1u64, wire: Wire::One }, private_vals, public_vals);
    lemma_lc_single(Term { coeff: 1u64, wire: Wire::Public(0) }, private_vals, public_vals);

    vstd::arithmetic::div_mod::lemma_small_mod(v, p);
    vstd::arithmetic::div_mod::lemma_small_mod(1, p);

    // x * x = z1
    assert(constraint_satisfied(cs[0].a@, cs[0].b@, cs[0].c@, private_vals, public_vals));
    // z1 * x = z2
    assert(constraint_satisfied(cs[1].a@, cs[1].b@, cs[1].c@, private_vals, public_vals));

    // (z2 + x + 5) * 1 = y
    let a2 = cs[2].a@;
    let a2_tail = a2.drop_first();
    let a2_tail2 = a2_tail.drop_first();
    let a2_tail3 = a2_tail2.drop_first();
    assert(a2_tail =~= seq![
        Term { coeff: 1u64, wire: Wire::Private(0) },
        Term { coeff: 5u64, wire: Wire::One },
    ]);
    assert(a2_tail3 =~= Seq::<Term>::empty());
    assert(lc_value(a2_tail3, private_vals, public_vals) == 0);
    assert(a2_tail2[0] == Term { coeff: 5u64, wire: Wire::One });
    assert(lc_value(a2_tail2, private_vals, public_vals) == 5 * 1 + lc_value(
        a2_tail3,
        private_vals,
        public_vals,
    ));
    assert(lc_value(a2_tail, private_vals, public_vals) == 1 * v + lc_value(
        a2_tail2,
        private_vals,
        public_vals,
    ));
    assert(lc_value(a2, private_vals, public_vals) == 1 * z2 + lc_value(
        a2_tail,
        private_vals,
        public_vals,
    ));
    assert(lc_value(a2, private_vals, public_vals) == z2 + v + 5);
    assert(fr_mul_value(z2 + v + 5, 1) == (z2 + v + 5) % p) by {
        assert((z2 + v + 5) * 1 == z2 + v + 5);
    }
    assert(cube_relation_value(v) == ((z2 + v) % p + 5) % p);
    assert(((z2 + v) % p + 5) % p == (z2 + v + 5) % p);
    assert(constraint_satisfied(cs[2].a@, cs[2].b@, cs[2].c@, private_vals, public_vals));
}

/// Law: below the field order, the cube relation is plain integer
/// arithmetic: the public value for witness `v` is `v^3 + v + 5`.
pub proof fn lemma_cube_relation_small(v: nat)
    requires
        v * v * v + v + 5 < fr_modulus(),
    ensures
        cube_relation_value(v) == v * v * v + v + 5,
{
    assert(v * v <= v * v * v + v) by (nonlinear_arith);
    assert(v * v < fr_modulus());
    assert(fr_mul_value(v, v) == v * v);
    assert(fr_mul_value(v * v, v) == v * v * v);
    assert(fr_add_value(v * v * v, v) == v * v * v + v);
    assert(fr_add_value(v * v * v + v, 5) == v * v * v + v + 5);
}

} // verus!
