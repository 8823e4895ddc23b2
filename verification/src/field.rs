//! The prime-field collaborator, seen through a small trusted surface.
//!
//! `Felt` carries one element of the BLS12-381 base field of `ark_bls12_381`.
//! The element itself is opaque to the verifier (its `ark_ff` representation
//! cannot be declared here, as its generics are bounded by `ark_ff` traits),
//! so the struct is held behind `external_body` and every operation on it is
//! a trusted wrapper.  The mathematical content of an element is captured by
//! `felt_val`, the canonical integer in `0..felt_modulus()` that `ark_ff`
//! associates with it; each wrapper states what the corresponding `ark_ff`
//! operation does to that value, and all permutation logic is verified
//! against those statements.

use vstd::prelude::*;
use vstd::arithmetic::power::pow;
use vstd::arithmetic::div_mod::lemma_small_mod;
use ark_bls12_381::Fq;
use ark_ff::Field;
use ark_ff::PrimeField;

verus! {

/// One element of the BLS12-381 base field, carried opaquely.
#[verifier::external_body]
pub struct Felt {
    inner: Fq,
}

impl Clone for Felt {
    /// Relies on `Fp` being `Copy`: the clone carries the same element.
    #[verifier::external_body]
    fn clone(&self) -> (r: Self)
        ensures
            felt_val(r) == felt_val(*self),
    {
        Felt { inner: self.inner }
    }
}

impl Copy for Felt {

}

impl Felt {
    /// Relies on `ark_ff`'s `PartialEq` for `Fp`: the internal representation
    /// is unique, so representations are equal exactly when the elements are.
    #[verifier::external_body]
    pub fn eq_felt(&self, other: &Felt) -> (r: bool)
        ensures
            r == (felt_val(*self) == felt_val(*other)),
    {
        self.inner == other.inner
    }
}

/// The order of the BLS12-381 base field: every canonical value is below it.
pub open spec fn felt_modulus() -> nat {
    4002409555221667393417789825735904156556882819939007885332058136124031650490837864442687629129015664037894272559787nat
}

/// The canonical integer value of a field element: the name for what
/// `ark_ff`'s `PrimeField::into_bigint` returns, an integer in
/// `0..felt_modulus()` that determines the element completely.
pub uninterp spec fn felt_val(x: Felt) -> nat;

/// The canonical values of a sequence of field elements.
pub open spec fn state_vals(s: Seq<Felt>) -> Seq<nat> {
    s.map_values(|x: Felt| felt_val(x))
}

/// The integer a byte sequence denotes when read big-endian.
pub open spec fn be_bytes_val(s: Seq<u8>) -> nat
    decreases s.len(),
{
    if s.len() == 0 {
        0
    } else {
        (be_bytes_val(s.drop_last()) * 256 + s.last()) as nat
    }
}

/// Relies on `ark_ff`'s field addition for `Fp`: addition modulo the field order.
#[verifier::external_body]
pub(crate) fn felt_add(a: Felt, b: Felt) -> (r: Felt)
    ensures
        felt_val(r) == (felt_val(a) + felt_val(b)) % felt_modulus(),
{
    Felt { inner: a.inner + b.inner }
}

/// Relies on `ark_ff`'s field multiplication for `Fp`: multiplication modulo
/// the field order.
#[verifier::external_body]
pub(crate) fn felt_mul(a: Felt, b: Felt) -> (r: Felt)
    ensures
        felt_val(r) == (felt_val(a) * felt_val(b)) % felt_modulus(),
{
    Felt { inner: a.inner * b.inner }
}

/// Relies on `ark_ff`'s `Field::pow` with a single `u64` limb: modular
/// exponentiation to the given exponent.
#[verifier::external_body]
pub fn felt_pow(a: Felt, e: u64) -> (r: Felt)
    ensures
        felt_val(r) as int == pow(felt_val(a) as int, e as nat) % (felt_modulus() as int),
{
    Felt { inner: a.inner.pow([e]) }
}

/// Relies on `ark_ff`'s `From<u64>` for `Fp`: the element with that value,
/// reduced modulo the field order.
#[verifier::external_body]
pub fn felt_from_u64(n: u64) -> (r: Felt)
    ensures
        felt_val(r) == (n as nat) % felt_modulus(),
{
    Felt { inner: Fq::from(n) }
}

/// Relies on `ark_ff`'s `PrimeField::from_be_bytes_mod_order`: the bytes read
/// big-endian, reduced modulo the field order.
#[verifier::external_body]
pub fn felt_from_be_bytes(bytes: &[u8]) -> (r: Felt)
    ensures
        felt_val(r) == be_bytes_val(bytes@) % felt_modulus(),
{
    Felt { inner: Fq::from_be_bytes_mod_order(bytes) }
}

/// Relies on `zeroize::Zeroize` for `Fp`: the element is overwritten in place
/// with the representation of zero, with a write that is not optimized away.
#[verifier::external_body]
pub(crate) fn felt_zeroize(x: &mut Felt)
    ensures
        felt_val(*final(x)) == 0,
{
    zeroize::Zeroize::zeroize(&mut x.inner);
}

/// The integer eight base-2^32 limbs denote, most significant limb first.
pub open spec fn limbs_val(l0: u64, l1: u64, l2: u64, l3: u64, l4: u64, l5: u64, l6: u64, l7: u64) -> nat {
    (((((((l0 * 0x100000000 + l1) * 0x100000000 + l2) * 0x100000000 + l3) * 0x100000000 + l4)
        * 0x100000000 + l5) * 0x100000000 + l6) * 0x100000000 + l7) as nat
}

/// Builds a field element from eight base-2^32 limbs, most significant first.
/// The combined value stays below 2^256, hence below the field order, so no
/// reduction takes place and the canonical value is the denoted integer.
pub fn felt_from_limbs(l0: u64, l1: u64, l2: u64, l3: u64, l4: u64, l5: u64, l6: u64, l7: u64) -> (r: Felt)
    requires
        l0 < 0x100000000,
        l1 < 0x100000000,
        l2 < 0x100000000,
        l3 < 0x100000000,
        l4 < 0x100000000,
        l5 < 0x100000000,
        l6 < 0x100000000,
        l7 < 0x100000000,
    ensures
        felt_val(r) == limbs_val(l0, l1, l2, l3, l4, l5, l6, l7),
{
    let shift = felt_from_u64(0x100000000);
    proof {
        lemma_small_mod(0x100000000nat, felt_modulus());
    }
    let mut acc = felt_from_u64(l0);
    proof {
        lemma_small_mod(l0 as nat, felt_modulus());
    }
    acc = felt_add(felt_mul(acc, shift), felt_from_u64(l1));
    proof {
        lemma_small_mod((l0 * 0x100000000) as nat, felt_modulus());
        lemma_small_mod(l1 as nat, felt_modulus());
        lemma_small_mod((l0 * 0x100000000 + l1) as nat, felt_modulus());
    }
    acc = felt_add(felt_mul(acc, shift), felt_from_u64(l2));
    proof {
        lemma_small_mod(((l0 * 0x100000000 + l1) * 0x100000000) as nat, felt_modulus());
        lemma_small_mod(l2 as nat, felt_modulus());
        lemma_small_mod(((l0 * 0x100000000 + l1) * 0x100000000 + l2) as nat, felt_modulus());
    }
    acc = felt_add(felt_mul(acc, shift), felt_from_u64(l3));
    proof {
        lemma_small_mod((((l0 * 0x100000000 + l1) * 0x100000000 + l2) * 0x100000000) as nat, felt_modulus());
        lemma_small_mod(l3 as nat, felt_modulus());
        lemma_small_mod((((l0 * 0x100000000 + l1) * 0x100000000 + l2) * 0x100000000 + l3) as nat, felt_modulus());
    }
    acc = felt_add(felt_mul(acc, shift), felt_from_u64(l4));
    proof {
        lemma_small_mod(
            ((((l0 * 0x100000000 + l1) * 0x100000000 + l2) * 0x100000000 + l3) * 0x100000000) as nat,
            felt_modulus(),
        );
        lemma_small_mod(l4 as nat, felt_modulus());
        lemma_small_mod(
            ((((l0 * 0x100000000 + l1) * 0x100000000 + l2) * 0x100000000 + l3) * 0x100000000 + l4) as nat,
            felt_modulus(),
        );
    }
    acc = felt_add(felt_mul(acc, shift), felt_from_u64(l5));
    proof {
        lemma_small_mod(
            (((((l0 * 0x100000000 + l1) * 0x100000000 + l2) * 0x100000000 + l3) * 0x100000000 + l4)
                * 0x100000000) as nat,
            felt_modulus(),
        );
        lemma_small_mod(l5 as nat, felt_modulus());
        lemma_small_mod(
            (((((l0 * 0x100000000 + l1) * 0x100000000 + l2) * 0x100000000 + l3) * 0x100000000 + l4)
                * 0x100000000 + l5) as nat,
            felt_modulus(),
        );
    }
    acc = felt_add(felt_mul(acc, shift), felt_from_u64(l6));
    proof {
        lemma_small_mod(
            ((((((l0 * 0x100000000 + l1) * 0x100000000 + l2) * 0x100000000 + l3) * 0x100000000 + l4)
                * 0x100000000 + l5) * 0x100000000) as nat,
            felt_modulus(),
        );
        lemma_small_mod(l6 as nat, felt_modulus());
        lemma_small_mod(
            ((((((l0 * 0x100000000 + l1) * 0x100000000 + l2) * 0x100000000 + l3) * 0x100000000 + l4)
                * 0x100000000 + l5) * 0x100000000 + l6) as nat,
            felt_modulus(),
        );
    }
    acc = felt_add(felt_mul(acc, shift), felt_from_u64(l7));
    proof {
        lemma_small_mod(
            (((((((l0 * 0x100000000 + l1) * 0x100000000 + l2) * 0x100000000 + l3) * 0x100000000 + l4)
                * 0x100000000 + l5) * 0x100000000 + l6) * 0x100000000) as nat,
            felt_modulus(),
        );
        lemma_small_mod(l7 as nat, felt_modulus());
        lemma_small_mod(limbs_val(l0, l1, l2, l3, l4, l5, l6, l7), felt_modulus());
    }
    acc
}

} // verus!
