//! The sponge adapter over the reference instantiation: the permutation
//! bound to its fixed parameters and exposed in the shape a generic duplex
//! construction consumes — the capacity/rate split, construction from a
//! domain-separation value, permute-in-place, indexed state access, and
//! secure erasure at end of session.

use vstd::prelude::*;
use crate::field::Felt;
use crate::field::felt_val;
use crate::field::felt_zeroize;
use crate::field::state_vals;
use crate::field::be_bytes_val;
use crate::params::poseidon_parameters_for_test;
use crate::params::reference_config_view;
use crate::sponge::init_state_vals;
use crate::sponge::permute_spec;
use crate::sponge::PoseidonSponge;

verus! {

/// Number of state slots kept internal by the reference instantiation.
pub const CAPACITY: usize = 1;

/// Number of state slots exposed for input and output by the reference
/// instantiation.
pub const RATE: usize = 2;

/// The permutation over the BLS12-381 base field with the reference
/// parameters, bound to its own state buffer.  Viewed as the sequence of the
/// state slots' canonical values.
pub struct Bls12381Poseidon(PoseidonSponge);

impl View for Bls12381Poseidon {
    type V = Seq<nat>;

    closed spec fn view(&self) -> Seq<nat> {
        state_vals(self.0.state@)
    }
}

/// The value of an all-zero byte sequence is zero.
proof fn lemma_be_bytes_val_zero(s: Seq<u8>)
    requires
        forall|i: int| 0 <= i < s.len() ==> s[i] == 0,
    ensures
        be_bytes_val(s) == 0,
    decreases s.len(),
{
    if s.len() > 0 {
        lemma_be_bytes_val_zero(s.drop_last());
    }
}

impl Bls12381Poseidon {
    /// The adapter carries the reference parameters and a state buffer of
    /// exactly `RATE + CAPACITY` slots.
    pub closed spec fn wf(self) -> bool {
        &&& self.0.wf()
        &&& self.0.parameters@ == reference_config_view()
    }

    /// Constructs an adapter seeded with the domain-separation value: the
    /// state is all zero except the slot at index `RATE`, which holds the
    /// big-endian decoding of the value modulo the field order.  The
    /// reference instantiation has a positive capacity and sound dimensions,
    /// so construction cannot fail.
    pub fn new(iv: [u8; 32]) -> (s: Self)
        ensures
            s.wf(),
            s@ == init_state_vals(reference_config_view(), iv@),
            s@.len() == 3,
    {
        let parameters = poseidon_parameters_for_test();
        let r = PoseidonSponge::new(parameters, &iv);
        proof {
            assert(r is Ok);
        }
        match r {
            Ok(sp) => Bls12381Poseidon(sp),
            Err(_) => vstd::pervasive::unreached(),
        }
    }

    /// Runs the permutation in place over the adapter's own state.
    pub fn permute(&mut self)
        requires
            old(self).wf(),
        ensures
            final(self).wf(),
            final(self)@.len() == old(self)@.len(),
            final(self)@ == permute_spec(reference_config_view(), old(self)@),
    {
        self.0.permute();
    }

    /// Reads the state slot at `index`.
    pub fn get(&self, index: usize) -> (r: Felt)
        requires
            index < self@.len(),
        ensures
            felt_val(r) == self@[index as int],
    {
        self.0.state[index]
    }

    /// Overwrites the state slot at `index`.
    pub fn set(&mut self, index: usize, value: Felt)
        requires
            index < old(self)@.len(),
        ensures
            final(self)@ == old(self)@.update(index as int, felt_val(value)),
            final(self).wf() == old(self).wf(),
    {
        self.0.state[index] = value;
        proof {
            assert(state_vals(self.0.state@) =~= state_vals(old(self).0.state@).update(
                index as int,
                felt_val(value),
            ));
        }
    }

    /// Reads the state slots in `start..end`, in order.
    pub fn get_range(&self, start: usize, end: usize) -> (r: Vec<Felt>)
        requires
            start <= end,
            end <= self@.len(),
        ensures
            state_vals(r@) == self@.subrange(start as int, end as int),
    {
        let mut r: Vec<Felt> = Vec::new();
        let mut i: usize = start;
        while i < end
            invariant
                start <= i <= end,
                end <= self.0.state@.len(),
                r@.len() == i - start,
                forall|j: int| 0 <= j < r@.len() ==> #[trigger] r@[j] == self.0.state@[start + j],
            decreases end - i,
        {
            r.push(self.0.state[i]);
            i += 1;
        }
        proof {
            assert(state_vals(r@) =~= self@.subrange(start as int, end as int));
        }
        r
    }

    /// Reads the first `k` state slots.
    pub fn get_prefix(&self, k: usize) -> (r: Vec<Felt>)
        requires
            k <= self@.len(),
        ensures
            state_vals(r@) == self@.subrange(0, k as int),
    {
        self.get_range(0, k)
    }

    /// Reads the state slots from `k` onward.
    pub fn get_suffix(&self, k: usize) -> (r: Vec<Felt>)
        requires
            k <= self@.len(),
        ensures
            state_vals(r@) == self@.subrange(k as int, self@.len() as int),
    {
        let end = self.0.state.len();
        self.get_range(k, end)
    }

    /// Overwrites the state slots from `start` onward with the given values,
    /// in order; slots outside `start..start + values.len()` are unchanged.
    pub fn set_range(&mut self, start: usize, values: &Vec<Felt>)
        requires
            start + values@.len() <= old(self)@.len(),
        ensures
            final(self)@.len() == old(self)@.len(),
            forall|j: int| 0 <= j < final(self)@.len() ==> final(self)@[j] == (if start <= j
                < start + values@.len() {
                felt_val(values@[j - start])
            } else {
                old(self)@[j]
            }),
            final(self).wf() == old(self).wf(),
    {
        let sl = self.0.state.len();
        let mut i: usize = 0;
        while i < values.len()
            invariant
                i <= values@.len(),
                start + values@.len() <= self.0.state@.len(),
                sl == self.0.state@.len(),
                self.0.state@.len() == old(self).0.state@.len(),
                self.0.parameters == old(self).0.parameters,
                forall|j: int| 0 <= j < i ==> #[trigger] self.0.state@[start + j] == values@[j],
                forall|j: int| 0 <= j < self.0.state@.len() && !(start <= j < start + i)
                    ==> #[trigger] self.0.state@[j] == old(self).0.state@[j],
            decreases values@.len() - i,
        {
            let v = values[i];
            self.0.state[start + i] = v;
            i += 1;
        }
        proof {
            assert forall|j: int| 0 <= j < state_vals(self.0.state@).len() implies state_vals(
                self.0.state@,
            )[j] == (if start <= j < start + values@.len() {
                felt_val(values@[j - start])
            } else {
                state_vals(old(self).0.state@)[j]
            }) by {
                if start <= j < start + values@.len() {
                    assert(self.0.state@[start + (j - start)] == values@[j - start]);
                }
            }
        }
    }

    /// The number of state slots.
    pub fn state_len(&self) -> (n: usize)
        ensures
            n == self@.len(),
    {
        self.0.state.len()
    }

    /// Erases the session's state: every slot is overwritten in place with
    /// zero through the secure-erasure collaborator, and the buffer is then
    /// emptied, as at the end of a hashing session.
    pub fn zeroize(&mut self)
        ensures
            final(self)@.len() == 0,
    {
        let n = self.0.state.len();
        let mut i: usize = 0;
        while i < n
            invariant
                i <= n,
                n == self.0.state@.len(),
                forall|j: int| 0 <= j < i ==> felt_val(#[trigger] self.0.state@[j]) == 0,
            decreases n - i,
        {
            felt_zeroize(&mut self.0.state[i]);
            i += 1;
        }
        self.0.state.clear();
    }
}

impl Default for Bls12381Poseidon {
    /// The adapter over the reference parameters with the all-zero state.
    fn default() -> (s: Self)
        ensures
            s.wf(),
            s@ == Seq::new(3, |i: int| 0nat),
    {
        let iv = [0u8; 32];
        let s = Bls12381Poseidon::new(iv);
        proof {
            broadcast use vstd::array::group_array_axioms;

            lemma_be_bytes_val_zero(iv@);
            assert(s@ =~= Seq::new(3, |i: int| 0nat));
        }
        s
    }
}

} // verus!
