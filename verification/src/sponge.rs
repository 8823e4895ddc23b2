//! The permutation engine and its state: a three-phase round schedule over a
//! fixed-width state of field elements.
//!
//! One monotonically increasing round index runs through all three phases —
//! first half of the full rounds, the partial rounds, second half of the full
//! rounds — consuming one round-constant row per round.  The specification
//! functions below define each step over canonical values; the executable
//! methods are proved to follow them exactly.

use vstd::prelude::*;
use vstd::arithmetic::power::pow;
use crate::field::Felt;
use crate::field::felt_add;
use crate::field::felt_from_be_bytes;
use crate::field::felt_from_u64;
use crate::field::felt_modulus;
use crate::field::felt_mul;
use crate::field::felt_pow;
use crate::field::felt_val;
use crate::field::be_bytes_val;
use crate::field::state_vals;
use crate::params::cfg_wf;
use crate::params::width;
use crate::params::ConfigView;
use crate::params::PoseidonConfig;

verus! {

/// Exponentiation modulo the field order.
pub open spec fn pow_mod(x: nat, e: u64) -> nat {
    (pow(x as int, e as nat) % (felt_modulus() as int)) as nat
}

/// One round-constant addition: the constant row is added slot-wise.
pub open spec fn add_rc_spec(s: Seq<nat>, rc: Seq<nat>) -> Seq<nat> {
    Seq::new(s.len(), |i: int| (s[i] + rc[i]) % felt_modulus())
}

/// The S-box applied to every slot.
pub open spec fn sbox_full_spec(s: Seq<nat>, alpha: u64) -> Seq<nat> {
    Seq::new(s.len(), |i: int| pow_mod(s[i], alpha))
}

/// The S-box applied to the first slot only; every other slot is unchanged.
pub open spec fn sbox_partial_spec(s: Seq<nat>, alpha: u64) -> Seq<nat> {
    s.update(0, pow_mod(s[0], alpha))
}

/// The first `k` terms of one matrix-row product, accumulated modulo the
/// field order in slot order: term `j` is `s[j] * row[j]`.
pub open spec fn mds_row_spec(row: Seq<nat>, s: Seq<nat>, k: int) -> nat
    decreases k,
{
    if k <= 0 {
        0
    } else {
        (mds_row_spec(row, s, k - 1) + (s[k - 1] * row[k - 1]) % felt_modulus()) % felt_modulus()
    }
}

/// The plain (unreduced) sum of the first `k` terms of one matrix-row
/// product.
pub open spec fn mds_row_sum(row: Seq<nat>, s: Seq<nat>, k: int) -> int
    decreases k,
{
    if k <= 0 {
        0
    } else {
        mds_row_sum(row, s, k - 1) + s[k - 1] * row[k - 1]
    }
}

/// The accumulated row product is the plain sum of all its terms, reduced
/// modulo the field order.
pub proof fn lemma_mds_row_is_sum(row: Seq<nat>, s: Seq<nat>, k: int)
    ensures
        mds_row_spec(row, s, k) == mds_row_sum(row, s, k) % (felt_modulus() as int),
    decreases k,
{
    if k > 0 {
        lemma_mds_row_is_sum(row, s, k - 1);
        vstd::arithmetic::div_mod::lemma_add_mod_noop(
            mds_row_sum(row, s, k - 1),
            (s[k - 1] * row[k - 1]) as int,
            felt_modulus() as int,
        );
    }
}

/// The matrix-vector product of the mixing matrix with the state, every
/// output slot computed from the whole pre-update state.
pub open spec fn apply_mds_spec(m: Seq<Seq<nat>>, s: Seq<nat>) -> Seq<nat> {
    Seq::new(s.len(), |i: int| mds_row_spec(m[i], s, s.len() as int))
}

/// Whether round `r` applies the S-box to every slot: true in the first half
/// of the full rounds and again after the partial block.
pub open spec fn is_full_round(c: ConfigView, r: int) -> bool {
    r < c.full_rounds / 2 || r >= c.full_rounds / 2 + c.partial_rounds
}

/// One round of the permutation: constant addition, S-box (full or partial
/// according to the round index), then the mixing matrix.
pub open spec fn round_spec(c: ConfigView, s: Seq<nat>, r: int) -> Seq<nat> {
    let after_rc = add_rc_spec(s, c.ark[r]);
    let after_sbox = if is_full_round(c, r) {
        sbox_full_spec(after_rc, c.alpha)
    } else {
        sbox_partial_spec(after_rc, c.alpha)
    };
    apply_mds_spec(c.mds, after_sbox)
}

/// The first `n` rounds of the permutation, in round-index order.
pub open spec fn rounds_spec(c: ConfigView, s: Seq<nat>, n: int) -> Seq<nat>
    decreases n,
{
    if n <= 0 {
        s
    } else {
        round_spec(c, rounds_spec(c, s, n - 1), n - 1)
    }
}

/// The whole permutation: every round, one constant row per round, the round
/// index running from zero through all three phases without resetting.
pub open spec fn permute_spec(c: ConfigView, s: Seq<nat>) -> Seq<nat> {
    rounds_spec(c, s, c.full_rounds + c.partial_rounds as int)
}

/// The initial state of a session: all slots zero except the slot just past
/// the rate portion, which holds the decoded domain separator.
pub open spec fn init_state_vals(c: ConfigView, iv: Seq<u8>) -> Seq<nat> {
    Seq::new(width(c), |i: int| if i == c.rate as int {
        be_bytes_val(iv) % felt_modulus()
    } else {
        0nat
    })
}

/// Why constructing a sponge failed.
#[derive(Debug, PartialEq, Eq, Structural)]
pub enum ConfigError {
    /// The configuration reserves no capacity slots; a sponge over it would
    /// have no security margin, so it must not be instantiated.
    ZeroCapacity,
    /// A constant-table or matrix dimension does not match the round counts
    /// or the state width, or the full-round count does not split evenly in
    /// two.
    DimensionMismatch,
}

/// A permutation instance bound to its state buffer.
pub struct PoseidonSponge {
    /// The bound parameters.
    pub parameters: PoseidonConfig,
    /// The current state: one field element per slot.
    pub state: Vec<Felt>,
}

impl PoseidonSponge {
    /// The state buffer has exactly one slot per the configuration's width,
    /// and the configuration is dimensionally sound.
    pub open spec fn wf(self) -> bool {
        &&& cfg_wf(self.parameters@)
        &&& self.state@.len() == width(self.parameters@)
    }

    /// Constructs a sponge over the given parameters, seeded with the domain
    /// separator: it fails on a configuration with no capacity or with
    /// mismatched dimensions, and otherwise starts from the all-zero state
    /// with the decoded domain separator in the slot just past the rate.
    pub fn new(parameters: PoseidonConfig, iv: &[u8; 32]) -> (r: Result<PoseidonSponge, ConfigError>)
        ensures
            r is Ok <==> (parameters@.capacity >= 1 && cfg_wf(parameters@)),
            (match r {
                Ok(s) => {
                    &&& s.wf()
                    &&& s.parameters == parameters
                    &&& state_vals(s.state@) == init_state_vals(parameters@, iv@)
                },
                Err(e) => {
                    &&& (e == ConfigError::ZeroCapacity <==> parameters@.capacity == 0)
                    &&& (e == ConfigError::DimensionMismatch <==> (parameters@.capacity >= 1
                        && !cfg_wf(parameters@)))
                },
            }),
    {
        if parameters.capacity == 0 {
            return Err(ConfigError::ZeroCapacity);
        }
        if !parameters.check_valid() {
            return Err(ConfigError::DimensionMismatch);
        }
        let ml = parameters.mds.len();
        proof {
            assert(ml == parameters@.mds.len());
        }
        let w = parameters.rate + parameters.capacity;
        let mut state: Vec<Felt> = Vec::new();
        let mut i: usize = 0;
        while i < w
            invariant
                i <= w,
                w == width(parameters@),
                state@.len() == i,
                forall|j: int| 0 <= j < i ==> felt_val(#[trigger] state@[j]) == 0,
            decreases w - i,
        {
            state.push(felt_from_u64(0));
            i += 1;
        }
        let seed = felt_from_be_bytes(iv.as_slice());
        state[parameters.rate] = seed;
        proof {
            assert(state_vals(state@) =~= init_state_vals(parameters@, iv@));
        }
        Ok(PoseidonSponge { parameters, state })
    }

    /// Adds round-constant row `round_number` to the state, slot-wise.
    pub fn apply_ark(&self, state: &mut Vec<Felt>, round_number: usize)
        requires
            cfg_wf(self.parameters@),
            old(state)@.len() == width(self.parameters@),
            round_number < self.parameters@.ark.len(),
        ensures
            final(state)@.len() == old(state)@.len(),
            state_vals(final(state)@) == add_rc_spec(
                state_vals(old(state)@),
                self.parameters@.ark[round_number as int],
            ),
    {
        let ghost rc = self.parameters@.ark[round_number as int];
        let ghost s0 = state_vals(old(state)@);
        let row = &self.parameters.ark[round_number];
        proof {
            assert(rc == state_vals(row@));
        }
        let n = state.len();
        let mut i: usize = 0;
        while i < n
            invariant
                i <= n,
                n == state@.len(),
                state@.len() == old(state)@.len(),
                rc == state_vals(row@),
                rc.len() == n,
                s0 == state_vals(old(state)@),
                forall|j: int| 0 <= j < i ==> felt_val(#[trigger] state@[j]) == (s0[j] + rc[j])
                    % felt_modulus(),
                forall|j: int| i <= j < n ==> #[trigger] state@[j] == old(state)@[j],
            decreases n - i,
        {
            let v = felt_add(state[i], row[i]);
            state[i] = v;
            i += 1;
        }
        proof {
            assert(state_vals(state@) =~= add_rc_spec(s0, rc));
        }
    }

    /// Applies the S-box: to every slot in a full round, to the first slot
    /// only in a partial round.
    pub fn apply_s_box(&self, state: &mut Vec<Felt>, is_full: bool)
        requires
            old(state)@.len() >= 1,
        ensures
            final(state)@.len() == old(state)@.len(),
            state_vals(final(state)@) == (if is_full {
                sbox_full_spec(state_vals(old(state)@), self.parameters.alpha)
            } else {
                sbox_partial_spec(state_vals(old(state)@), self.parameters.alpha)
            }),
    {
        let ghost s0 = state_vals(old(state)@);
        if is_full {
            let n = state.len();
            let mut i: usize = 0;
            while i < n
                invariant
                    i <= n,
                    n == state@.len(),
                    state@.len() == old(state)@.len(),
                    s0 == state_vals(old(state)@),
                    forall|j: int| 0 <= j < i ==> felt_val(#[trigger] state@[j]) == pow_mod(
                        s0[j],
                        self.parameters.alpha,
                    ),
                    forall|j: int| i <= j < n ==> #[trigger] state@[j] == old(state)@[j],
                decreases n - i,
            {
                let v = felt_pow(state[i], self.parameters.alpha);
                state[i] = v;
                i += 1;
            }
            proof {
                assert(state_vals(state@) =~= sbox_full_spec(s0, self.parameters.alpha));
            }
        } else {
            let v = felt_pow(state[0], self.parameters.alpha);
            state[0] = v;
            proof {
                assert(state_vals(state@) =~= sbox_partial_spec(s0, self.parameters.alpha));
            }
        }
    }

    /// Applies the mixing matrix: a matrix-vector product over the field,
    /// every output slot computed from the whole pre-update state.
    pub fn apply_mds(&self, state: &mut Vec<Felt>)
        requires
            cfg_wf(self.parameters@),
            old(state)@.len() == width(self.parameters@),
        ensures
            final(state)@.len() == old(state)@.len(),
            state_vals(final(state)@) == apply_mds_spec(
                self.parameters@.mds,
                state_vals(old(state)@),
            ),
    {
        let ghost m = self.parameters@.mds;
        let ghost s0 = state_vals(old(state)@);
        let n = state.len();
        let mut new_state: Vec<Felt> = Vec::new();
        let mut i: usize = 0;
        while i < n
            invariant
                i <= n,
                n == state@.len(),
                state@ == old(state)@,
                s0 == state_vals(old(state)@),
                m == self.parameters@.mds,
                cfg_wf(self.parameters@),
                n == width(self.parameters@),
                new_state@.len() == i,
                forall|t: int| 0 <= t < i ==> felt_val(#[trigger] new_state@[t]) == mds_row_spec(
                    m[t],
                    s0,
                    n as int,
                ),
            decreases n - i,
        {
            let row = &self.parameters.mds[i];
            proof {
                assert(m[i as int] == state_vals(row@));
            }
            let mut cur = felt_from_u64(0);
            let mut j: usize = 0;
            while j < n
                invariant
                    j <= n,
                    n == state@.len(),
                    state@ == old(state)@,
                    s0 == state_vals(old(state)@),
                    m == self.parameters@.mds,
                    i < n,
                    m[i as int] == state_vals(row@),
                    row@.len() == n,
                    felt_val(cur) == mds_row_spec(m[i as int], s0, j as int),
                decreases n - j,
            {
                let term = felt_mul(state[j], row[j]);
                cur = felt_add(cur, term);
                j += 1;
            }
            new_state.push(cur);
            i += 1;
        }
        let mut k: usize = 0;
        while k < n
            invariant
                k <= n,
                n == state@.len(),
                state@.len() == old(state)@.len(),
                s0 == state_vals(old(state)@),
                m == self.parameters@.mds,
                new_state@.len() == n,
                forall|t: int| 0 <= t < n ==> felt_val(#[trigger] new_state@[t]) == mds_row_spec(
                    m[t],
                    s0,
                    n as int,
                ),
                forall|t: int| 0 <= t < k ==> #[trigger] state@[t] == new_state@[t],
            decreases n - k,
        {
            let v = new_state[k];
            state[k] = v;
            k += 1;
        }
        proof {
            assert(state_vals(state@) =~= apply_mds_spec(m, s0));
        }
    }

    /// Runs the full permutation over the sponge's own state: the three
    /// phases in order, one round-constant row per round, the round index
    /// increasing monotonically across phase boundaries.
    pub fn permute(&mut self)
        requires
            old(self).wf(),
        ensures
            final(self).wf(),
            final(self).parameters == old(self).parameters,
            state_vals(final(self).state@) == permute_spec(
                old(self).parameters@,
                state_vals(old(self).state@),
            ),
    {
        let ghost c = self.parameters@;
        let ghost s0 = state_vals(self.state@);
        let al = self.parameters.ark.len();
        proof {
            assert(al == c.ark.len());
        }
        let full_rounds_over_2 = self.parameters.full_rounds / 2;
        let partial_end = full_rounds_over_2 + self.parameters.partial_rounds;
        let total = self.parameters.full_rounds + self.parameters.partial_rounds;
        let n = self.state.len();
        let mut state: Vec<Felt> = Vec::new();
        let mut t: usize = 0;
        while t < n
            invariant
                t <= n,
                n == self.state@.len(),
                state@.len() == t,
                forall|j: int| 0 <= j < t ==> #[trigger] state@[j] == self.state@[j],
            decreases n - t,
        {
            state.push(self.state[t]);
            t += 1;
        }
        proof {
            assert(state@ =~= self.state@);
        }
        let mut i: usize = 0;
        while i < full_rounds_over_2
            invariant
                i <= full_rounds_over_2,
                self == old(self),
                c == self.parameters@,
                s0 == state_vals(self.state@),
                full_rounds_over_2 == c.full_rounds / 2,
                c.ark.len() == c.full_rounds + c.partial_rounds,
                cfg_wf(c),
                state@.len() == width(c),
                state_vals(state@) == rounds_spec(c, s0, i as int),
            decreases full_rounds_over_2 - i,
        {
            proof {
                assert(is_full_round(c, i as int));
            }
            self.apply_ark(&mut state, i);
            self.apply_s_box(&mut state, true);
            self.apply_mds(&mut state);
            i += 1;
        }
        while i < partial_end
            invariant
                full_rounds_over_2 <= i <= partial_end,
                self == old(self),
                c == self.parameters@,
                s0 == state_vals(self.state@),
                full_rounds_over_2 == c.full_rounds / 2,
                partial_end == c.full_rounds / 2 + c.partial_rounds,
                c.ark.len() == c.full_rounds + c.partial_rounds,
                cfg_wf(c),
                state@.len() == width(c),
                state_vals(state@) == rounds_spec(c, s0, i as int),
            decreases partial_end - i,
        {
            proof {
                assert(!is_full_round(c, i as int));
            }
            self.apply_ark(&mut state, i);
            self.apply_s_box(&mut state, false);
            self.apply_mds(&mut state);
            i += 1;
        }
        while i < total
            invariant
                partial_end <= i <= total,
                self == old(self),
                c == self.parameters@,
                s0 == state_vals(self.state@),
                full_rounds_over_2 == c.full_rounds / 2,
                partial_end == c.full_rounds / 2 + c.partial_rounds,
                total == c.full_rounds + c.partial_rounds,
                c.ark.len() == c.full_rounds + c.partial_rounds,
                cfg_wf(c),
                state@.len() == width(c),
                state_vals(state@) == rounds_spec(c, s0, i as int),
            decreases total - i,
        {
            proof {
                assert(is_full_round(c, i as int));
            }
            self.apply_ark(&mut state, i);
            self.apply_s_box(&mut state, true);
            self.apply_mds(&mut state);
            i += 1;
        }
        self.state = state;
    }
}

} // verus!
