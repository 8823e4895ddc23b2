//! The immutable description of one permutation instance: round counts,
//! S-box exponent, constant tables, and the rate/capacity split.

use vstd::prelude::*;
use crate::field::Felt;
use crate::constants::reference_ark;
use crate::constants::reference_mds;
use crate::constants::spec_reference_ark;
use crate::constants::spec_reference_mds;
use crate::constants::table_vals;

verus! {

/// The parameters of one permutation instance.  Pure data: round counts, the
/// S-box exponent, the round-constant table (indexed by round, then by state
/// slot), the mixing matrix, and the rate/capacity split of the state.
pub struct PoseidonConfig {
    /// Number of rounds applying the S-box to every state slot, split evenly
    /// before and after the partial-round block.
    pub full_rounds: usize,
    /// Number of rounds applying the S-box to the first state slot only.
    pub partial_rounds: usize,
    /// S-box exponent: a slot `x` maps to `x^alpha`.
    pub alpha: u64,
    /// Additive round constants, one row per round.
    pub ark: Vec<Vec<Felt>>,
    /// The mixing matrix, applied to the state after every S-box step.
    pub mds: Vec<Vec<Felt>>,
    /// Number of state slots exposed for input and output.
    pub rate: usize,
    /// Number of state slots kept internal.
    pub capacity: usize,
}

/// The mathematical content of a configuration: the same data with the
/// constant tables replaced by their canonical integer values.
pub ghost struct ConfigView {
    pub full_rounds: nat,
    pub partial_rounds: nat,
    pub alpha: u64,
    pub ark: Seq<Seq<nat>>,
    pub mds: Seq<Seq<nat>>,
    pub rate: nat,
    pub capacity: nat,
}

impl View for PoseidonConfig {
    type V = ConfigView;

    open spec fn view(&self) -> ConfigView {
        ConfigView {
            full_rounds: self.full_rounds as nat,
            partial_rounds: self.partial_rounds as nat,
            alpha: self.alpha,
            ark: table_vals(self.ark@),
            mds: table_vals(self.mds@),
            rate: self.rate as nat,
            capacity: self.capacity as nat,
        }
    }
}

/// The number of state slots of a configuration.
pub open spec fn width(c: ConfigView) -> nat {
    c.rate + c.capacity
}

/// Dimensional soundness of a configuration: the state width is positive,
/// the full rounds split evenly in two, there is exactly one constant row
/// per round, every constant row has one entry per state slot, and the
/// mixing matrix is square of the state width.
pub open spec fn cfg_wf(c: ConfigView) -> bool {
    &&& width(c) >= 1
    &&& c.full_rounds % 2 == 0
    &&& c.ark.len() == c.full_rounds + c.partial_rounds
    &&& (forall|r: int| 0 <= r < c.ark.len() ==> (#[trigger] c.ark[r]).len() == width(c))
    &&& c.mds.len() == width(c)
    &&& (forall|i: int| 0 <= i < c.mds.len() ==> (#[trigger] c.mds[i]).len() == width(c))
}

impl PoseidonConfig {
    /// Checks the dimensional soundness of a configuration at run time, so
    /// that a caller supplying parameters other than the fixed reference set
    /// cannot reach out-of-bounds table access inside the permutation.
    pub fn check_valid(&self) -> (b: bool)
        ensures
            b == cfg_wf(self@),
    {
        let w = match self.rate.checked_add(self.capacity) {
            Some(w) => w,
            None => {
                // The mixing matrix cannot be as long as an overflowing width.
                let ml = self.mds.len();
                proof {
                    assert(ml == self.mds@.len());
                    assert(width(self@) > usize::MAX);
                }
                return false;
            },
        };
        if w < 1 {
            return false;
        }
        if self.full_rounds % 2 != 0 {
            return false;
        }
        let total = match self.full_rounds.checked_add(self.partial_rounds) {
            Some(t) => t,
            None => {
                // The constant table cannot be as long as an overflowing count.
                let al = self.ark.len();
                proof {
                    assert(al == self.ark@.len());
                }
                return false;
            },
        };
        if self.ark.len() != total {
            return false;
        }
        let mut r: usize = 0;
        while r < self.ark.len()
            invariant
                r <= self.ark@.len(),
                w == width(self@),
                forall|j: int| 0 <= j < r ==> (#[trigger] self@.ark[j]).len() == width(self@),
            decreases self.ark@.len() - r,
        {
            if self.ark[r].len() != w {
                proof {
                    assert(self@.ark[r as int] == state_vals_of_row(self.ark@[r as int]));
                }
                return false;
            }
            proof {
                assert(self@.ark[r as int] == state_vals_of_row(self.ark@[r as int]));
            }
            r += 1;
        }
        if self.mds.len() != w {
            return false;
        }
        let mut i: usize = 0;
        while i < self.mds.len()
            invariant
                i <= self.mds@.len(),
                w == width(self@),
                forall|j: int| 0 <= j < i ==> (#[trigger] self@.mds[j]).len() == width(self@),
            decreases self.mds@.len() - i,
        {
            if self.mds[i].len() != w {
                proof {
                    assert(self@.mds[i as int] == state_vals_of_row(self.mds@[i as int]));
                }
                return false;
            }
            proof {
                assert(self@.mds[i as int] == state_vals_of_row(self.mds@[i as int]));
            }
            i += 1;
        }
        true
    }
}

/// The mathematical content of the reference instantiation: eight full
/// rounds, twenty-nine partial rounds, S-box exponent seventeen, and a
/// three-slot state split into two rate slots and one capacity slot.
pub open spec fn reference_config_view() -> ConfigView {
    ConfigView {
        full_rounds: 8,
        partial_rounds: 29,
        alpha: 17,
        ark: spec_reference_ark(),
        mds: spec_reference_mds(),
        rate: 2,
        capacity: 1,
    }
}

/// Assembles the reference parameter set over the BLS12-381 base field:
/// `alpha = 17`, eight full rounds, twenty-nine partial rounds, rate two and
/// capacity one, with the fixed constant tables.
pub fn poseidon_parameters_for_test() -> (c: PoseidonConfig)
    ensures
        c@ == reference_config_view(),
        cfg_wf(c@),
{
    let alpha: u64 = 17;
    let full_rounds: usize = 8;
    let total_rounds: usize = 37;
    let partial_rounds: usize = total_rounds - full_rounds;
    let capacity: usize = 1;
    let rate: usize = 2;
    let c = PoseidonConfig {
        full_rounds,
        partial_rounds,
        alpha,
        ark: reference_ark(),
        mds: reference_mds(),
        rate,
        capacity,
    };
    proof {
        assert(c@ =~~= reference_config_view());
        assert forall|r: int| 0 <= r < c@.ark.len() implies (#[trigger] c@.ark[r]).len() == width(c@) by {
            assert(c@.ark[r] == state_vals_of_row(c.ark@[r]));
        }
        assert forall|i: int| 0 <= i < c@.mds.len() implies (#[trigger] c@.mds[i]).len() == width(c@) by {
            assert(c@.mds[i] == state_vals_of_row(c.mds@[i]));
        }
    }
    c
}

/// The canonical values of one table row.
pub open spec fn state_vals_of_row(row: Vec<Felt>) -> Seq<nat> {
    crate::field::state_vals(row@)
}

} // verus!
