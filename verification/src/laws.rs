//! The stated laws of the permutation and the adapter, proved once and for
//! all inputs: determinism, round-schedule conformance, the S-box phase
//! boundaries of the reference instantiation, and domain separation.

use vstd::prelude::*;
use crate::field::be_bytes_val;
use crate::field::felt_modulus;
use crate::params::reference_config_view;
use crate::params::ConfigView;
use crate::sponge::init_state_vals;
use crate::sponge::is_full_round;
use crate::sponge::permute_spec;
use crate::sponge::pow_mod;
use crate::sponge::round_spec;
use crate::sponge::rounds_spec;
use crate::sponge::sbox_full_spec;
use crate::sponge::sbox_partial_spec;

verus! {

/// Determinism: the permutation is a pure function of the parameters and the
/// input state — equal parameters and equal starting states always yield
/// equal permuted states.
pub proof fn lemma_permute_deterministic(c1: ConfigView, c2: ConfigView, s1: Seq<nat>, s2: Seq<nat>)
    requires
        c1 == c2,
        s1 == s2,
    ensures
        permute_spec(c1, s1) == permute_spec(c2, s2),
{
}

/// Rounds `r0 .. r0 + n` of the permutation, composed front to back: the
/// round index increases by exactly one per round, so the constant rows are
/// consumed in strictly increasing order with none skipped or repeated.
pub open spec fn rounds_from_spec(c: ConfigView, s: Seq<nat>, r0: int, n: int) -> Seq<nat>
    decreases n,
{
    if n <= 0 {
        s
    } else {
        rounds_from_spec(c, round_spec(c, s, r0), r0 + 1, n - 1)
    }
}

/// Peeling the last round off a front-to-back composition.
proof fn lemma_rounds_from_snoc(c: ConfigView, s: Seq<nat>, r0: int, n: int)
    requires
        n >= 0,
    ensures
        rounds_from_spec(c, s, r0, n + 1) == round_spec(c, rounds_from_spec(c, s, r0, n), r0 + n),
    decreases n,
{
    if n == 0 {
        assert(rounds_from_spec(c, s, r0, 1) == rounds_from_spec(c, round_spec(c, s, r0), r0 + 1, 0));
    } else {
        lemma_rounds_from_snoc(c, round_spec(c, s, r0), r0 + 1, n - 1);
        assert(rounds_from_spec(c, s, r0, n + 1) == rounds_from_spec(
            c,
            round_spec(c, s, r0),
            r0 + 1,
            n,
        ));
        assert(rounds_from_spec(c, s, r0, n) == rounds_from_spec(
            c,
            round_spec(c, s, r0),
            r0 + 1,
            n - 1,
        ));
    }
}

/// The first `n` rounds equal the front-to-back composition starting at
/// round index zero.
proof fn lemma_rounds_spec_from(c: ConfigView, s: Seq<nat>, n: int)
    requires
        n >= 0,
    ensures
        rounds_spec(c, s, n) == rounds_from_spec(c, s, 0, n),
    decreases n,
{
    if n > 0 {
        lemma_rounds_spec_from(c, s, n - 1);
        lemma_rounds_from_snoc(c, s, 0, n - 1);
    }
}

/// Round-count conformance: the permutation consists of exactly
/// `full_rounds + partial_rounds` rounds, one constant-row addition per
/// round, the single round counter starting at zero and increasing by one
/// through all three phases without resetting.
pub proof fn lemma_permute_round_schedule(c: ConfigView, s: Seq<nat>)
    ensures
        permute_spec(c, s) == rounds_from_spec(c, s, 0, c.full_rounds + c.partial_rounds as int),
{
    lemma_rounds_spec_from(c, s, c.full_rounds + c.partial_rounds as int);
}

/// S-box phase boundaries for the reference parameters: of the thirty-seven
/// rounds, the first four and the last four apply the S-box to every slot,
/// and the twenty-nine rounds between them apply it to slot zero only,
/// leaving every other slot unchanged by the S-box step.
pub proof fn lemma_reference_sbox_phases(r: int, s: Seq<nat>, i: int)
    requires
        0 <= r < 37,
        1 <= i < s.len(),
    ensures
        is_full_round(reference_config_view(), r) <==> (r < 4 || 33 <= r),
        sbox_partial_spec(s, 17)[0] == pow_mod(s[0], 17),
        sbox_partial_spec(s, 17)[i] == s[i],
        sbox_full_spec(s, 17)[i] == pow_mod(s[i], 17),
{
}

/// Domain separation: two domain separators that decode to different field
/// elements yield different initial states, whatever the rest of the
/// configuration, provided it reserves at least one capacity slot.
pub proof fn lemma_domain_separation(c: ConfigView, d1: Seq<u8>, d2: Seq<u8>)
    requires
        c.capacity >= 1,
        be_bytes_val(d1) % felt_modulus() != be_bytes_val(d2) % felt_modulus(),
    ensures
        init_state_vals(c, d1) != init_state_vals(c, d2),
{
    assert(init_state_vals(c, d1)[c.rate as int] != init_state_vals(c, d2)[c.rate as int]);
}

} // verus!
