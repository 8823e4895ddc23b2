use poseidon_sponge::adapter::Bls12381Poseidon;
use poseidon_sponge::adapter::CAPACITY;
use poseidon_sponge::adapter::RATE;
use poseidon_sponge::field::felt_from_be_bytes;
use poseidon_sponge::field::felt_from_limbs;
use poseidon_sponge::field::felt_from_u64;
use poseidon_sponge::field::felt_pow;
use poseidon_sponge::field::Felt;
use poseidon_sponge::params::poseidon_parameters_for_test;
use poseidon_sponge::sponge::ConfigError;
use poseidon_sponge::sponge::PoseidonSponge;

fn assert_felt_eq(a: Felt, b: Felt) {
    assert!(a.eq_felt(&b));
}

#[test]
fn reference_parameters_shape() {
    let c = poseidon_parameters_for_test();
    assert_eq!(c.full_rounds, 8);
    assert_eq!(c.partial_rounds, 29);
    assert_eq!(c.alpha, 17);
    assert_eq!(c.rate, 2);
    assert_eq!(c.capacity, 1);
    assert_eq!(c.ark.len(), 37);
    assert!(c.ark.iter().all(|row| row.len() == 3));
    assert_eq!(c.mds.len(), 3);
    assert!(c.mds.iter().all(|row| row.len() == 3));
    assert!(c.check_valid());
}

#[test]
fn boundary_reference_construction_succeeds() {
    let c = poseidon_parameters_for_test();
    assert_eq!(CAPACITY, 1);
    assert_eq!(RATE, 2);
    let s = PoseidonSponge::new(c, &[0u8; 32]).unwrap();
    assert_eq!(s.state.len(), 3);
}

#[test]
fn boundary_zero_capacity_fails() {
    let mut c = poseidon_parameters_for_test();
    c.capacity = 0;
    c.rate = 3;
    assert!(c.check_valid());
    let r = PoseidonSponge::new(c, &[0u8; 32]);
    assert_eq!(r.err(), Some(ConfigError::ZeroCapacity));
}

#[test]
fn truncated_constant_table_fails() {
    let mut c = poseidon_parameters_for_test();
    c.ark.pop();
    assert!(!c.check_valid());
    let r = PoseidonSponge::new(c, &[0u8; 32]);
    assert_eq!(r.err(), Some(ConfigError::DimensionMismatch));
}

#[test]
fn mismatched_matrix_fails() {
    let mut c = poseidon_parameters_for_test();
    c.mds.pop();
    assert!(!c.check_valid());
    let r = PoseidonSponge::new(c, &[0u8; 32]);
    assert_eq!(r.err(), Some(ConfigError::DimensionMismatch));
}

#[test]
fn initialize_seeds_slot_past_rate() {
    let mut iv = [0u8; 32];
    iv[31] = 9;
    let s = Bls12381Poseidon::new(iv);
    assert_felt_eq(s.get(0), felt_from_u64(0));
    assert_felt_eq(s.get(1), felt_from_u64(0));
    assert_felt_eq(s.get(2), felt_from_u64(9));
}

#[test]
fn default_state_is_all_zero() {
    let s = Bls12381Poseidon::default();
    for i in 0..3 {
        assert_felt_eq(s.get(i), felt_from_u64(0));
    }
}

#[test]
fn golden_vector_zero_state() {
    let mut s = Bls12381Poseidon::new([0u8; 32]);
    s.permute();
    let expected_0 = felt_from_be_bytes(&[
        15, 168, 183, 110, 67, 188, 54, 107, 190, 192, 248, 228, 189, 60, 111, 101,
        102, 24, 169, 201, 30, 198, 66, 32, 213, 223, 51, 131, 221, 119, 17, 227,
        231, 193, 215, 141, 15, 36, 34, 185, 111, 240, 163, 179, 174, 95, 129, 201,
    ]);
    let expected_1 = felt_from_be_bytes(&[
        4, 100, 80, 220, 61, 214, 154, 122, 73, 244, 158, 55, 37, 212, 74, 24,
        139, 18, 24, 6, 39, 197, 220, 158, 240, 148, 23, 130, 172, 236, 203, 229,
        139, 194, 121, 148, 15, 176, 107, 216, 216, 221, 155, 143, 235, 58, 198, 87,
    ]);
    let expected_2 = felt_from_be_bytes(&[
        5, 122, 217, 148, 21, 160, 102, 135, 10, 130, 62, 172, 82, 166, 254, 149,
        101, 163, 102, 254, 153, 162, 211, 157, 173, 3, 30, 250, 53, 13, 16, 35,
        21, 243, 227, 146, 73, 29, 189, 212, 55, 179, 224, 124, 149, 158, 192, 164,
    ]);
    assert_felt_eq(s.get(0), expected_0);
    assert_felt_eq(s.get(1), expected_1);
    assert_felt_eq(s.get(2), expected_2);
}

#[test]
fn permute_is_deterministic() {
    let iv = [7u8; 32];
    let mut a = Bls12381Poseidon::new(iv);
    let mut b = Bls12381Poseidon::new(iv);
    a.permute();
    b.permute();
    for i in 0..3 {
        assert_felt_eq(a.get(i), b.get(i));
    }
}

#[test]
fn permuted_zero_state_is_not_all_zero() {
    let mut s = Bls12381Poseidon::new([0u8; 32]);
    s.permute();
    let zero = felt_from_u64(0);
    let all_zero = s.get(0).eq_felt(&zero) && s.get(1).eq_felt(&zero) && s.get(2).eq_felt(&zero);
    assert!(!all_zero);
}

#[test]
fn domain_separation_distinct_states() {
    let d1 = [0u8; 32];
    let mut d2 = [0u8; 32];
    d2[31] = 1;
    let a = Bls12381Poseidon::new(d1);
    let b = Bls12381Poseidon::new(d2);
    assert_felt_eq(a.get(0), b.get(0));
    assert_felt_eq(a.get(1), b.get(1));
    assert!(!a.get(2).eq_felt(&b.get(2)));
}

#[test]
fn sbox_phase_behavior() {
    let sp = PoseidonSponge::new(poseidon_parameters_for_test(), &[0u8; 32]).unwrap();
    let mut partial = vec![felt_from_u64(2), felt_from_u64(3), felt_from_u64(4)];
    sp.apply_s_box(&mut partial, false);
    assert_felt_eq(partial[0], felt_pow(felt_from_u64(2), 17));
    assert_felt_eq(partial[1], felt_from_u64(3));
    assert_felt_eq(partial[2], felt_from_u64(4));
    let mut full = vec![felt_from_u64(2), felt_from_u64(3), felt_from_u64(4)];
    sp.apply_s_box(&mut full, true);
    assert_felt_eq(full[0], felt_pow(felt_from_u64(2), 17));
    assert_felt_eq(full[1], felt_pow(felt_from_u64(3), 17));
    assert_felt_eq(full[2], felt_pow(felt_from_u64(4), 17));
}

#[test]
fn constant_addition_uses_indexed_row() {
    let sp = PoseidonSponge::new(poseidon_parameters_for_test(), &[0u8; 32]).unwrap();
    let mut st = vec![felt_from_u64(0), felt_from_u64(0), felt_from_u64(0)];
    sp.apply_ark(&mut st, 5);
    for i in 0..3 {
        assert_felt_eq(st[i], sp.parameters.ark[5][i]);
        assert!(!st[i].eq_felt(&felt_from_u64(0)));
    }
}

#[test]
fn permute_matches_manual_round_schedule() {
    let mut s = PoseidonSponge::new(poseidon_parameters_for_test(), &[0u8; 32]).unwrap();
    let manual_driver = PoseidonSponge::new(poseidon_parameters_for_test(), &[0u8; 32]).unwrap();
    let mut st = manual_driver.state.clone();
    for r in 0..37 {
        manual_driver.apply_ark(&mut st, r);
        manual_driver.apply_s_box(&mut st, r < 4 || r >= 33);
        manual_driver.apply_mds(&mut st);
    }
    s.permute();
    for i in 0..3 {
        assert_felt_eq(s.state[i], st[i]);
    }
}

#[test]
fn first_constant_matches_decimal_form() {
    // 44595993092652566245296379427906271087754779418564084732265552598173323099784
    // written in base-2^32 limbs, most significant first.
    let c = poseidon_parameters_for_test();
    let expected = felt_from_limbs(
        0x62987006,
        0xc0b7ee95,
        0x06a3baf1,
        0x4c8858b4,
        0x91d086d6,
        0x810b5248,
        0x80b7fd8f,
        0xac77fe88,
    );
    assert_felt_eq(c.ark[0][0], expected);
}

#[test]
fn accessors_read_and_write_slots() {
    let mut s = Bls12381Poseidon::new([0u8; 32]);
    s.set(1, felt_from_u64(42));
    assert_felt_eq(s.get(1), felt_from_u64(42));
    assert_felt_eq(s.get(0), felt_from_u64(0));
    let prefix = s.get_prefix(2);
    assert_eq!(prefix.len(), 2);
    assert_felt_eq(prefix[0], felt_from_u64(0));
    assert_felt_eq(prefix[1], felt_from_u64(42));
    let suffix = s.get_suffix(1);
    assert_eq!(suffix.len(), 2);
    assert_felt_eq(suffix[0], felt_from_u64(42));
    let mid = s.get_range(1, 2);
    assert_eq!(mid.len(), 1);
    assert_felt_eq(mid[0], felt_from_u64(42));
    let vals = vec![felt_from_u64(5), felt_from_u64(6)];
    s.set_range(1, &vals);
    assert_felt_eq(s.get(0), felt_from_u64(0));
    assert_felt_eq(s.get(1), felt_from_u64(5));
    assert_felt_eq(s.get(2), felt_from_u64(6));
}

#[test]
fn zeroize_empties_state() {
    let mut s = Bls12381Poseidon::new([3u8; 32]);
    s.permute();
    s.zeroize();
    assert_eq!(s.state_len(), 0);
}

#[test]
fn byte_decoding_matches_small_values() {
    let mut bytes = [0u8; 32];
    bytes[31] = 200;
    assert_felt_eq(felt_from_be_bytes(&bytes), felt_from_u64(200));
    let one_byte = [200u8];
    assert_felt_eq(felt_from_be_bytes(&one_byte), felt_from_u64(200));
    assert_felt_eq(felt_from_limbs(0, 0, 0, 0, 0, 0, 0, 200), felt_from_u64(200));
}
