use fq::random::{public_random_64, public_random_seed_64, PublicRandomState};

fn reference_step(seed: &mut [u64; 16], index: &mut usize) -> u64 {
    let s0 = seed[*index];
    *index = (*index + 1) & 15;
    let mut s1 = seed[*index];
    s1 ^= s1 << 31;
    s1 ^= s1 >> 11;
    s1 ^= s0 ^ (s0 >> 30);
    seed[*index] = s1;
    s1
}

#[test]
fn first_step_from_initial_state() {
    let mut st = PublicRandomState::new();
    let mut seed: [u64; 16] = [1, 2, 3, 4, 5, 6, 7, 8, 9, 10, 11, 12, 13, 14, 15, 16];
    let mut index = 0usize;
    let expected = reference_step(&mut seed, &mut index);
    assert_eq!(st.step(), expected);
    // s0 = 1, s1 = 2: 2 ^ (2 << 31) = 0x1_0000_0002; >> 11 mixes; check the exact value.
    let a: u64 = 2 ^ (2u64 << 31);
    let b = a ^ (a >> 11);
    assert_eq!(expected, b ^ (1 ^ (1 >> 30)));
}

#[test]
fn random_64_matches_reference() {
    let mut st = PublicRandomState::new();
    let mut seed: [u64; 16] = [1, 2, 3, 4, 5, 6, 7, 8, 9, 10, 11, 12, 13, 14, 15, 16];
    let mut index = 0usize;
    for _ in 0..40 {
        let s = reference_step(&mut seed, &mut index);
        let expected = s.wrapping_mul(1181783497276652981) ^ 0x5555_5555_5555_5555;
        assert_eq!(public_random_64(&mut st), expected);
    }
}

#[test]
fn reseed_with_reset_is_reproducible() {
    let mut a = PublicRandomState::new();
    let mut b = PublicRandomState::new();
    for _ in 0..7 {
        public_random_64(&mut b);
    }
    public_random_seed_64(&mut a, 0xdead_beef, 1);
    public_random_seed_64(&mut b, 0xdead_beef, 1);
    for _ in 0..10 {
        assert_eq!(public_random_64(&mut a), public_random_64(&mut b));
    }
}

#[test]
fn reseed_without_reset_depends_on_history() {
    let mut a = PublicRandomState::new();
    let mut b = PublicRandomState::new();
    public_random_64(&mut b);
    public_random_seed_64(&mut a, 7, 0);
    public_random_seed_64(&mut b, 7, 0);
    assert_ne!(public_random_64(&mut a), public_random_64(&mut b));
}

#[test]
fn seed_matches_reference() {
    let mut st = PublicRandomState::new();
    public_random_seed_64(&mut st, 42, 1);
    let mut seed: [u64; 16] = [1, 2, 3, 4, 5, 6, 7, 8, 9, 10, 11, 12, 13, 14, 15, 16];
    let mut index = 0usize;
    seed[index] ^= 42;
    for _ in 0..16 {
        reference_step(&mut seed, &mut index);
    }
    let s = reference_step(&mut seed, &mut index);
    assert_eq!(public_random_64(&mut st), s.wrapping_mul(1181783497276652981) ^ 0x5555_5555_5555_5555);
}
