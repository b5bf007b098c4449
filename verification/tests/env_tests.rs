use multiply_prover::env_builder::create_execution_env;

#[test]
fn factors_are_written_in_read_order_low_word_first() {
    let env = create_execution_env(17, 23);
    assert_eq!(env.words(), &vec![17, 0, 23, 0]);
}

#[test]
fn large_factors_split_into_low_and_high_words() {
    let a = (2u64 << 32) + 5; // high word 2, low word 5
    let b = u64::MAX; // both words saturated
    let env = create_execution_env(a, b);
    assert_eq!(env.words(), &vec![5, 2, 0xffff_ffff, 0xffff_ffff]);
}

#[test]
fn identical_factors_build_identical_sequences() {
    let env1 = create_execution_env(17, 23);
    let env2 = create_execution_env(17, 23);
    assert_eq!(env1.words(), env2.words());
}

#[test]
fn sequence_matches_engine_word_encoding_of_each_factor() {
    let a = 0x1122334455667788u64;
    let b = 0x99aabbccddeeff00u64;
    let env = create_execution_env(a, b);
    let expected =
        vec![a as u32, (a >> 32) as u32, b as u32, (b >> 32) as u32];
    assert_eq!(env.words(), &expected);
}
