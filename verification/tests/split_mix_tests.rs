use random_numbers::split_mix::{mix, SplitMix, INCREMENT};
use random_numbers::RandomNumberInit;

#[test]
fn mod_new_test() {
    let mut split_mix = SplitMix::new();

    split_mix.next_u64();
}

#[test]
fn mod_from_seed_test() {
    let mut split_mix = SplitMix::from_seed(0);

    assert_eq!(split_mix.current_state, 0);

    let n = split_mix.next_u64();

    assert_eq!(n, 0);
    assert_eq!(split_mix.current_state, INCREMENT);
}

#[test]
fn split_mix_next_u32_test() {
    let mut split_mix = SplitMix::from_seed(0);

    assert_eq!(split_mix.next_u32(), 0);
}

#[test]
fn split_mix_next_u64_test() {
    let mut split_mix = SplitMix::from_seed(0);

    assert_eq!(split_mix.next_u64(), 0);
}

#[test]
fn mix_test() {
    let mut split_mix = SplitMix::from_seed(0);

    let n = mix(&mut split_mix);

    assert_eq!(n, 0);
    assert_eq!(split_mix.current_state, INCREMENT);
}
