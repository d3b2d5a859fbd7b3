use random_numbers::mersenne_twister::{init_mt_array, temper, twist_mt_array, MersenneTwister, WORD_COUNT};
use random_numbers::RandomNumberInit;

#[test]
fn new_mt_random_number_no_seed() {
    let mut mt_rnd = MersenneTwister::new();

    for _ in 0..(WORD_COUNT * 4) {
        // make sure we can update the inner array multiple times without panicking
        mt_rnd.next_u64();
    }
}

#[test]
fn new_mt_random_number_0_seed() {
    let mut mt_rnd = MersenneTwister::from_seed(0);

    for _ in 0..(WORD_COUNT * 4) {
        // make sure we can update the inner array multiple times without panicking
        mt_rnd.next_u64();
    }
}

#[test]
fn next_u32_test() {
    let mut mt_rnd = MersenneTwister::from_seed(0);

    assert_eq!(mt_rnd.next_u32(), 686307269);
}

#[test]
fn next_u64_test() {
    let mut mt_rnd = MersenneTwister::from_seed(0);

    assert_eq!(mt_rnd.next_u64(), 2947667278772165694);
}

#[test]
fn init_mt_array_test() {
    let mut mt_array: Vec<u64> = vec![1; WORD_COUNT];
    init_mt_array(0, &mut mt_array);
    assert_eq!(mt_array[0], 0);
    assert_eq!(mt_array[1], 1);
}

#[test]
fn twist_mt_array_test() {
    let mut mt_array: Vec<u64> = vec![1; WORD_COUNT];
    twist_mt_array(&mut mt_array);
}

#[test]
fn temper_test() {
    assert_eq!(temper(1), 18014535948568577);
}
