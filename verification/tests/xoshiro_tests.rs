use random_numbers::xoshiro_256ss::{rol, Xoshiro256SS, XoshiroSS};
use random_numbers::RandomNumberInit;

#[test]
fn xoshiro_new_test() {
    let mut xoshiro = XoshiroSS::new();

    xoshiro.next_u64();
}

#[test]
fn xoshiro_from_seed_test() {
    let mut xoshiro = XoshiroSS::from_seed(0);

    assert_eq!(xoshiro.state_array[0], 0);
    assert_eq!(xoshiro.state_array[1], 16294208416658607535);
    assert_eq!(xoshiro.state_array[2], 7960286522194355700);
    assert_eq!(xoshiro.state_array[3], 487617019471545679);

    assert_eq!(xoshiro.next_u64(), 16053376993090331485);
}

#[test]
fn xoshiro_rol_test_0_1() {
    assert_eq!(rol(0, 1), 0);
}

#[test]
fn xoshiro_256ss_new_test() {
    let mut xoshiro = Xoshiro256SS::new();

    xoshiro.next_u64();
}

#[test]
fn xoshiro_256ss_from_seed_test() {
    let xoshiro = Xoshiro256SS::from_seed(0);

    assert_eq!(xoshiro.state_array[0], 0);
    assert_eq!(xoshiro.state_array[1], 16294208416658607535);
    assert_eq!(xoshiro.state_array[2], 7960286522194355700);
    assert_eq!(xoshiro.state_array[3], 487617019471545679);
}

#[test]
fn xoshiro_256ss_next_u32_test() {
    let mut xoshiro = Xoshiro256SS::from_seed(0);

    assert_eq!(xoshiro.next_u32(), 3737718098);
}

#[test]
fn xoshiro_256ss_next_u64_test() {
    let mut xoshiro = Xoshiro256SS::from_seed(0);

    assert_eq!(xoshiro.next_u64(), 16053376993090331485);
}

#[test]
fn rol_test_0_1() {
    assert_eq!(rol(0, 1), 0);
}
