use random_numbers::random::Random;

const TWO_23_INVERSE: f32 = 1.0 / 8388608.0;
const TWO_53_INVERSE: f64 = 1.0 / 9007199254740992.0;

#[test]
fn next_bool_test() {
    let mut random = Random::from_seed(0);

    assert!(random.next_bool());
}

#[test]
fn next_u8_test() {
    let mut random = Random::from_seed(0);

    assert_eq!(random.next_u8(), 222);
}

#[test]
fn next_i8_test() {
    let mut random = Random::from_seed(0);

    assert_eq!(random.next_i8(), -34);
}

#[test]
fn next_u16_test() {
    let mut random = Random::from_seed(0);

    assert_eq!(random.next_u16(), 57033);
}

#[test]
fn next_i16_test() {
    let mut random = Random::from_seed(0);

    assert_eq!(random.next_i16(), -8503);
}

#[test]
fn random_next_u32_test() {
    let mut random = Random::from_seed(0);

    assert_eq!(random.next_u32(), 3737718098);
}

#[test]
fn next_i32_test() {
    let mut random = Random::from_seed(0);

    assert_eq!(random.next_i32(), -557249198);
}

#[test]
fn random_next_u64_test() {
    let mut random = Random::from_seed(0);

    assert_eq!(random.next_u64(), 16053376993090331485);
}

#[test]
fn next_i64_test() {
    let mut random = Random::from_seed(0);

    assert_eq!(random.next_i64(), -2393367080619220131);
}

#[test]
fn next_u128_test() {
    let mut random = Random::from_seed(0);

    assert_eq!(random.next_u128(), 296132536910314333876124398186926965454);
}

#[test]
fn next_i128_test() {
    let mut random = Random::from_seed(0);

    assert_eq!(random.next_i128(), -44149830010624129587250209244841246002);
}

#[test]
fn next_f32_test() {
    let mut random = Random::from_seed(0);

    assert_eq!((random.next_f32_bits() as f32) * TWO_23_INVERSE, 0.87025523);
}

#[test]
fn random_next_f64_test() {
    let mut random = Random::from_seed(0);

    assert_eq!((random.next_f64_bits() as f64) * TWO_53_INVERSE, 0.8702553105818676);
}
