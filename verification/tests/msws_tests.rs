use random_numbers::msws::MiddleSquaresWeylSequence;
use random_numbers::RandomNumberInit;

const TWO_53_INVERSE: f64 = 1.0 / 9007199254740992.0;

#[test]
fn new_test() {
    let mut msws = MiddleSquaresWeylSequence::new();

    msws.next_u64();
}

#[test]
fn from_seed_test() {
    let msws = MiddleSquaresWeylSequence::from_seed(0);

    assert_eq!(msws.x, 8745858294955777127);
    assert_eq!(msws.w, 13984785221142081895);
}

#[test]
fn mod_next_u32_test() {
    let mut msws = MiddleSquaresWeylSequence::from_seed(0);

    assert_eq!(msws.next_u32(), 1651175586);
}

#[test]
fn mod_next_u64_test() {
    let mut msws = MiddleSquaresWeylSequence::from_seed(0);

    assert_eq!(msws.next_u64(), 7091745142799299804);
}

#[test]
fn msws_next_f64_bits_test() {
    let mut msws = MiddleSquaresWeylSequence::from_seed(0);

    let bits = msws.next_f64_bits();

    assert_eq!((bits as f64) * TWO_53_INVERSE, 0.250060447322643);
}
