use random_numbers::seeds::current_nanos;

#[test]
fn current_nanos_test() {
    // make sure current_nanos() doesn't panic
    current_nanos();
}
