use jf::job::Canceller;

#[test]
fn canceller_test() {
    let canceller = Canceller::new();
    assert!(!canceller.is_canceled());
    canceller.cancel();
    assert!(canceller.is_canceled());
}

#[test]
fn canceller_clones_share_the_flag() {
    let canceller = Canceller::new();
    let clone = canceller.clone();
    assert!(!clone.is_canceled());
    canceller.cancel();
    assert!(clone.is_canceled());
    canceller.cancel();
    assert!(canceller.is_canceled());
}
