use pybadge_high::guard::{AlreadyTaken, PeripheralGuard};

#[test]
fn second_take_fails() {
    let mut g = PeripheralGuard::new();
    assert!(!g.taken());
    let first = g.take();
    assert!(first.is_ok());
    assert!(g.taken());
    assert_eq!(g.take().err(), Some(AlreadyTaken));
    assert_eq!(g.take().err(), Some(AlreadyTaken));
    drop(first);
    assert_eq!(g.take().err(), Some(AlreadyTaken));
}

#[test]
fn many_takes_give_one_claim() {
    let mut g = PeripheralGuard::new();
    let claims = (0..100).filter(|_| g.take().is_ok()).count();
    assert_eq!(claims, 1);
}
