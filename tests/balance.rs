use hedge_balance::balance::{BalanceLayer, BalanceMake};
use hedge_balance::progress::Progress;
use hedge_balance::rng::{Generator, GeneratorError};

#[test]
fn layer_from_exhausted_rng_fails() {
    let err = rand::Error::new(rand::ErrorKind::Unavailable, "no entropy left");
    assert!(matches!(BalanceLayer::from_rng(Err(err)), Err(GeneratorError::Exhausted(_))));
}

#[test]
fn layer_applications_get_distinct_generators() {
    let mut layer = BalanceLayer::from_rng(Ok(5)).ok().unwrap();
    let root = layer.rng().seed_value();
    let mut seeds = Vec::new();
    for i in 0..8u32 {
        let make = layer.layer(i);
        assert_eq!(*make.inner_ref(), i);
        seeds.push(make.rng().seed_value());
    }
    assert_eq!(layer.rng().fork_count(), 8);
    assert_eq!(layer.rng().seed_value(), root);
    for i in 0..seeds.len() {
        assert_ne!(seeds[i], root);
        for j in (i + 1)..seeds.len() {
            assert_ne!(seeds[i], seeds[j]);
        }
    }
}

#[test]
fn builds_yield_balancers_with_distinct_generators() {
    let mut make = BalanceMake::new("discover", Generator::from_seed(11));
    let base = make.rng().seed_value();
    let mut seeds = Vec::new();
    for k in 0..6u32 {
        let mut fut = make.call(k);
        assert!(fut.pending());
        assert_eq!(*fut.inner_mut(), k);
        let out: Progress<_, ()> = fut.poll(Progress::Ready(k * 10));
        match out {
            Progress::Ready(b) => {
                assert_eq!(*b.discover_ref(), k * 10);
                seeds.push(b.rng().seed_value());
            }
            _ => panic!("a resolved inner operation must give a balancer"),
        }
        assert!(!fut.pending());
    }
    assert_eq!(make.rng().seed_value(), base);
    for i in 0..seeds.len() {
        for j in (i + 1)..seeds.len() {
            assert_ne!(seeds[i], seeds[j]);
        }
    }
}

#[test]
fn pending_inner_keeps_future_pending() {
    let mut make = BalanceMake::new((), Generator::from_seed(3));
    let mut fut = make.call(0u8);
    let out: Progress<_, &str> = fut.poll::<u8, &str>(Progress::Pending);
    assert!(matches!(out, Progress::Pending));
    assert!(fut.pending());
    let out = fut.poll::<u8, &str>(Progress::Ready(1));
    assert!(matches!(out, Progress::Ready(_)));
}

#[test]
fn inner_error_is_propagated_verbatim() {
    let mut make = BalanceMake::new((), Generator::from_seed(3));
    let mut fut = make.call(0u8);
    let out = fut.poll::<u8, &str>(Progress::Failed("no such target"));
    assert!(matches!(out, Progress::Failed("no such target")));
    assert!(!fut.pending());
    // the factory stays usable after a failed build
    let mut again = make.call(1u8);
    assert!(matches!(again.poll::<u8, &str>(Progress::Ready(2)), Progress::Ready(_)));
}

#[test]
fn entropy_factory_wraps_inner() {
    let mut make = BalanceMake::from_entropy(17u32);
    assert_eq!(*make.inner_mut(), 17);
    assert_eq!(make.rng().fork_count(), 0);
    let layer = BalanceLayer::new();
    assert_eq!(layer.rng().fork_count(), 0);
}
