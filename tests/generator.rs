use hedge_balance::rng::{Generator, GeneratorError};
use rand::RngCore;

#[test]
fn seed_value_of_root_is_splitmix_output() {
    let g = Generator::from_seed(0x9e3779b97f4a7c15);
    assert_eq!(g.seed_value(), 0xe220a8397b1dcdaf);
    assert_eq!(Generator::from_seed(0).seed_value(), 0);
}

#[test]
fn same_seed_gives_same_stream() {
    let a = Generator::from_seed(42);
    let b = Generator::from_seed(42);
    assert_eq!(a.seed_value(), b.seed_value());
    assert_eq!(a.small_rng().next_u64(), b.small_rng().next_u64());
}

#[test]
fn forks_differ_from_each_other_and_parent() {
    let mut g = Generator::from_seed(7);
    let f0 = g.fork();
    let f1 = g.fork();
    let f2 = g.fork();
    assert_eq!(g.fork_count(), 3);
    assert_eq!(f0.fork_count(), 0);
    let seeds = [g.seed_value(), f0.seed_value(), f1.seed_value(), f2.seed_value()];
    for i in 0..seeds.len() {
        for j in (i + 1)..seeds.len() {
            assert_ne!(seeds[i], seeds[j]);
        }
    }
    assert_ne!(f0.small_rng().next_u64(), f1.small_rng().next_u64());
}

#[test]
fn forking_leaves_parent_seed_unchanged() {
    let mut g = Generator::from_seed(99);
    let before = g.seed_value();
    let _child = g.fork();
    assert_eq!(g.seed_value(), before);
}

#[test]
fn draw_failure_is_generator_error() {
    let err = rand::Error::new(rand::ErrorKind::Unavailable, "source exhausted");
    match Generator::from_draw(Err(err)) {
        Err(GeneratorError::Exhausted(e)) => assert_eq!(e.kind, rand::ErrorKind::Unavailable),
        Ok(_) => panic!("an exhausted source must not give a generator"),
    }
}

#[test]
fn draw_success_seeds_generator() {
    let g = Generator::from_draw(Ok(1234)).ok().unwrap();
    assert_eq!(g.seed_value(), Generator::from_seed(1234).seed_value());
    assert_eq!(g.fork_count(), 0);
}

#[test]
fn entropy_generators_start_unforked() {
    let g = Generator::from_entropy();
    assert_eq!(g.fork_count(), 0);
}
