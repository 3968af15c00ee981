use pallet_template::pallet::BASE_WEIGHT;
use pallet_template::weights::{HASHING_PER_ROUND, ROCKS_DB_READ, ROCKS_DB_WRITE};
use pallet_template::{account_seed, checked_add, ensure_signed, hash_chain};
use pallet_template::{Call, Error, Event, Origin, Pallet, Runtime, RuntimeDbWeight};

#[test]
fn hash_chain_of_zero_rounds_is_seed() {
    let seed = account_seed(1);
    assert_eq!(hash_chain(seed, 0), seed);
}

#[test]
fn hash_chain_rehashes_its_output() {
    let seed = account_seed(1);
    let once = hash_chain(seed, 1);
    assert_ne!(once, seed);
    let twice = hash_chain(seed, 2);
    assert_ne!(twice, once);
    assert_eq!(hash_chain(once, 1), twice);
    assert_eq!(hash_chain(seed, 5), hash_chain(hash_chain(seed, 3), 2));
}

#[test]
fn account_seed_depends_on_account() {
    assert_ne!(account_seed(1), account_seed(2));
    assert_eq!(account_seed(3), account_seed(3));
}

#[test]
fn both_hashing_calls_emit_the_chain_digest() {
    let mut p = Pallet::new();
    assert_eq!(p.dangerous_repeat_hashing(Origin::Signed(4), 10), Ok(()));
    assert_eq!(p.benign_repeat_hashing(Origin::Signed(4), 10), Ok(()));
    assert_eq!(p.benign_repeat_hashing(Origin::Signed(5), 0), Ok(()));
    let expected = hash_chain(account_seed(4), 10);
    assert_eq!(
        p.events(),
        &[Event::TheHash(expected), Event::TheHash(expected), Event::TheHash(account_seed(5))]
    );
    assert_eq!(p.something(), None);
    assert_eq!(p.sum(), None);
}

#[test]
fn dispatch_runs_the_named_call() {
    let mut p = Pallet::new();
    assert_eq!(p.dispatch(Origin::Signed(1), Call::StoreSomething(8)), Ok(()));
    assert_eq!(p.dispatch(Origin::Signed(1), Call::TransactionalSum(2)), Ok(()));
    assert_eq!((p.something(), p.sum()), (Some(2), Some(10)));
    assert_eq!(p.dispatch(Origin::Signed(1), Call::RemoveSomething), Ok(()));
    assert_eq!(p.dispatch(Origin::Signed(1), Call::CauseError), Err(Error::NoneValue));
    assert_eq!(p.dispatch(Origin::Root, Call::Overflow(1)), Err(Error::Unauthenticated));
}

#[test]
fn checked_add_guard() {
    assert_eq!(checked_add(2, 3), Ok(5));
    assert_eq!(checked_add(u32::MAX, 0), Ok(u32::MAX));
    assert_eq!(checked_add(u32::MAX, 1), Err(Error::Overflow));
    assert_eq!(checked_add(1 << 31, 1 << 31), Err(Error::Overflow));
}

#[test]
fn ensure_signed_gives_signer() {
    assert_eq!(ensure_signed(Origin::Signed(9)), Ok(9));
    assert_eq!(ensure_signed(Origin::Root), Err(Error::Unauthenticated));
    assert_eq!(ensure_signed(Origin::Unsigned), Err(Error::Unauthenticated));
}

#[test]
fn fixed_call_weights() {
    assert_eq!(ROCKS_DB_READ, 25_000_000);
    assert_eq!(ROCKS_DB_WRITE, 100_000_000);
    assert_eq!(Call::StoreSomething(7).weight::<Runtime>(), 126_496_000);
    assert_eq!(Call::RemoveSomething.weight::<Runtime>(), 110_000_000);
    assert_eq!(Call::CauseError.weight::<Runtime>(), 135_000_000);
    assert_eq!(Call::Overflow(1).weight::<Runtime>(), 135_000_000);
    assert_eq!(Call::NoOverflow(1).weight::<Runtime>(), 135_000_000);
    assert_eq!(Call::UnwrapIsBad.weight::<Runtime>(), 135_000_000);
    assert_eq!(Call::NonTransactionalSum(1).weight::<Runtime>(), 235_000_000);
    assert_eq!(Call::TransactionalSum(1).weight::<Runtime>(), 235_000_000);
    assert_eq!(Call::DangerousRepeatHashing(0).weight::<Runtime>(), BASE_WEIGHT);
    assert_eq!(Call::DangerousRepeatHashing(u32::MAX).weight::<Runtime>(), 10_000_000);
}

#[test]
fn hashing_weight_scales_linearly() {
    assert_eq!(Call::BenignRepeatHashing(0).weight::<Runtime>(), 0);
    assert_eq!(Call::BenignRepeatHashing(1).weight::<Runtime>(), HASHING_PER_ROUND);
    let n = 50_000u32;
    let w_n = Call::BenignRepeatHashing(n).weight::<Runtime>();
    assert_eq!(w_n, 32_950_000_000);
    assert_eq!(Call::BenignRepeatHashing(2 * n).weight::<Runtime>(), 2 * w_n);
    assert_eq!(
        Call::BenignRepeatHashing(u32::MAX).weight::<Runtime>(),
        659_000 * u32::MAX as u64
    );
}

#[test]
fn db_weights_saturate() {
    let db = RuntimeDbWeight { read: u64::MAX, write: 3 };
    assert_eq!(db.reads(2), u64::MAX);
    assert_eq!(db.writes(2), 6);
    assert_eq!(db.reads_writes(1, 1), u64::MAX);
    let small = RuntimeDbWeight { read: 2, write: 5 };
    assert_eq!(small.reads_writes(3, 4), 26);
}
