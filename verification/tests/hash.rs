use confession_bot::hash::{get_hash_from_user, to_user, COLOUR_RANGE};
use std::hash::Hasher;

fn reference_id(seed: u64, user: u64) -> u32 {
    let mut hasher = twox_hash::XxHash64::with_seed(seed);
    hasher.write(&user.to_le_bytes());
    (hasher.finish() % 16_777_215) as u32
}

#[test]
fn to_user_folds_into_colour_range() {
    assert_eq!(to_user(0), 0);
    assert_eq!(to_user(16_777_214), 16_777_214);
    assert_eq!(to_user(16_777_215), 0);
    assert_eq!(to_user(16_777_216), 1);
    assert_eq!(to_user(u64::MAX), (u64::MAX % 16_777_215) as u32);
    assert_eq!(COLOUR_RANGE, 0xFFFFFF);
}

#[test]
fn hash_from_user_is_xxh64_of_the_user_id() {
    for (seed, user) in [(0u64, 0u64), (1, 2), (987654321, 123456789012345678), (u64::MAX, u64::MAX)] {
        let id = get_hash_from_user(seed, user);
        assert_eq!(id, reference_id(seed, user));
        assert!((id as u64) < COLOUR_RANGE);
    }
}

#[test]
fn hash_from_user_is_stable_and_depends_on_the_guild() {
    let a = get_hash_from_user(11, 555);
    assert_eq!(a, get_hash_from_user(11, 555));
    assert_ne!(a, get_hash_from_user(12, 555));
    assert_ne!(a, get_hash_from_user(11, 556));
    assert_ne!(a, to_user(555));
    assert_ne!(a, to_user(11));
}
